use tsar::errors::RunError;
use tsar::locator::Device;
use tsar::orchestrator::{RunAction, RunMachine, RunPhase, RunResult};
use tsar::driver::PlaybackObservation;
use tsar::resolver::{PlaylistEntry, RawTrack};

fn raw(id: &str) -> RawTrack {
    RawTrack { id: Some(String::from(id)), name: format!("song {id}"), duration_ms: Some(180000) }
}

fn entry(id: &str) -> PlaylistEntry {
    PlaylistEntry::Track(raw(id))
}

fn playing(id: &str) -> PlaybackObservation {
    PlaybackObservation::PlayingTrack { id: Some(String::from(id)) }
}

fn comp_device(id: &str) -> Vec<Device> {
    vec![Device { id: Some(String::from(id)), name: String::from("_comp_") }]
}

/// Bring a playlist machine to the point where the first track's play
/// command was issued, and return the machine.
fn playlist_machine_at_first_track(track_ids: &[&str], empty_playlist: bool) -> RunMachine {
    let uri = String::from("spotify:playlist:pl1");
    let (mut m, a) = RunMachine::new(&uri, String::from("_comp_"), empty_playlist);
    match a {
        RunAction::ListPlaylistItems { id } => assert_eq!(id, String::from("pl1")),
        _ => panic!("expected the playlist listing to be asked for"),
    }
    let entries: Vec<PlaylistEntry> = track_ids.iter().map(|id| entry(id)).collect();
    assert!(matches!(m.on_playlist_items(Ok(entries)), RunAction::StartSession));
    assert!(matches!(m.on_session_started(Ok(())), RunAction::WaitWarmup { delay_secs: 20 }));
    assert!(matches!(m.on_warmup_done(), RunAction::ListDevices));
    match m.on_devices(Ok(comp_device("d1"))) {
        RunAction::StartTrack { device_id, track_id } => {
            assert_eq!(device_id, String::from("d1"));
            assert_eq!(track_id, String::from(track_ids[0]));
        },
        _ => panic!("expected playback of the first track to be asked for"),
    }
    m
}

/// Play the track with this identifier to completion: command accepted,
/// observed playing once, then observed gone, then the drain wait.
fn complete_track(m: &mut RunMachine, id: &str) -> RunAction {
    assert!(matches!(m.on_play_started(Ok(())), RunAction::PollPlayback { delay_secs: 0 }));
    assert!(matches!(m.on_playback(playing(id)), RunAction::PollPlayback { delay_secs: 1 }));
    assert!(matches!(
        m.on_playback(PlaybackObservation::Nothing),
        RunAction::WaitDrain { delay_secs: 2 }
    ));
    m.on_drain_done()
}

#[test]
fn unrecognized_uri_fails_at_once_with_invalid_uri() {
    let uri = String::from("not a catalog uri");
    let (m, a) = RunMachine::new(&uri, String::from("_comp_"), false);
    assert!(matches!(a, RunAction::Finish));
    match m.outcome {
        Some(RunResult::Failure { error: RunError::InvalidUri { .. } }) => {},
        _ => panic!("expected an invalid-URI failure"),
    }
    assert!(!m.session_started);
}

#[test]
fn uri_with_unparsable_identifier_fails_with_invalid_uri() {
    let uri = String::from("spotify:track:has spaces");
    let (m, a) = RunMachine::new(&uri, String::from("_comp_"), false);
    assert!(matches!(a, RunAction::Finish));
    assert!(matches!(
        m.outcome,
        Some(RunResult::Failure { error: RunError::InvalidUri { .. } })
    ));
}

#[test]
fn empty_playlist_is_a_successful_no_op_without_a_session() {
    let uri = String::from("spotify:playlist:pl1");
    let (mut m, _) = RunMachine::new(&uri, String::from("_comp_"), true);
    let a = m.on_playlist_items(Ok(Vec::new()));
    assert!(matches!(a, RunAction::Finish));
    assert!(matches!(m.outcome, Some(RunResult::Success { mutation_error: None })));
    assert!(!m.session_started);
    assert_eq!(m.stops_issued, 0);
}

#[test]
fn collaborator_failure_during_resolution_terminates_the_run() {
    let uri = String::from("spotify:playlist:pl1");
    let (mut m, _) = RunMachine::new(&uri, String::from("_comp_"), false);
    let a = m.on_playlist_items(Err(String::from("http timeout")));
    assert!(matches!(a, RunAction::Finish));
    match &m.outcome {
        Some(RunResult::Failure { error: RunError::Collaborator { message } }) => {
            assert_eq!(message, &String::from("http timeout"));
        },
        _ => panic!("expected the collaborator failure to be preserved"),
    }
}

#[test]
fn track_lookup_reporting_nothing_fails_with_not_found() {
    let uri = String::from("spotify:track:T1");
    let (mut m, a) = RunMachine::new(&uri, String::from("_comp_"), false);
    match a {
        RunAction::LookupTrack { id } => assert_eq!(id, String::from("T1")),
        _ => panic!("expected the single-track lookup to be asked for"),
    }
    let a = m.on_track_looked_up(Ok(None));
    assert!(matches!(a, RunAction::Finish));
    assert!(matches!(
        m.outcome,
        Some(RunResult::Failure { error: RunError::NotFound { .. } })
    ));
}

#[test]
fn launch_failure_is_fatal_without_teardown() {
    let uri = String::from("spotify:playlist:pl1");
    let (mut m, _) = RunMachine::new(&uri, String::from("_comp_"), false);
    assert!(matches!(m.on_playlist_items(Ok(vec![entry("A")])), RunAction::StartSession));
    let a = m.on_session_started(Err(String::from("binary missing")));
    assert!(matches!(a, RunAction::Finish));
    assert!(matches!(
        m.outcome,
        Some(RunResult::Failure { error: RunError::ProcessLaunch { .. } })
    ));
    assert!(!m.session_started);
    assert_eq!(m.stops_issued, 0);
}

#[test]
fn device_never_appearing_tears_down_with_device_not_found() {
    let uri = String::from("spotify:playlist:pl1");
    let (mut m, _) = RunMachine::new(&uri, String::from("_comp_"), false);
    m.on_playlist_items(Ok(vec![entry("A")]));
    m.on_session_started(Ok(()));
    m.on_warmup_done();
    let mut stop_actions = 0;
    for _ in 0..4 {
        assert!(matches!(
            m.on_devices(Ok(Vec::new())),
            RunAction::WaitThenListDevices { delay_secs: 10 }
        ));
    }
    let a = m.on_devices(Ok(Vec::new()));
    if matches!(a, RunAction::StopSession) {
        stop_actions += 1;
    }
    assert_eq!(stop_actions, 1);
    let a = m.on_session_stopped();
    assert!(matches!(a, RunAction::Finish));
    assert!(matches!(
        m.outcome,
        Some(RunResult::Failure { error: RunError::DeviceNotFound { .. } })
    ));
    assert_eq!(m.stops_issued, 1);
}

#[test]
fn collaborator_failure_while_polling_devices_tears_down() {
    let uri = String::from("spotify:playlist:pl1");
    let (mut m, _) = RunMachine::new(&uri, String::from("_comp_"), false);
    m.on_playlist_items(Ok(vec![entry("A")]));
    m.on_session_started(Ok(()));
    m.on_warmup_done();
    let a = m.on_devices(Err(String::from("network down")));
    assert!(matches!(a, RunAction::StopSession));
    assert!(matches!(m.on_session_stopped(), RunAction::Finish));
    assert!(matches!(
        m.outcome,
        Some(RunResult::Failure { error: RunError::Collaborator { .. } })
    ));
    assert_eq!(m.stops_issued, 1);
}

#[test]
fn matching_device_without_identifier_tears_down_as_data_error() {
    let uri = String::from("spotify:playlist:pl1");
    let (mut m, _) = RunMachine::new(&uri, String::from("_comp_"), false);
    m.on_playlist_items(Ok(vec![entry("A")]));
    m.on_session_started(Ok(()));
    m.on_warmup_done();
    let devices = vec![Device { id: None, name: String::from("_comp_") }];
    let a = m.on_devices(Ok(devices));
    assert!(matches!(a, RunAction::StopSession));
    assert!(matches!(m.on_session_stopped(), RunAction::Finish));
    assert!(matches!(
        m.outcome,
        Some(RunResult::Failure { error: RunError::DataIntegrity { .. } })
    ));
    assert_eq!(m.stops_issued, 1);
}

#[test]
fn rejected_play_command_tears_down() {
    let mut m = playlist_machine_at_first_track(&["A"], false);
    let a = m.on_play_started(Err(String::from("command rejected")));
    assert!(matches!(a, RunAction::StopSession));
    assert!(matches!(m.on_session_stopped(), RunAction::Finish));
    assert!(matches!(
        m.outcome,
        Some(RunResult::Failure { error: RunError::Collaborator { .. } })
    ));
    assert_eq!(m.stops_issued, 1);
}

#[test]
fn malformed_playback_report_tears_down_as_data_error() {
    let mut m = playlist_machine_at_first_track(&["A"], false);
    assert!(matches!(m.on_play_started(Ok(())), RunAction::PollPlayback { delay_secs: 0 }));
    let a = m.on_playback(PlaybackObservation::PlayingUnknown);
    assert!(matches!(a, RunAction::StopSession));
    assert!(matches!(m.on_session_stopped(), RunAction::Finish));
    assert!(matches!(
        m.outcome,
        Some(RunResult::Failure { error: RunError::DataIntegrity { .. } })
    ));
    assert_eq!(m.stops_issued, 1);
}

#[test]
fn playlist_run_empties_the_playlist_of_the_completed_tracks() {
    let mut m = playlist_machine_at_first_track(&["A", "B"], true);
    assert!(matches!(complete_track(&mut m, "A"), RunAction::StartTrack { .. }));
    assert!(matches!(complete_track(&mut m, "B"), RunAction::StopSession));
    match m.on_session_stopped() {
        RunAction::RemovePlaylistItems { playlist_id, track_ids } => {
            assert_eq!(playlist_id, String::from("pl1"));
            assert_eq!(track_ids, vec![String::from("A"), String::from("B")]);
        },
        _ => panic!("expected the playlist mutation to be asked for"),
    }
    let a = m.on_mutation_done(Ok(()));
    assert!(matches!(a, RunAction::Finish));
    assert!(matches!(m.outcome, Some(RunResult::Success { mutation_error: None })));
}

#[test]
fn playlist_without_the_flag_is_never_mutated() {
    let mut m = playlist_machine_at_first_track(&["A"], false);
    assert!(matches!(complete_track(&mut m, "A"), RunAction::StopSession));
    let a = m.on_session_stopped();
    assert!(matches!(a, RunAction::Finish));
    assert!(matches!(m.outcome, Some(RunResult::Success { mutation_error: None })));
}

#[test]
fn album_run_is_never_mutated_even_with_the_flag_set() {
    let uri = String::from("spotify:album:al1");
    let (mut m, a) = RunMachine::new(&uri, String::from("_comp_"), true);
    match a {
        RunAction::ListAlbumTracks { id } => assert_eq!(id, String::from("al1")),
        _ => panic!("expected the album listing to be asked for"),
    }
    let stubs = vec![tsar::resolver::AlbumStub {
        id: Some(String::from("A")),
        name: String::from("song A"),
    }];
    match m.on_album_stubs(Ok(stubs)) {
        RunAction::LookupTracks { ids } => assert_eq!(ids, vec![String::from("A")]),
        _ => panic!("expected the batch fetch to be asked for"),
    }
    assert!(matches!(m.on_album_tracks(Ok(vec![raw("A")])), RunAction::StartSession));
    m.on_session_started(Ok(()));
    m.on_warmup_done();
    assert!(matches!(m.on_devices(Ok(comp_device("d1"))), RunAction::StartTrack { .. }));
    assert!(matches!(complete_track(&mut m, "A"), RunAction::StopSession));
    // Album kind: no mutation, whatever the flag says.
    let a = m.on_session_stopped();
    assert!(matches!(a, RunAction::Finish));
    assert!(matches!(m.outcome, Some(RunResult::Success { mutation_error: None })));
}

#[test]
fn track_run_with_the_flag_set_is_never_mutated() {
    let uri = String::from("spotify:track:T1");
    let (mut m, _) = RunMachine::new(&uri, String::from("_comp_"), true);
    assert!(matches!(m.on_track_looked_up(Ok(Some(raw("T1")))), RunAction::StartSession));
    m.on_session_started(Ok(()));
    m.on_warmup_done();
    assert!(matches!(m.on_devices(Ok(comp_device("d1"))), RunAction::StartTrack { .. }));
    assert!(matches!(complete_track(&mut m, "T1"), RunAction::StopSession));
    let a = m.on_session_stopped();
    assert!(matches!(a, RunAction::Finish));
    assert!(matches!(m.outcome, Some(RunResult::Success { mutation_error: None })));
}

#[test]
fn teardown_happens_exactly_once_when_track_two_of_three_fails() {
    let mut m = playlist_machine_at_first_track(&["A", "B", "C"], true);
    let mut stop_actions = 0;
    // Track A completes.
    let a = complete_track(&mut m, "A");
    assert!(matches!(a, RunAction::StartTrack { .. }));
    // Track B: the play command is accepted, but something else plays.
    assert!(matches!(m.on_play_started(Ok(())), RunAction::PollPlayback { delay_secs: 0 }));
    let a = m.on_playback(playing("X"));
    if matches!(a, RunAction::StopSession) {
        stop_actions += 1;
    }
    assert_eq!(stop_actions, 1);
    assert_eq!(m.stops_issued, 1);
    let a = m.on_session_stopped();
    // The run fails, and the failed run is never mutated.
    assert!(matches!(a, RunAction::Finish));
    assert!(matches!(
        m.outcome,
        Some(RunResult::Failure { error: RunError::PlaybackDesync { .. } })
    ));
    assert_eq!(m.stops_issued, 1);
    assert_eq!(m.phase, RunPhase::Complete);
}

#[test]
fn teardown_happens_exactly_once_on_a_successful_run() {
    let mut m = playlist_machine_at_first_track(&["A"], false);
    let a = complete_track(&mut m, "A");
    assert!(matches!(a, RunAction::StopSession));
    assert_eq!(m.stops_issued, 1);
    assert!(matches!(m.on_session_stopped(), RunAction::Finish));
    assert_eq!(m.stops_issued, 1);
}

#[test]
fn mutation_failure_is_reported_but_the_run_still_succeeds() {
    let mut m = playlist_machine_at_first_track(&["A"], true);
    assert!(matches!(complete_track(&mut m, "A"), RunAction::StopSession));
    assert!(matches!(m.on_session_stopped(), RunAction::RemovePlaylistItems { .. }));
    let a = m.on_mutation_done(Err(String::from("removal rejected")));
    assert!(matches!(a, RunAction::Finish));
    match &m.outcome {
        Some(RunResult::Success { mutation_error: Some(RunError::Collaborator { message }) }) => {
            assert_eq!(message, &String::from("removal rejected"));
        },
        _ => panic!("expected a success carrying the mutation failure"),
    }
}

#[test]
fn episode_in_the_playlist_fails_the_whole_run() {
    let uri = String::from("spotify:playlist:pl1");
    let (mut m, _) = RunMachine::new(&uri, String::from("_comp_"), false);
    let entries = vec![entry("A"), PlaylistEntry::Absent, PlaylistEntry::OtherPlayable];
    let a = m.on_playlist_items(Ok(entries));
    assert!(matches!(a, RunAction::Finish));
    assert!(matches!(
        m.outcome,
        Some(RunResult::Failure { error: RunError::UnsupportedItemKind { .. } })
    ));
    assert!(!m.session_started);
}
