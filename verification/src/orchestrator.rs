//! The run orchestrator.
//!
//! A run records every track a catalog URI resolves to: classify the URI,
//! resolve it to an ordered track list, bring up the recording session and
//! locate its device, play each track in order while watching playback
//! state, tear the session down on every exit path, and optionally empty
//! the source playlist of the tracks that were recorded.
//!
//! The orchestrator is a state machine over plain values. Each call of an
//! `on_*` method reports the outcome of the action the machine last asked
//! for and returns the next [`RunAction`]; the caller performs the network
//! calls, process management and waiting. A single run drives exactly one
//! machine from construction to the `Finish` action.

use vstd::prelude::*;
use vstd::string::StringExecFns;
use crate::classify::{Kind, classify, extract_id, spec_classify, spec_extract_id};
use crate::driver::{
    DRAIN_DELAY_SECS,
    DriverStep,
    POLL_DELAY_SECS,
    PlaybackDriver,
    PlaybackObservation,
};
use crate::errors::RunError;
use crate::locator::{Device, DeviceLocator, LocateStep, RetryPolicy, first_match_at, some_device_matches};
use crate::resolver::{
    AlbumStub,
    PlaylistEntry,
    RawTrack,
    TrackRecord,
    collect_album_ids,
    entry_offends,
    first_offense_at,
    kept_tracks,
    raw_ok,
    record_of,
    resolve_playlist_entries,
    stub_ok,
    track_wf,
    validate_track,
    validate_tracks,
};
use crate::session::WARMUP_DELAY_SECS;

verus! {

/// The terminal outcome of a run.
#[derive(Debug)]
pub enum RunResult {
    /// Every resolved track was recorded. When the post-run playlist
    /// mutation was requested and failed, its error is carried here: the
    /// failure is reported but does not invalidate the recording already
    /// produced.
    Success { mutation_error: Option<RunError> },
    /// The run terminated on this failure.
    Failure { error: RunError },
}

/// What the caller must do next on the machine's behalf.
#[derive(Debug)]
pub enum RunAction {
    /// Look the single track up by its identifier.
    LookupTrack { id: String },
    /// List the album's track stubs, draining pagination fully.
    ListAlbumTracks { id: String },
    /// Batch-fetch full track records by identifier, in this order.
    LookupTracks { ids: Vec<String> },
    /// List the playlist's items, draining pagination fully.
    ListPlaylistItems { id: String },
    /// Launch the recording agent.
    StartSession,
    /// Wait this many seconds for the recording agent to warm up.
    WaitWarmup { delay_secs: u64 },
    /// List the playback devices now.
    ListDevices,
    /// Wait this many seconds, then list the playback devices again.
    WaitThenListDevices { delay_secs: u64 },
    /// Command playback of this track on this device.
    StartTrack { device_id: String, track_id: String },
    /// Wait this many seconds (zero for the first poll after the play
    /// command), then report the current playback.
    PollPlayback { delay_secs: u64 },
    /// Wait this many seconds for the recorder's decoder to drain.
    WaitDrain { delay_secs: u64 },
    /// Terminate the recording agent, best-effort.
    StopSession,
    /// Remove these tracks from the playlist.
    RemovePlaylistItems { playlist_id: String, track_ids: Vec<String> },
    /// The run is over; the outcome is available on the machine.
    Finish,
}

/// Which report the machine awaits.
#[derive(Clone, Copy, PartialEq, Eq, Structural, Debug)]
pub enum RunPhase {
    AwaitTrackLookup,
    AwaitAlbumStubs,
    AwaitAlbumTracks,
    AwaitPlaylistItems,
    AwaitSessionStart,
    AwaitWarmup,
    AwaitDevices,
    AwaitPlayStart,
    AwaitPlayback,
    AwaitDrain,
    AwaitStop,
    AwaitMutation,
    Complete,
}

/// The state of one recording run.
pub struct RunMachine {
    /// The kind the URI classified to.
    pub kind: Kind,
    /// Whether the operator asked for the playlist to be emptied after the
    /// run.
    pub empty_playlist: bool,
    /// The identifier extracted from the URI.
    pub catalog_id: String,
    /// The name the recording device registers under.
    pub device_name: String,
    /// Which report the machine awaits.
    pub phase: RunPhase,
    /// The resolved track list, in playback order.
    pub tracks: Vec<TrackRecord>,
    /// How many tracks finished playing; also the index of the track in
    /// flight.
    pub completed: usize,
    /// The identifier of the located recording device; empty until found.
    pub device_id: String,
    /// The device-discovery episode.
    pub locator: DeviceLocator,
    /// The per-track playback state machine.
    pub driver: PlaybackDriver,
    /// Whether the recording session was started.
    pub session_started: bool,
    /// How many times the machine has asked for the session to be stopped.
    pub stops_issued: u32,
    /// The failure the run will terminate on once teardown is done.
    pub pending_failure: Option<RunError>,
    /// The terminal outcome, present exactly in the `Complete` phase.
    pub outcome: Option<RunResult>,
}

impl RunMachine {
    /// The machine is still resolving the URI to a track list.
    pub open spec fn resolving(self) -> bool {
        ||| self.phase is AwaitTrackLookup
        ||| self.phase is AwaitAlbumStubs
        ||| self.phase is AwaitAlbumTracks
        ||| self.phase is AwaitPlaylistItems
    }

    /// Every resolved track carries a non-empty identifier.
    pub open spec fn tracks_wf(self) -> bool {
        forall|i: int| 0 <= i < self.tracks@.len() ==> track_wf(#[trigger] self.tracks@[i])
    }

    /// The machine's invariant: established by `new`, preserved by every
    /// `on_*` method.
    pub open spec fn wf(self) -> bool {
        &&& self.tracks_wf()
        &&& self.completed <= self.tracks@.len()
        &&& self.stops_issued <= 1
        &&& (self.session_started ==> self.tracks@.len() > 0)
        &&& (self.phase is AwaitTrackLookup ==> self.kind is Track)
        &&& (self.phase is AwaitAlbumStubs ==> self.kind is Album)
        &&& (self.phase is AwaitAlbumTracks ==> self.kind is Album)
        &&& (self.phase is AwaitPlaylistItems ==> self.kind is Playlist)
        &&& (self.resolving() ==> !self.session_started && self.stops_issued == 0
            && self.pending_failure is None && self.outcome is None && self.completed == 0
            && self.tracks@.len() == 0)
        &&& (self.phase is AwaitSessionStart ==> !self.session_started && self.stops_issued == 0
            && self.tracks@.len() > 0 && self.pending_failure is None && self.outcome is None
            && self.completed == 0)
        &&& ((self.phase is AwaitWarmup || self.phase is AwaitDevices) ==> self.session_started
            && self.stops_issued == 0 && self.pending_failure is None && self.outcome is None
            && self.completed == 0)
        &&& (self.phase is AwaitDevices ==> self.locator.attempts_made
            < self.locator.policy.max_attempts)
        &&& ((self.phase is AwaitPlayStart || self.phase is AwaitPlayback)
            ==> self.session_started && self.stops_issued == 0 && self.pending_failure is None
            && self.outcome is None && self.completed < self.tracks@.len()
            && self.driver.track_id == self.tracks@[self.completed as int].id
            && (self.driver.phase is WaitingForStart || self.driver.phase is WaitingForFinish))
        &&& (self.phase is AwaitPlayStart ==> self.driver.phase is WaitingForStart)
        &&& (self.phase is AwaitDrain ==> self.session_started && self.stops_issued == 0
            && self.pending_failure is None && self.outcome is None && 0 < self.completed)
        &&& (self.phase is AwaitStop ==> self.session_started && self.stops_issued == 1
            && self.outcome is None
            && (self.pending_failure is None ==> self.completed == self.tracks@.len()))
        &&& (self.phase is AwaitMutation ==> self.session_started && self.stops_issued == 1
            && self.pending_failure is None && self.outcome is None && self.kind is Playlist
            && self.empty_playlist && 0 < self.completed && self.completed == self.tracks@.len())
        &&& (self.phase is Complete ==> self.outcome is Some
            && (self.session_started <==> self.stops_issued == 1))
        &&& (!(self.phase is Complete) ==> self.outcome is None)
    }
}

/// The machine is terminally failed without ever starting a session.
pub open spec fn failed_immediately(m: RunMachine, a: RunAction) -> bool {
    &&& m.phase is Complete
    &&& !m.session_started
    &&& a is Finish
    &&& m.outcome matches Some(RunResult::Failure { .. })
}

/// The error a completed, failed machine carries.
pub open spec fn failure_error(m: RunMachine) -> RunError
    recommends
        m.outcome matches Some(RunResult::Failure { .. }),
{
    m.outcome->0->error
}

/// The machine began tearing the session down with a failure pending.
pub open spec fn began_failing_teardown(pre: RunMachine, m: RunMachine, a: RunAction) -> bool {
    &&& m.phase is AwaitStop
    &&& a is StopSession
    &&& m.pending_failure is Some
    &&& m.stops_issued == pre.stops_issued + 1
}

/// The failure the teardown will terminate on.
pub open spec fn pending_error(m: RunMachine) -> RunError
    recommends
        m.pending_failure is Some,
{
    m.pending_failure->0
}

/// The configuration fields never change after construction.
pub open spec fn config_unchanged(pre: RunMachine, m: RunMachine) -> bool {
    &&& m.kind == pre.kind
    &&& m.empty_playlist == pre.empty_playlist
    &&& m.catalog_id == pre.catalog_id
    &&& m.device_name == pre.device_name
}

/// Resolution handed this track list on: an empty list completes the run as
/// a successful no-op without ever starting a session; a non-empty list
/// moves on to starting the recording session.
pub open spec fn proceeded_with(m: RunMachine, a: RunAction, ts: Seq<TrackRecord>) -> bool {
    if ts.len() == 0 {
        &&& m.phase is Complete
        &&& !m.session_started
        &&& a is Finish
        &&& (m.outcome matches Some(o) && o matches RunResult::Success { mutation_error }
            && mutation_error is None)
    } else {
        &&& m.phase is AwaitSessionStart
        &&& m.tracks@ == ts
        &&& a is StartSession
        &&& !m.session_started
    }
}

impl RunMachine {
    /// Build the machine for one run and return its first action.
    ///
    /// The URI is classified; a URI that does not name exactly one of a
    /// track, an album or a playlist, or whose identifier cannot be
    /// extracted, terminates the run at once with `InvalidUri`.
    pub fn new(uri: &String, device_name: String, empty_playlist: bool) -> (r: (
        RunMachine,
        RunAction,
    ))
        ensures
            r.0.wf(),
            r.0.kind == spec_classify(uri@),
            r.0.empty_playlist == empty_playlist,
            r.0.device_name == device_name,
            !r.0.session_started,
            r.0.stops_issued == 0,
            (spec_classify(uri@) is Unrecognized ==> failed_immediately(r.0, r.1) && failure_error(
                r.0,
            ) is InvalidUri),
            (spec_classify(uri@) is Track ==> (match spec_extract_id(uri@, Kind::Track) {
                Some(id) => r.0.phase is AwaitTrackLookup && r.0.catalog_id@ == id && (
                r.1 matches RunAction::LookupTrack { id: aid } && aid@ == id),
                None => failed_immediately(r.0, r.1) && failure_error(r.0) is InvalidUri,
            })),
            (spec_classify(uri@) is Album ==> (match spec_extract_id(uri@, Kind::Album) {
                Some(id) => r.0.phase is AwaitAlbumStubs && r.0.catalog_id@ == id && (
                r.1 matches RunAction::ListAlbumTracks { id: aid } && aid@ == id),
                None => failed_immediately(r.0, r.1) && failure_error(r.0) is InvalidUri,
            })),
            (spec_classify(uri@) is Playlist ==> (match spec_extract_id(uri@, Kind::Playlist) {
                Some(id) => r.0.phase is AwaitPlaylistItems && r.0.catalog_id@ == id && (
                r.1 matches RunAction::ListPlaylistItems { id: aid } && aid@ == id),
                None => failed_immediately(r.0, r.1) && failure_error(r.0) is InvalidUri,
            })),
    {
        let kind = classify(uri);
        let mut m = RunMachine {
            kind,
            empty_playlist,
            catalog_id: String::new(),
            device_name,
            phase: RunPhase::Complete,
            tracks: Vec::new(),
            completed: 0,
            device_id: String::new(),
            locator: DeviceLocator::new(RetryPolicy::standard()),
            driver: PlaybackDriver::new(String::new()),
            session_started: false,
            stops_issued: 0,
            pending_failure: None,
            outcome: None,
        };
        if kind == Kind::Unrecognized {
            let mut msg =
                "URI does not name exactly one of a track, an album or a playlist: ".to_owned();
            msg.append(uri.as_str());
            m.outcome = Some(
                RunResult::Failure { error: RunError::InvalidUri { message: msg } },
            );
            return (m, RunAction::Finish);
        }
        match extract_id(uri, kind) {
            None => {
                let mut msg = "no identifier could be extracted from URI: ".to_owned();
                msg.append(uri.as_str());
                m.outcome = Some(
                    RunResult::Failure { error: RunError::InvalidUri { message: msg } },
                );
                (m, RunAction::Finish)
            },
            Some(id) => {
                m.catalog_id = id;
                if kind == Kind::Track {
                    m.phase = RunPhase::AwaitTrackLookup;
                    let action = RunAction::LookupTrack { id: m.catalog_id.clone() };
                    (m, action)
                } else if kind == Kind::Album {
                    m.phase = RunPhase::AwaitAlbumStubs;
                    let action = RunAction::ListAlbumTracks { id: m.catalog_id.clone() };
                    (m, action)
                } else {
                    m.phase = RunPhase::AwaitPlaylistItems;
                    let action = RunAction::ListPlaylistItems { id: m.catalog_id.clone() };
                    (m, action)
                }
            },
        }
    }

    /// Terminate at once with this failure; only before any session exists.
    fn fail_now(&mut self, e: RunError) -> (a: RunAction)
        requires
            !old(self).session_started,
            old(self).stops_issued == 0,
            old(self).tracks_wf(),
            old(self).completed <= old(self).tracks@.len(),
        ensures
            final(self).wf(),
            config_unchanged(*old(self), *final(self)),
            final(self).session_started == old(self).session_started,
            final(self).stops_issued == old(self).stops_issued,
            final(self).tracks == old(self).tracks,
            failed_immediately(*final(self), a),
            failure_error(*final(self)) == e,
    {
        self.pending_failure = None;
        self.outcome = Some(RunResult::Failure { error: e });
        self.phase = RunPhase::Complete;
        RunAction::Finish
    }

    /// Record the failure and begin tearing the session down.
    fn fail_teardown(&mut self, e: RunError) -> (a: RunAction)
        requires
            old(self).session_started,
            old(self).stops_issued == 0,
            old(self).outcome is None,
            old(self).tracks_wf(),
            old(self).completed <= old(self).tracks@.len(),
            old(self).tracks@.len() > 0,
        ensures
            final(self).wf(),
            config_unchanged(*old(self), *final(self)),
            final(self).session_started == old(self).session_started,
            final(self).tracks == old(self).tracks,
            final(self).completed == old(self).completed,
            began_failing_teardown(*old(self), *final(self), a),
            pending_error(*final(self)) == e,
            a is StopSession,
    {
        self.pending_failure = Some(e);
        self.stops_issued = self.stops_issued + 1;
        self.phase = RunPhase::AwaitStop;
        RunAction::StopSession
    }

    /// Hand the resolved track list on.
    fn proceed_with_tracks(&mut self, tracks: Vec<TrackRecord>) -> (a: RunAction)
        requires
            !old(self).session_started,
            old(self).stops_issued == 0,
            old(self).pending_failure is None,
            old(self).completed == 0,
            old(self).tracks@.len() == 0,
            forall|i: int| 0 <= i < tracks@.len() ==> track_wf(#[trigger] tracks@[i]),
        ensures
            final(self).wf(),
            config_unchanged(*old(self), *final(self)),
            final(self).session_started == old(self).session_started,
            final(self).stops_issued == old(self).stops_issued,
            proceeded_with(*final(self), a, tracks@),
    {
        if tracks.len() == 0 {
            self.outcome = Some(RunResult::Success { mutation_error: None });
            self.phase = RunPhase::Complete;
            RunAction::Finish
        } else {
            self.tracks = tracks;
            self.outcome = None;
            self.phase = RunPhase::AwaitSessionStart;
            proof {
                assert forall|i: int| 0 <= i < self.tracks@.len() implies track_wf(
                    #[trigger] self.tracks@[i],
                ) by {
                    assert(self.tracks@[i] == tracks@[i]);
                }
            }
            RunAction::StartSession
        }
    }

    /// Report the single-track lookup: the collaborator's failure message,
    /// the raw record when found, or `None` when the catalog reports no
    /// such track.
    pub fn on_track_looked_up(&mut self, result: Result<Option<RawTrack>, String>) -> (a:
        RunAction)
        requires
            old(self).wf(),
            old(self).phase is AwaitTrackLookup,
        ensures
            final(self).wf(),
            config_unchanged(*old(self), *final(self)),
            final(self).session_started == old(self).session_started,
            final(self).stops_issued == old(self).stops_issued,
            !(a is StopSession),
            (result matches Err(msg) ==> failed_immediately(*final(self), a) && failure_error(
                *final(self),
            ) is Collaborator && failure_error(*final(self)).spec_message() == msg@),
            (result matches Ok(opt) ==> (match opt {
                None => failed_immediately(*final(self), a) && failure_error(
                    *final(self),
                ) is NotFound,
                Some(raw) => (if raw_ok(raw) {
                    proceeded_with(*final(self), a, seq![record_of(raw)])
                } else {
                    failed_immediately(*final(self), a) && failure_error(
                        *final(self),
                    ) is DataIntegrity
                }),
            })),
    {
        match result {
            Err(message) => self.fail_now(RunError::Collaborator { message }),
            Ok(None) => self.fail_now(
                RunError::NotFound { message: "catalog reports no such track".to_owned() },
            ),
            Ok(Some(raw)) => {
                match validate_track(&raw) {
                    Err(e) => self.fail_now(e),
                    Ok(t) => {
                        let mut one: Vec<TrackRecord> = Vec::new();
                        one.push(t);
                        self.proceed_with_tracks(one)
                    },
                }
            },
        }
    }

    /// Report the album's track-stub listing.
    pub fn on_album_stubs(&mut self, result: Result<Vec<AlbumStub>, String>) -> (a: RunAction)
        requires
            old(self).wf(),
            old(self).phase is AwaitAlbumStubs,
        ensures
            final(self).wf(),
            config_unchanged(*old(self), *final(self)),
            final(self).session_started == old(self).session_started,
            final(self).stops_issued == old(self).stops_issued,
            !(a is StopSession),
            (result matches Err(msg) ==> failed_immediately(*final(self), a) && failure_error(
                *final(self),
            ) is Collaborator && failure_error(*final(self)).spec_message() == msg@),
            (result matches Ok(stubs) ==> (if (forall|i: int|
                0 <= i < stubs@.len() ==> stub_ok(#[trigger] stubs@[i])) {
                final(self).phase is AwaitAlbumTracks && (
                a matches RunAction::LookupTracks { ids } && ids@.len() == stubs@.len() && (
                forall|i: int| 0 <= i < ids@.len() ==> ids@[i] == #[trigger] stubs@[i].id->0))
            } else {
                failed_immediately(*final(self), a) && failure_error(
                    *final(self),
                ) is DataIntegrity
            })),
    {
        match result {
            Err(message) => self.fail_now(RunError::Collaborator { message }),
            Ok(stubs) => {
                match collect_album_ids(stubs) {
                    Err(e) => self.fail_now(e),
                    Ok(ids) => {
                        self.phase = RunPhase::AwaitAlbumTracks;
                        RunAction::LookupTracks { ids }
                    },
                }
            },
        }
    }

    /// Report the batch fetch of the album's full track records.
    pub fn on_album_tracks(&mut self, result: Result<Vec<RawTrack>, String>) -> (a: RunAction)
        requires
            old(self).wf(),
            old(self).phase is AwaitAlbumTracks,
        ensures
            final(self).wf(),
            config_unchanged(*old(self), *final(self)),
            final(self).session_started == old(self).session_started,
            final(self).stops_issued == old(self).stops_issued,
            !(a is StopSession),
            (result matches Err(msg) ==> failed_immediately(*final(self), a) && failure_error(
                *final(self),
            ) is Collaborator && failure_error(*final(self)).spec_message() == msg@),
            (result matches Ok(raws) ==> (if (forall|i: int|
                0 <= i < raws@.len() ==> raw_ok(#[trigger] raws@[i])) {
                proceeded_with(
                    *final(self),
                    a,
                    raws@.map_values(|r: RawTrack| record_of(r)),
                )
            } else {
                failed_immediately(*final(self), a) && failure_error(
                    *final(self),
                ) is DataIntegrity
            })),
    {
        match result {
            Err(message) => self.fail_now(RunError::Collaborator { message }),
            Ok(raws) => {
                match validate_tracks(raws) {
                    Err(e) => self.fail_now(e),
                    Ok(v) => {
                        proof {
                            assert(v@ =~= raws@.map_values(|r: RawTrack| record_of(r)));
                        }
                        self.proceed_with_tracks(v)
                    },
                }
            },
        }
    }

    /// Report the playlist's item listing.
    pub fn on_playlist_items(&mut self, result: Result<Vec<PlaylistEntry>, String>) -> (a:
        RunAction)
        requires
            old(self).wf(),
            old(self).phase is AwaitPlaylistItems,
        ensures
            final(self).wf(),
            config_unchanged(*old(self), *final(self)),
            final(self).session_started == old(self).session_started,
            final(self).stops_issued == old(self).stops_issued,
            !(a is StopSession),
            (result matches Err(msg) ==> failed_immediately(*final(self), a) && failure_error(
                *final(self),
            ) is Collaborator && failure_error(*final(self)).spec_message() == msg@),
            (result matches Ok(entries) ==> (if (forall|i: int|
                0 <= i < entries@.len() ==> !entry_offends(#[trigger] entries@[i])) {
                proceeded_with(*final(self), a, kept_tracks(entries@))
            } else {
                failed_immediately(*final(self), a) && (exists|i: int|
                    #[trigger] first_offense_at(entries@, i) && (entries@[i] is OtherPlayable
                        ==> failure_error(*final(self)) is UnsupportedItemKind) && (
                    entries@[i] is Track ==> failure_error(*final(self)) is DataIntegrity))
            })),
    {
        match result {
            Err(message) => self.fail_now(RunError::Collaborator { message }),
            Ok(entries) => {
                match resolve_playlist_entries(entries) {
                    Err(e) => self.fail_now(e),
                    Ok(v) => self.proceed_with_tracks(v),
                }
            },
        }
    }

    /// Report whether the recording agent launched. Launch failure is fatal
    /// at once and never retried; there is no session to tear down.
    pub fn on_session_started(&mut self, result: Result<(), String>) -> (a: RunAction)
        requires
            old(self).wf(),
            old(self).phase is AwaitSessionStart,
        ensures
            final(self).wf(),
            config_unchanged(*old(self), *final(self)),
            final(self).stops_issued == old(self).stops_issued,
            final(self).tracks == old(self).tracks,
            !(a is StopSession),
            (result matches Err(msg) ==> failed_immediately(*final(self), a) && failure_error(
                *final(self),
            ) is ProcessLaunch && failure_error(*final(self)).spec_message() == msg@
                && !final(self).session_started),
            (result is Ok ==> final(self).session_started && final(self).phase is AwaitWarmup && (
            a matches RunAction::WaitWarmup { delay_secs } && delay_secs == WARMUP_DELAY_SECS)),
    {
        match result {
            Err(message) => self.fail_now(RunError::ProcessLaunch { message }),
            Ok(()) => {
                self.session_started = true;
                self.phase = RunPhase::AwaitWarmup;
                RunAction::WaitWarmup { delay_secs: WARMUP_DELAY_SECS }
            },
        }
    }

    /// Report that the warm-up wait elapsed: device discovery begins, with
    /// a fresh episode under the standard retry policy.
    pub fn on_warmup_done(&mut self) -> (a: RunAction)
        requires
            old(self).wf(),
            old(self).phase is AwaitWarmup,
        ensures
            final(self).wf(),
            config_unchanged(*old(self), *final(self)),
            final(self).session_started == old(self).session_started,
            final(self).stops_issued == old(self).stops_issued,
            final(self).tracks == old(self).tracks,
            final(self).phase is AwaitDevices,
            final(self).locator.attempts_made == 0,
            final(self).locator.policy == (RetryPolicy { max_attempts: 5, delay_secs: 10 }),
            a is ListDevices,
    {
        self.locator = DeviceLocator::new(RetryPolicy::standard());
        self.phase = RunPhase::AwaitDevices;
        RunAction::ListDevices
    }

    /// Report one poll of the device list.
    ///
    /// The first device whose name equals the machine's device name
    /// decides: playback moves to the first track on it, or a match
    /// without an identifier tears the run down as a data error. With no
    /// match the machine retries after the policy's delay until the
    /// attempt budget is spent, then tears down with `DeviceNotFound`.
    pub fn on_devices(&mut self, result: Result<Vec<Device>, String>) -> (a: RunAction)
        requires
            old(self).wf(),
            old(self).phase is AwaitDevices,
        ensures
            final(self).wf(),
            config_unchanged(*old(self), *final(self)),
            final(self).session_started == old(self).session_started,
            final(self).tracks == old(self).tracks,
            (a is StopSession <==> final(self).stops_issued == old(self).stops_issued + 1),
            final(self).stops_issued <= old(self).stops_issued + 1,
            old(self).stops_issued <= final(self).stops_issued,
            (result matches Err(msg) ==> began_failing_teardown(*old(self), *final(self), a)
                && pending_error(*final(self)) is Collaborator
                && pending_error(*final(self)).spec_message() == msg@),
            (result matches Ok(devices) ==> {
                &&& (!some_device_matches(devices@, old(self).device_name@)
                    && old(self).locator.attempts_made + 1 < old(self).locator.policy.max_attempts
                    ==> final(self).phase is AwaitDevices
                        && (a matches RunAction::WaitThenListDevices { delay_secs }
                            && delay_secs == old(self).locator.policy.delay_secs)
                        && final(self).locator.attempts_made
                            == old(self).locator.attempts_made + 1)
                &&& (!some_device_matches(devices@, old(self).device_name@)
                    && old(self).locator.attempts_made + 1 == old(self).locator.policy.max_attempts
                    ==> began_failing_teardown(*old(self), *final(self), a)
                        && pending_error(*final(self)) is DeviceNotFound)
                &&& (some_device_matches(devices@, old(self).device_name@) ==> (exists|i: int|
                    #[trigger] first_match_at(devices@, old(self).device_name@, i)
                    && (devices@[i].id matches Some(d) ==> final(self).phase is AwaitPlayStart
                        && final(self).device_id == d
                        && (a matches RunAction::StartTrack { device_id, track_id }
                            && device_id == d && track_id == old(self).tracks@[0].id))
                    && (devices@[i].id is None
                        ==> began_failing_teardown(*old(self), *final(self), a)
                            && pending_error(*final(self)) is DataIntegrity)))
            }),
    {
        match result {
            Err(message) => self.fail_teardown(RunError::Collaborator { message }),
            Ok(devices) => {
                let step = self.locator.observe(&devices, &self.device_name);
                match step {
                    LocateStep::Found { device_id } => {
                        self.device_id = device_id;
                        self.driver = PlaybackDriver::new(self.tracks[0].id.clone());
                        self.phase = RunPhase::AwaitPlayStart;
                        RunAction::StartTrack {
                            device_id: self.device_id.clone(),
                            track_id: self.tracks[0].id.clone(),
                        }
                    },
                    LocateStep::MissingId => self.fail_teardown(
                        RunError::DataIntegrity {
                            message: "a device matching the name carries no identifier".to_owned(),
                        },
                    ),
                    LocateStep::RetryAfterDelay { delay_secs } => RunAction::WaitThenListDevices {
                        delay_secs,
                    },
                    LocateStep::GiveUp => {
                        let mut msg = "no device named ".to_owned();
                        msg.append(self.device_name.as_str());
                        msg.append(" appeared within the retry budget; last observed devices:");
                        let mut i: usize = 0;
                        while i < devices.len()
                            invariant
                                i <= devices@.len(),
                            decreases devices@.len() - i,
                        {
                            msg.append(" ");
                            msg.append(devices[i].name.as_str());
                            i += 1;
                        }
                        self.fail_teardown(RunError::DeviceNotFound { message: msg })
                    },
                }
            },
        }
    }

    /// Report whether the play command for the current track was accepted.
    pub fn on_play_started(&mut self, result: Result<(), String>) -> (a: RunAction)
        requires
            old(self).wf(),
            old(self).phase is AwaitPlayStart,
        ensures
            final(self).wf(),
            config_unchanged(*old(self), *final(self)),
            final(self).session_started == old(self).session_started,
            final(self).tracks == old(self).tracks,
            final(self).completed == old(self).completed,
            (a is StopSession <==> final(self).stops_issued == old(self).stops_issued + 1),
            final(self).stops_issued <= old(self).stops_issued + 1,
            old(self).stops_issued <= final(self).stops_issued,
            (result matches Err(msg) ==> began_failing_teardown(*old(self), *final(self), a)
                && pending_error(*final(self)) is Collaborator && pending_error(
                *final(self),
            ).spec_message() == msg@),
            (result is Ok ==> final(self).phase is AwaitPlayback
                && (a matches RunAction::PollPlayback { delay_secs } && delay_secs == 0)
                && final(self).driver == old(self).driver),
    {
        match result {
            Err(message) => self.fail_teardown(RunError::Collaborator { message }),
            Ok(()) => {
                self.phase = RunPhase::AwaitPlayback;
                RunAction::PollPlayback { delay_secs: 0 }
            },
        }
    }

    /// Report one poll of the current playback while a track is in flight.
    ///
    /// Nothing playing means "keep waiting" before the track has started
    /// and "the track finished" afterwards; the drain wait follows. A
    /// playing track with the requested identifier keeps the machine
    /// polling; any other playing item tears the run down as a
    /// desynchronization; a playing report without item information or
    /// without an identifier tears it down as a data error.
    pub fn on_playback(&mut self, obs: PlaybackObservation) -> (a: RunAction)
        requires
            old(self).wf(),
            old(self).phase is AwaitPlayback,
        ensures
            final(self).wf(),
            config_unchanged(*old(self), *final(self)),
            final(self).session_started == old(self).session_started,
            final(self).tracks == old(self).tracks,
            (a is StopSession <==> final(self).stops_issued == old(self).stops_issued + 1),
            final(self).stops_issued <= old(self).stops_issued + 1,
            old(self).stops_issued <= final(self).stops_issued,
            (match obs {
                PlaybackObservation::Nothing => (if old(self).driver.phase is WaitingForStart {
                    final(self).phase is AwaitPlayback
                        && final(self).completed == old(self).completed
                        && (a matches RunAction::PollPlayback { delay_secs } && delay_secs
                        == POLL_DELAY_SECS)
                } else {
                    final(self).phase is AwaitDrain && final(self).completed == old(self).completed
                        + 1 && (a matches RunAction::WaitDrain { delay_secs } && delay_secs
                        == DRAIN_DELAY_SECS)
                }),
                PlaybackObservation::PlayingUnknown => began_failing_teardown(
                    *old(self),
                    *final(self),
                    a,
                ) && pending_error(*final(self)) is DataIntegrity,
                PlaybackObservation::PlayingOther => began_failing_teardown(
                    *old(self),
                    *final(self),
                    a,
                ) && pending_error(*final(self)) is PlaybackDesync,
                PlaybackObservation::PlayingTrack { id } => (match id {
                    None => began_failing_teardown(*old(self), *final(self), a) && pending_error(
                        *final(self),
                    ) is DataIntegrity,
                    Some(playing) => (if playing@
                        == old(self).tracks@[old(self).completed as int].id@ {
                        final(self).phase is AwaitPlayback
                            && final(self).completed == old(self).completed
                            && final(self).driver.phase is WaitingForFinish
                            && (a matches RunAction::PollPlayback { delay_secs } && delay_secs
                            == POLL_DELAY_SECS)
                    } else {
                        began_failing_teardown(*old(self), *final(self), a) && pending_error(
                            *final(self),
                        ) is PlaybackDesync
                    }),
                }),
            }),
    {
        let step = self.driver.observe(&obs);
        match step {
            DriverStep::PollAgain { delay_secs } => RunAction::PollPlayback { delay_secs },
            DriverStep::TrackDone { drain_secs } => {
                // A track only finishes while one is in flight, so the count
                // stays within the list's length and cannot overflow.
                let total = self.tracks.len();
                proof {
                    assert(self.completed < total);
                }
                self.completed = self.completed + 1;
                self.phase = RunPhase::AwaitDrain;
                RunAction::WaitDrain { delay_secs: drain_secs }
            },
            DriverStep::Desync => self.fail_teardown(
                RunError::PlaybackDesync {
                    message: "the playing item is not the requested track".to_owned(),
                },
            ),
            DriverStep::MissingInfo => self.fail_teardown(
                RunError::DataIntegrity {
                    message: "current playback reports an item without usable information"
                        .to_owned(),
                },
            ),
        }
    }

    /// Report that the drain wait after a finished track elapsed: playback
    /// of the next track begins, or, after the last track, teardown of the
    /// recording session.
    pub fn on_drain_done(&mut self) -> (a: RunAction)
        requires
            old(self).wf(),
            old(self).phase is AwaitDrain,
        ensures
            final(self).wf(),
            config_unchanged(*old(self), *final(self)),
            final(self).session_started == old(self).session_started,
            final(self).tracks == old(self).tracks,
            final(self).completed == old(self).completed,
            (a is StopSession <==> final(self).stops_issued == old(self).stops_issued + 1),
            final(self).stops_issued <= old(self).stops_issued + 1,
            old(self).stops_issued <= final(self).stops_issued,
            (old(self).completed < old(self).tracks@.len() ==> final(self).phase is AwaitPlayStart
                && (a matches RunAction::StartTrack { device_id, track_id }
                    && device_id == old(self).device_id
                    && track_id == old(self).tracks@[old(self).completed as int].id)),
            (old(self).completed == old(self).tracks@.len() ==> final(self).phase is AwaitStop
                && a is StopSession && final(self).pending_failure is None),
    {
        if self.completed < self.tracks.len() {
            self.driver = PlaybackDriver::new(self.tracks[self.completed].id.clone());
            self.phase = RunPhase::AwaitPlayStart;
            RunAction::StartTrack {
                device_id: self.device_id.clone(),
                track_id: self.tracks[self.completed].id.clone(),
            }
        } else {
            self.stops_issued = self.stops_issued + 1;
            self.phase = RunPhase::AwaitStop;
            RunAction::StopSession
        }
    }

    /// Report that the recording session was torn down (teardown is
    /// best-effort: its own failures are absorbed by the caller and never
    /// escalate).
    ///
    /// A pending failure now terminates the run. Otherwise the run
    /// succeeded, and the playlist-emptying mutation is asked for exactly
    /// when the URI was a playlist, the operator requested emptying, and
    /// at least one track was recorded - over the recorded tracks, never
    /// the originally-resolved list.
    #[verifier::loop_isolation(false)]
    pub fn on_session_stopped(&mut self) -> (a: RunAction)
        requires
            old(self).wf(),
            old(self).phase is AwaitStop,
        ensures
            final(self).wf(),
            config_unchanged(*old(self), *final(self)),
            final(self).session_started == old(self).session_started,
            final(self).stops_issued == old(self).stops_issued,
            final(self).tracks == old(self).tracks,
            final(self).completed == old(self).completed,
            !(a is StopSession),
            (old(self).pending_failure matches Some(e) ==> final(self).phase is Complete
                && a is Finish && (final(self).outcome matches Some(o)
                && o matches RunResult::Failure { error } && error == e)),
            (old(self).pending_failure is None ==> {
                let wants = old(self).kind is Playlist && old(self).empty_playlist
                    && old(self).completed > 0;
                &&& (a is RemovePlaylistItems <==> wants)
                &&& (wants ==> final(self).phase is AwaitMutation
                    && (a matches RunAction::RemovePlaylistItems { playlist_id, track_ids }
                        && playlist_id == old(self).catalog_id
                        && track_ids@.len() == old(self).completed
                        && (forall|i: int| 0 <= i < track_ids@.len()
                            ==> track_ids@[i] == #[trigger] old(self).tracks@[i].id)))
                &&& (!wants ==> final(self).phase is Complete && a is Finish
                    && (final(self).outcome matches Some(o)
                        && o matches RunResult::Success { mutation_error }
                        && mutation_error is None))
            }),
    {
        let pf = self.pending_failure.take();
        match pf {
            Some(e) => {
                self.outcome = Some(RunResult::Failure { error: e });
                self.phase = RunPhase::Complete;
                RunAction::Finish
            },
            None => {
                if self.kind == Kind::Playlist && self.empty_playlist && self.completed > 0 {
                    let mut ids: Vec<String> = Vec::new();
                    let mut i: usize = 0;
                    while i < self.completed
                        invariant
                            i <= self.completed,
                            ids@.len() == i,
                            forall|j: int| 0 <= j < i ==> ids@[j] == self.tracks@[j].id,
                        decreases self.completed - i,
                    {
                        ids.push(self.tracks[i].id.clone());
                        i += 1;
                    }
                    self.phase = RunPhase::AwaitMutation;
                    RunAction::RemovePlaylistItems {
                        playlist_id: self.catalog_id.clone(),
                        track_ids: ids,
                    }
                } else {
                    self.outcome = Some(RunResult::Success { mutation_error: None });
                    self.phase = RunPhase::Complete;
                    RunAction::Finish
                }
            },
        }
    }

    /// Report the outcome of the playlist-emptying mutation. Either way the
    /// run completes successfully: a mutation failure is reported in the
    /// outcome but does not invalidate the recording already produced.
    pub fn on_mutation_done(&mut self, result: Result<(), String>) -> (a: RunAction)
        requires
            old(self).wf(),
            old(self).phase is AwaitMutation,
        ensures
            final(self).wf(),
            config_unchanged(*old(self), *final(self)),
            final(self).session_started == old(self).session_started,
            final(self).stops_issued == old(self).stops_issued,
            final(self).tracks == old(self).tracks,
            final(self).completed == old(self).completed,
            !(a is StopSession),
            a is Finish,
            final(self).phase is Complete,
            (result is Ok ==> (final(self).outcome matches Some(o)
                && o matches RunResult::Success { mutation_error } && mutation_error is None)),
            (result matches Err(msg) ==> (final(self).outcome matches Some(o)
                && o matches RunResult::Success { mutation_error }
                && mutation_error matches Some(e) && e is Collaborator && e.spec_message()
                == msg@)),
    {
        match result {
            Ok(()) => {
                self.outcome = Some(RunResult::Success { mutation_error: None });
            },
            Err(message) => {
                self.outcome = Some(
                    RunResult::Success {
                        mutation_error: Some(RunError::Collaborator { message }),
                    },
                );
            },
        }
        self.phase = RunPhase::Complete;
        RunAction::Finish
    }
}

/// Teardown happens exactly once per run: when a run completes, the stop
/// command has been issued exactly once if a session was ever started, and
/// never otherwise. Together with the per-step guarantee that `StopSession`
/// is returned exactly when `stops_issued` increments, a whole run - however
/// its playback loop ended - asks for exactly one teardown of the session it
/// started.
pub proof fn lemma_teardown_exactly_once(m: RunMachine)
    requires
        m.wf(),
        m.phase is Complete,
    ensures
        m.session_started ==> m.stops_issued == 1,
        !m.session_started ==> m.stops_issued == 0,
{
}

/// A recording session only ever exists for a non-empty track list: a run
/// whose resolution came back empty completes as a successful no-op without
/// starting a session.
pub proof fn lemma_no_session_for_empty_list(m: RunMachine)
    requires
        m.wf(),
        m.session_started,
    ensures
        m.tracks@.len() > 0,
{
}

} // verus!
