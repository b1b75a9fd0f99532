//! Driving playback of a single track and detecting its completion.
//!
//! After the play command is issued, the driver polls the collaborator's
//! current-playback report at a fixed interval. Until something is playing
//! it waits for the track to start; once playback is observed, any report of
//! a playing item other than the requested track is a desynchronization and
//! fails the run at once (the recorder may be capturing the wrong audio; no
//! self-correction is attempted). A report of nothing playing after playback
//! was observed means the track finished; a short drain delay then lets the
//! recording agent flush its decoder tail.

use vstd::prelude::*;

verus! {

/// Seconds between two polls of the current-playback report.
pub const POLL_DELAY_SECS: u64 = 1;

/// Seconds to wait after a track finishes, letting the recorder's decoder
/// drain before the next track starts.
pub const DRAIN_DELAY_SECS: u64 = 2;

/// One report of the collaborator's current playback.
#[derive(Debug)]
pub enum PlaybackObservation {
    /// Nothing is playing.
    Nothing,
    /// Something is playing but the report carries no item: malformed
    /// upstream data.
    PlayingUnknown,
    /// A playable item of another kind (such as a podcast episode) is
    /// playing.
    PlayingOther,
    /// A track is playing; its identifier may be missing from the report.
    PlayingTrack { id: Option<String> },
}

/// Where the driver stands between polls.
#[derive(Clone, Copy, PartialEq, Eq, Structural, Debug)]
pub enum DriverPhase {
    /// The play command was issued; nothing has been observed playing yet.
    WaitingForStart,
    /// The requested track has been observed playing.
    WaitingForFinish,
    /// The track was observed playing and then observed gone.
    Finished,
}

/// What one poll of the playback report decides.
#[derive(Debug)]
pub enum DriverStep {
    /// Poll again after this delay.
    PollAgain { delay_secs: u64 },
    /// The track finished; wait this drain delay, then move on.
    TrackDone { drain_secs: u64 },
    /// The playing item is not the requested track: desynchronization.
    Desync,
    /// The report is malformed (a playing item without information or
    /// without an identifier).
    MissingInfo,
}

/// The per-track playback state machine.
#[derive(Debug)]
pub struct PlaybackDriver {
    pub track_id: String,
    pub phase: DriverPhase,
    pub polls_made: u64,
}

impl PlaybackDriver {
    /// A fresh driver for the track with this identifier, ready for the
    /// first poll after the play command was issued.
    pub fn new(track_id: String) -> (d: PlaybackDriver)
        ensures
            d.track_id == track_id,
            d.phase is WaitingForStart,
            d.polls_made == 0,
    {
        PlaybackDriver { track_id, phase: DriverPhase::WaitingForStart, polls_made: 0 }
    }

    /// Account one poll of the current-playback report and decide what
    /// follows.
    ///
    /// Nothing playing means "keep waiting" before the track has started and
    /// "finished" afterwards. A playing track with the requested identifier
    /// keeps the driver polling; any other playing item is a
    /// desynchronization; a report without item information or without an
    /// identifier is malformed data.
    pub fn observe(&mut self, obs: &PlaybackObservation) -> (r: DriverStep)
        requires
            old(self).phase is WaitingForStart || old(self).phase is WaitingForFinish,
        ensures
            final(self).track_id == old(self).track_id,
            final(self).polls_made == (if old(self).polls_made < u64::MAX {
                old(self).polls_made + 1
            } else {
                old(self).polls_made as int
            }),
            match *obs {
                PlaybackObservation::Nothing => {
                    if old(self).phase is WaitingForStart {
                        r matches DriverStep::PollAgain { delay_secs }
                            && delay_secs == POLL_DELAY_SECS
                            && final(self).phase is WaitingForStart
                    } else {
                        r matches DriverStep::TrackDone { drain_secs }
                            && drain_secs == DRAIN_DELAY_SECS
                            && final(self).phase is Finished
                    }
                },
                PlaybackObservation::PlayingUnknown => r is MissingInfo && final(self).phase == old(
                    self,
                ).phase,
                PlaybackObservation::PlayingOther => r is Desync && final(self).phase == old(
                    self,
                ).phase,
                PlaybackObservation::PlayingTrack { id } => {
                    match id {
                        None => r is MissingInfo && final(self).phase == old(self).phase,
                        Some(playing) => {
                            if playing@ == old(self).track_id@ {
                                r matches DriverStep::PollAgain { delay_secs }
                                    && delay_secs == POLL_DELAY_SECS
                                    && final(self).phase is WaitingForFinish
                            } else {
                                r is Desync && final(self).phase == old(self).phase
                            }
                        },
                    }
                },
            },
    {
        if self.polls_made < u64::MAX {
            self.polls_made = self.polls_made + 1;
        }
        match obs {
            PlaybackObservation::Nothing => {
                if matches!(self.phase, DriverPhase::WaitingForStart) {
                    DriverStep::PollAgain { delay_secs: POLL_DELAY_SECS }
                } else {
                    self.phase = DriverPhase::Finished;
                    DriverStep::TrackDone { drain_secs: DRAIN_DELAY_SECS }
                }
            },
            PlaybackObservation::PlayingUnknown => DriverStep::MissingInfo,
            PlaybackObservation::PlayingOther => DriverStep::Desync,
            PlaybackObservation::PlayingTrack { id } => {
                match id {
                    None => DriverStep::MissingInfo,
                    Some(playing) => {
                        if playing.eq(&self.track_id) {
                            self.phase = DriverPhase::WaitingForFinish;
                            DriverStep::PollAgain { delay_secs: POLL_DELAY_SECS }
                        } else {
                            DriverStep::Desync
                        }
                    },
                }
            },
        }
    }
}

} // verus!
