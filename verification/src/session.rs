//! The actor's session record and the effect of a single command.

use vstd::prelude::*;

use crate::command::{AudioCommand, PlayerRequest, Rate, Speed};

verus! {

/// The mutable record the actor keeps between commands. It is owned
/// exclusively by the actor; all mutation happens in the actor's
/// receive-and-apply step, so serialization, not locking, keeps it
/// consistent.
#[derive(Clone, Copy, Debug, PartialEq, Eq)]
pub struct PlaybackSession {
    /// Handle of the source whose start request last succeeded; `None` means
    /// no track has been loaded (or the last start failed).
    pub active_source: Option<usize>,
    /// Whether the active source is audibly advancing. Only meaningful while
    /// a source is loaded.
    pub is_playing: bool,
}

impl PlaybackSession {
    /// Well-formed: the session only counts as playing while a source is
    /// loaded.
    pub open spec fn wf(self) -> bool {
        self.is_playing ==> self.active_source is Some
    }

    /// The state the actor starts in: no track loaded, not playing.
    pub open spec fn initial() -> PlaybackSession {
        PlaybackSession { active_source: None, is_playing: false }
    }

    pub fn new() -> (s: PlaybackSession)
        ensures
            s == PlaybackSession::initial(),
            s.wf(),
    {
        PlaybackSession { active_source: None, is_playing: false }
    }
}

/// The requests the actor issues to the player for `cmd` received in session
/// `s`, in issue order. A command that needs a loaded track issues nothing
/// when none is loaded; a play command first stops the old source, if any,
/// then starts the new one.
pub open spec fn requests_for(s: PlaybackSession, cmd: AudioCommand) -> Seq<PlayerRequest> {
    match cmd {
        AudioCommand::Play(path) => {
            match s.active_source {
                Some(h) => seq![
                    PlayerRequest::StopSource(h),
                    PlayerRequest::PlayFileStreamed(path),
                ],
                None => seq![PlayerRequest::PlayFileStreamed(path)],
            }
        },
        AudioCommand::PlayPause => {
            match s.active_source {
                Some(h) => seq![
                    PlayerRequest::SetSourceSpeed(
                        h,
                        if s.is_playing {
                            Speed::Paused
                        } else {
                            Speed::Normal
                        },
                    ),
                ],
                None => seq![],
            }
        },
        AudioCommand::Stop => {
            match s.active_source {
                Some(h) => seq![PlayerRequest::StopSource(h)],
                None => seq![],
            }
        },
        AudioCommand::UpdateRate(rate) => {
            match s.active_source {
                Some(h) => seq![PlayerRequest::SetSourceSpeed(h, Speed::Custom(rate))],
                None => seq![],
            }
        },
    }
}

/// The session after the actor has applied `cmd` to session `s`. For a play
/// command, `outcome` is the player's answer to the start request — the new
/// handle on success, `None` on failure; other commands ignore it. A failed
/// start leaves the session not playing, and a rate change never flips the
/// playing/paused flag.
pub open spec fn state_after(
    s: PlaybackSession,
    cmd: AudioCommand,
    outcome: Option<usize>,
) -> PlaybackSession {
    match cmd {
        AudioCommand::Play(_) => PlaybackSession {
            active_source: outcome,
            is_playing: outcome is Some,
        },
        AudioCommand::PlayPause => {
            match s.active_source {
                Some(_) => PlaybackSession { is_playing: !s.is_playing, ..s },
                None => s,
            }
        },
        AudioCommand::Stop => PlaybackSession { is_playing: false, ..s },
        AudioCommand::UpdateRate(_) => s,
    }
}

impl PlaybackSession {
    /// Apply one command: return the player requests it produces, in issue
    /// order, and update the session. For a play command the new state is not
    /// known until the player answers the start request, so the session is
    /// cleared here and the caller reports the answer with
    /// [`PlaybackSession::on_play_outcome`] once the requests have been
    /// performed; every other command is complete after this call.
    pub fn on_command(&mut self, cmd: AudioCommand) -> (r: Vec<PlayerRequest>)
        ensures
            r@ == requests_for(*old(self), cmd),
            *final(self) == (if cmd is Play {
                PlaybackSession::initial()
            } else {
                state_after(*old(self), cmd, None)
            }),
            old(self).wf() ==> final(self).wf(),
    {
        let mut r: Vec<PlayerRequest> = Vec::new();
        match cmd {
            AudioCommand::Play(path) => {
                if let Some(h) = self.active_source {
                    r.push(PlayerRequest::StopSource(h));
                }
                r.push(PlayerRequest::PlayFileStreamed(path));
                self.active_source = None;
                self.is_playing = false;
            },
            AudioCommand::PlayPause => {
                if let Some(h) = self.active_source {
                    let speed = if self.is_playing {
                        Speed::Paused
                    } else {
                        Speed::Normal
                    };
                    r.push(PlayerRequest::SetSourceSpeed(h, speed));
                    self.is_playing = !self.is_playing;
                }
            },
            AudioCommand::Stop => {
                if let Some(h) = self.active_source {
                    r.push(PlayerRequest::StopSource(h));
                }
                self.is_playing = false;
            },
            AudioCommand::UpdateRate(rate) => {
                if let Some(h) = self.active_source {
                    r.push(PlayerRequest::SetSourceSpeed(h, Speed::Custom(rate)));
                }
            },
        }
        r
    }

    /// Record the player's answer to a start request: the handle of the new
    /// source on success, `None` on failure. A failed start leaves the
    /// session with no track and not playing.
    pub fn on_play_outcome(&mut self, outcome: Option<usize>)
        ensures
            final(self).active_source == outcome,
            final(self).is_playing == (outcome is Some),
            final(self).wf(),
    {
        self.is_playing = outcome.is_some();
        self.active_source = outcome;
    }
}

/// Law: every command preserves session well-formedness, whatever the player
/// answers — a failed start in particular leaves the session not playing
/// rather than playing with no source.
pub proof fn lemma_step_preserves_wf(
    s: PlaybackSession,
    cmd: AudioCommand,
    outcome: Option<usize>,
)
    requires
        s.wf(),
    ensures
        state_after(s, cmd, outcome).wf(),
{
}

/// Law: a play/pause toggle with no track loaded is a no-op — no request
/// reaches the player and the session is unchanged.
pub proof fn lemma_play_pause_without_track(s: PlaybackSession, outcome: Option<usize>)
    requires
        s.active_source is None,
    ensures
        requests_for(s, AudioCommand::PlayPause) == Seq::<PlayerRequest>::empty(),
        state_after(s, AudioCommand::PlayPause, outcome) == s,
{
}

/// Law: a stop with no active source is a no-op — no request reaches the
/// player and a well-formed session is unchanged.
pub proof fn lemma_stop_without_track(s: PlaybackSession, outcome: Option<usize>)
    requires
        s.wf(),
        s.active_source is None,
    ensures
        requests_for(s, AudioCommand::Stop) == Seq::<PlayerRequest>::empty(),
        state_after(s, AudioCommand::Stop, outcome) == s,
{
}

/// Law: two consecutive play/pause toggles on a loaded track return the
/// session — `is_playing` included — to exactly its original state.
pub proof fn lemma_play_pause_twice(
    s: PlaybackSession,
    o1: Option<usize>,
    o2: Option<usize>,
)
    requires
        s.active_source is Some,
    ensures
        state_after(state_after(s, AudioCommand::PlayPause, o1), AudioCommand::PlayPause, o2) == s,
{
}

/// Law: changing the playback rate never changes which source is active nor
/// whether the session counts as playing.
pub proof fn lemma_update_rate_preserves_session(
    s: PlaybackSession,
    rate: Rate,
    outcome: Option<usize>,
)
    ensures
        state_after(s, AudioCommand::UpdateRate(rate), outcome) == s,
{
}

} // verus!
