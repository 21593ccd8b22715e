//! Whole command scripts: the request trace and final session they produce.
//!
//! A script pairs each command with the handle the player would hand back for
//! its start request (meaningful only for play commands; ignored otherwise).
//! This is the actor's receive loop in miniature: commands are applied
//! strictly one after the other, each from the session the previous one left
//! behind.

use vstd::prelude::*;

use crate::command::{AudioCommand, PlayerRequest};
use crate::session::{requests_for, state_after, PlaybackSession};

verus! {

/// The player requests a whole script produces, in issue order, starting from
/// session `s`.
pub open spec fn script_trace(
    s: PlaybackSession,
    script: Seq<(AudioCommand, Option<usize>)>,
) -> Seq<PlayerRequest>
    decreases script.len(),
{
    if script.len() == 0 {
        Seq::empty()
    } else {
        requests_for(s, script[0].0) + script_trace(
            state_after(s, script[0].0, script[0].1),
            script.skip(1),
        )
    }
}

/// The session a whole script leaves behind, starting from session `s`.
pub open spec fn script_state(
    s: PlaybackSession,
    script: Seq<(AudioCommand, Option<usize>)>,
) -> PlaybackSession
    decreases script.len(),
{
    if script.len() == 0 {
        s
    } else {
        script_state(state_after(s, script[0].0, script[0].1), script.skip(1))
    }
}

/// Run a whole script against a session, exactly as the actor's receive loop
/// would: each command is applied fully — its requests issued, a play
/// command's outcome recorded — before the next is looked at. Returns the
/// requests in issue order and the final session. This is the piece a
/// recording fake player exercises in tests.
pub fn run_script(
    start: PlaybackSession,
    script: Vec<(AudioCommand, Option<usize>)>,
) -> (r: (Vec<PlayerRequest>, PlaybackSession))
    ensures
        r.0@ == script_trace(start, script@),
        r.1 == script_state(start, script@),
{
    let ghost full = script@;
    let mut rest = script;
    let mut session = start;
    let mut trace: Vec<PlayerRequest> = Vec::new();
    while rest.len() > 0
        invariant
            script_trace(start, full) == trace@ + script_trace(session, rest@),
            script_state(start, full) == script_state(session, rest@),
        decreases rest.len(),
    {
        let ghost pre_rest = rest@;
        let (cmd, outcome) = rest.remove(0);
        let is_play = matches!(cmd, AudioCommand::Play(_));
        let mut requests = session.on_command(cmd);
        trace.append(&mut requests);
        if is_play {
            session.on_play_outcome(outcome);
        }
        proof {
            assert(rest@ =~= pre_rest.skip(1));
        }
    }
    (trace, session)
}

/// Law: a whole script preserves session well-formedness, whatever the
/// player answers along the way.
pub proof fn lemma_script_preserves_wf(
    s: PlaybackSession,
    script: Seq<(AudioCommand, Option<usize>)>,
)
    requires
        s.wf(),
    ensures
        script_state(s, script).wf(),
    decreases script.len(),
{
    if script.len() > 0 {
        crate::session::lemma_step_preserves_wf(s, script[0].0, script[0].1);
        lemma_script_preserves_wf(state_after(s, script[0].0, script[0].1), script.skip(1));
    }
}

/// Law: commands are applied strictly in send order. The trace of a script
/// followed by further commands is the trace of the first part, then the
/// trace of the rest started from the session the first part left behind —
/// no request of a later command ever precedes a request of an earlier one.
pub proof fn lemma_script_in_order(
    s: PlaybackSession,
    first: Seq<(AudioCommand, Option<usize>)>,
    rest: Seq<(AudioCommand, Option<usize>)>,
)
    ensures
        script_trace(s, first + rest) == script_trace(s, first) + script_trace(
            script_state(s, first),
            rest,
        ),
        script_state(s, first + rest) == script_state(script_state(s, first), rest),
    decreases first.len(),
{
    if first.len() == 0 {
        assert(first + rest =~= rest);
        assert(script_trace(s, first) + script_trace(script_state(s, first), rest) =~= script_trace(
            s,
            rest,
        ));
    } else {
        let s1 = state_after(s, first[0].0, first[0].1);
        lemma_script_in_order(s1, first.skip(1), rest);
        assert((first + rest).skip(1) =~= first.skip(1) + rest);
        assert(script_trace(s, first + rest) =~= script_trace(s, first) + script_trace(
            script_state(s, first),
            rest,
        ));
    }
}

/// Law: a play immediately followed by another play stops the first track
/// exactly once before starting the second. If the player answers the first
/// start request with a fresh handle `h1` (one that is not already the active
/// source), then the script `Play(a); Play(b)` produces exactly one stop
/// request for `h1`, that stop precedes the start request for `b` — the last
/// request of the trace — and the final session holds the player's answer to
/// the second start request.
pub proof fn lemma_consecutive_plays(
    s: PlaybackSession,
    a: String,
    b: String,
    h1: usize,
    o2: Option<usize>,
)
    requires
        s.active_source != Some(h1),
    ensures
        ({
            let script = seq![(AudioCommand::Play(a), Some(h1)), (AudioCommand::Play(b), o2)];
            let t = script_trace(s, script);
            let n = t.len();
            &&& n >= 2
            &&& t[n - 2] == PlayerRequest::StopSource(h1)
            &&& t[n - 1] == PlayerRequest::PlayFileStreamed(b)
            &&& forall|i: int|
                0 <= i < n && t[i] == PlayerRequest::StopSource(h1) ==> i == n - 2
            &&& script_state(s, script) == (PlaybackSession {
                active_source: o2,
                is_playing: o2 is Some,
            })
        }),
{
    reveal_with_fuel(script_trace, 3);
    reveal_with_fuel(script_state, 3);
    let script = seq![(AudioCommand::Play(a), Some(h1)), (AudioCommand::Play(b), o2)];
    let t = script_trace(s, script);
    let s1 = state_after(s, AudioCommand::Play(a), Some(h1));
    assert(s1 == PlaybackSession { active_source: Some(h1), is_playing: true });
    assert(script.skip(1) =~= seq![(AudioCommand::Play(b), o2)]);
    assert(script.skip(1).skip(1) =~= Seq::<(AudioCommand, Option<usize>)>::empty());
    match s.active_source {
        Some(h0) => {
            assert(t =~= seq![
                PlayerRequest::StopSource(h0),
                PlayerRequest::PlayFileStreamed(a),
                PlayerRequest::StopSource(h1),
                PlayerRequest::PlayFileStreamed(b),
            ]);
        },
        None => {
            assert(t =~= seq![
                PlayerRequest::PlayFileStreamed(a),
                PlayerRequest::StopSource(h1),
                PlayerRequest::PlayFileStreamed(b),
            ]);
        },
    }
}

} // verus!
