//! What holds of the connection state machine over whole runs: the guarantees an
//! application can rely on without reading the transitions.

use crate::realtime::events::{lemma_decode_message, SyncEvent};
use crate::realtime::heartbeat::{HEARTBEAT_INTERVAL_SECS, MAX_MISSED};
use crate::realtime::sync::{
    forwarded, forwarded_all, ConnectionState, Input, SyncModel, NORMAL_CLOSURE,
};
use vstd::prelude::*;

verus! {

/// Inputs that come from the application rather than from the transport or a timer.
pub open spec fn from_application(input: Input) -> bool {
    input is Connect || input is Disconnect || input is Reconnect
}

/// Inputs under which a healthy link carries on: timer ticks, heartbeat frames sent,
/// looks of the monitor and frames that are neither a close nor a failure.
pub open spec fn keeps_link(input: Input) -> bool {
    match input {
        Input::Tick | Input::Poll | Input::OtherFrame | Input::Text(_) => true,
        Input::HeartbeatSent(sent) => sent,
        _ => false,
    }
}

/// The missed count a connected link shows after a trace, having started at `start`:
/// a heartbeat frame clears it, a tick adds one.
pub open spec fn pulse_gap(start: nat, trace: Seq<Input>) -> nat
    decreases trace.len(),
{
    if trace.len() == 0 {
        start
    } else {
        match trace.last() {
            Input::Text(msg) => if SyncEvent::decode(msg) == Some(SyncEvent::Heartbeat) {
                0
            } else {
                pulse_gap(start, trace.drop_last())
            },
            Input::Tick => pulse_gap(start, trace.drop_last()) + 1,
            _ => pulse_gap(start, trace.drop_last()),
        }
    }
}

/// A trace over which the link never waits three ticks for a heartbeat, and which
/// holds nothing that would end the link.
pub open spec fn steady(start: nat, trace: Seq<Input>) -> bool {
    &&& forall|i: int| 0 <= i < trace.len() ==> keeps_link(#[trigger] trace[i])
    &&& forall|k: int| 0 <= k <= trace.len() ==> #[trigger] pulse_gap(
        start,
        trace.take(k),
    ) < MAX_MISSED
}

/// Every transition keeps the model well-formed.
pub proof fn lemma_step_preserves_wf(m: SyncModel, input: Input)
    requires
        m.wf(),
    ensures
        m.step(input).wf(),
{
}

/// Every run keeps the model well-formed.
pub proof fn lemma_run_preserves_wf(m: SyncModel, trace: Seq<Input>)
    requires
        m.wf(),
    ensures
        m.run(trace).wf(),
    decreases trace.len(),
{
    if trace.len() > 0 {
        lemma_run_preserves_wf(m, trace.drop_last());
        lemma_step_preserves_wf(m.run(trace.drop_last()), trace.last());
    }
}

/// `Closed` is final: no input, and so no run, leaves it.
pub proof fn lemma_closed_is_final(m: SyncModel, trace: Seq<Input>)
    requires
        m.state == ConnectionState::Closed,
    ensures
        m.run(trace).state == ConnectionState::Closed,
    decreases trace.len(),
{
    if trace.len() > 0 {
        lemma_closed_is_final(m, trace.drop_last());
    }
}

/// After `disconnect`, the connection is closed whatever it was, `connect` and
/// `reconnect` change nothing any more, and a second `disconnect` is the first.
pub proof fn lemma_disconnect_is_permanent(m: SyncModel)
    ensures
        m.disconnect().state == ConnectionState::Closed,
        m.disconnect().connect() == m.disconnect(),
        m.disconnect().reconnect() == m.disconnect(),
        m.disconnect().disconnect() == m.disconnect(),
{
}

/// `connect` from `Disconnected` passes through `Connecting` and ends `Connected`
/// when the transport opens, `Disconnected` when it does not.
pub proof fn lemma_connect_path(m: SyncModel, opened: bool)
    requires
        m.state == ConnectionState::Disconnected,
    ensures
        m.connect().state == ConnectionState::Connecting,
        m.connect().connect_finished(opened).state == if opened {
            ConnectionState::Connected
        } else {
            ConnectionState::Disconnected
        },
        opened ==> m.connect().connect_finished(opened).missed == 0,
{
}

/// `connect` on a connection that is open or being opened changes nothing.
pub proof fn lemma_connect_is_idempotent(m: SyncModel)
    requires
        m.state == ConnectionState::Connected || m.state == ConnectionState::Connecting,
    ensures
        m.connect() == m,
{
}

/// A normal closure takes a connected link to `Disconnected`, and from there nothing
/// but the application brings it back: no timer, frame or look of the monitor starts
/// a reconnection.
pub proof fn lemma_normal_closure_stays_down(m: SyncModel, trace: Seq<Input>)
    requires
        m.state == ConnectionState::Connected,
        forall|i: int| 0 <= i < trace.len() ==> !from_application(#[trigger] trace[i]),
    ensures
        m.close(Some(NORMAL_CLOSURE)).state == ConnectionState::Disconnected,
        m.close(Some(NORMAL_CLOSURE)).run(trace).state == ConnectionState::Disconnected,
        m.close(Some(NORMAL_CLOSURE)).run(trace).delay == m.delay,
    decreases trace.len(),
{
    if trace.len() > 0 {
        let shorter = trace.drop_last();
        assert forall|i: int| 0 <= i < shorter.len() implies !from_application(
            #[trigger] shorter[i],
        ) by {
        }
        lemma_normal_closure_stays_down(m, shorter);
    }
}

/// Any other closure, a failed receive or a failed send takes a connected link to
/// `Reconnecting`.
pub proof fn lemma_abnormal_loss_reconnects(m: SyncModel, code: Option<u16>)
    requires
        m.state == ConnectionState::Connected,
        code != Some(NORMAL_CLOSURE),
    ensures
        m.close(code).state == ConnectionState::Reconnecting,
        m.step(Input::ReceiveFailed).state == ConnectionState::Reconnecting,
        m.heartbeat_sent(false).state == ConnectionState::Reconnecting,
{
}

/// While `Reconnecting`, looks of the monitor and failed retries in any number keep
/// the state, and the first retry whose transport opens ends `Connected` with
/// nothing missed and the backoff at rest.
pub proof fn lemma_retry_until_connected(m: SyncModel, trace: Seq<Input>)
    requires
        m.state == ConnectionState::Reconnecting,
        forall|i: int|
            0 <= i < trace.len() ==> #[trigger] trace[i] is Poll || trace[i]
                == Input::ReconnectFinished(false),
    ensures
        m.run(trace).state == ConnectionState::Reconnecting,
        m.run(trace).reconnect_finished(true) == (SyncModel {
            state: ConnectionState::Connected,
            missed: 0,
            delay: 0,
        }),
    decreases trace.len(),
{
    if trace.len() > 0 {
        let shorter = trace.drop_last();
        assert forall|i: int| 0 <= i < shorter.len() implies #[trigger] shorter[i] is Poll
            || shorter[i] == Input::ReconnectFinished(false) by {
        }
        lemma_retry_until_connected(m, shorter);
    }
}

/// As long as a heartbeat arrives before the third tick in a row, a connected link
/// stays connected: the missed count follows the gap since the last heartbeat and
/// never reaches the threshold.
pub proof fn lemma_heartbeats_keep_alive(m: SyncModel, trace: Seq<Input>)
    requires
        m.state == ConnectionState::Connected,
        steady(m.missed, trace),
    ensures
        m.run(trace).state == ConnectionState::Connected,
        m.run(trace).missed == pulse_gap(m.missed, trace),
        m.run(trace).missed < MAX_MISSED,
    decreases trace.len(),
{
    assert(trace.take(trace.len() as int) == trace);
    assert(pulse_gap(m.missed, trace.take(trace.len() as int)) < MAX_MISSED);
    if trace.len() > 0 {
        let shorter = trace.drop_last();
        assert forall|i: int| 0 <= i < shorter.len() implies keeps_link(#[trigger] shorter[i]) by {
        }
        assert forall|k: int| 0 <= k <= shorter.len() implies #[trigger] pulse_gap(
            m.missed,
            shorter.take(k),
        ) < MAX_MISSED by {
            assert(shorter.take(k) == trace.take(k));
        }
        lemma_heartbeats_keep_alive(m, shorter);
    }
}

/// Seconds between two heartbeats of a peer that sends them a little faster than
/// the timer ticks.
pub const PEER_INTERVAL_SECS: u64 = 4;

/// What a connection sees in second `t`, with a timer that ticks every five
/// seconds and a peer that sends a heartbeat every four and nothing else: in a
/// second that is a multiple of five the tick and the heartbeat frame sent on it,
/// and in one that is a multiple of four the peer's heartbeat. Where both fall into
/// one second the tick comes first, which is the less favourable order.
pub open spec fn second(t: nat) -> Seq<Input> {
    let tick = if t % (HEARTBEAT_INTERVAL_SECS as nat) == 0 {
        seq![Input::Tick, Input::HeartbeatSent(true)]
    } else {
        Seq::empty()
    };
    let pulse = if t % (PEER_INTERVAL_SECS as nat) == 0 {
        seq![Input::Text(SyncEvent::Heartbeat.message())]
    } else {
        Seq::empty()
    };
    tick + pulse
}

/// Everything such a connection sees in the seconds from one to `until`.
pub open spec fn timeline(until: nat) -> Seq<Input>
    decreases until,
{
    if until == 0 {
        Seq::empty()
    } else {
        timeline((until - 1) as nat) + second(until)
    }
}

/// One more input at the end of a trace is one more step at the end of its run.
pub proof fn lemma_run_push(m: SyncModel, trace: Seq<Input>, input: Input)
    ensures
        m.run(trace.push(input)) == m.run(trace).step(input),
        m.run(Seq::empty()) == m,
{
    assert(trace.push(input).drop_last() =~= trace);
}

/// Running one trace after another is running both in a row.
pub proof fn lemma_run_concat(m: SyncModel, first: Seq<Input>, then: Seq<Input>)
    ensures
        m.run(first + then) == m.run(first).run(then),
    decreases then.len(),
{
    if then.len() == 0 {
        assert(first + then =~= first);
    } else {
        lemma_run_concat(m, first, then.drop_last());
        assert((first + then).drop_last() =~= first + then.drop_last());
    }
}

/// With a heartbeat from the peer every four seconds and a tick every five, a
/// connected link stays connected for any length of time, and never misses more
/// than one heartbeat in a row.
pub proof fn lemma_regular_heartbeats_keep_alive(m: SyncModel, until: nat)
    requires
        m.state == ConnectionState::Connected,
        m.missed == 0,
    ensures
        m.run(timeline(until)).state == ConnectionState::Connected,
        m.run(timeline(until)).missed <= 1,
        m.run(timeline(until)).delay == m.delay,
{
    lemma_timeline(m, until);
}

/// The invariant behind `lemma_regular_heartbeats_keep_alive`: a heartbeat is
/// missed only while a tick lies behind the last heartbeat of the peer.
proof fn lemma_timeline(m: SyncModel, until: nat)
    requires
        m.state == ConnectionState::Connected,
        m.missed == 0,
    ensures
        m.run(timeline(until)).state == ConnectionState::Connected,
        m.run(timeline(until)).missed <= 1,
        m.run(timeline(until)).delay == m.delay,
        m.run(timeline(until)).missed == 1 ==> exists|s: int|
            until - until % 4 < s <= until && #[trigger] (s % 5) == 0,
    decreases until,
{
    if until > 0 {
        let before = (until - 1) as nat;
        lemma_timeline(m, before);
        lemma_run_concat(m, timeline(before), second(until));
        lemma_decode_message(SyncEvent::Heartbeat);
        let start = m.run(timeline(before));
        let pulse = Input::Text(SyncEvent::Heartbeat.message());
        if until % 5 == 0 {
            // A tick now means the last one was five seconds ago, before the last
            // heartbeat of the peer.
            assert(start.missed == 0) by {
                if start.missed == 1 {
                    let s = choose|s: int|
                        before - before % 4 < s <= before && #[trigger] (s % 5) == 0;
                    assert(s % 5 == 0);
                }
            }
            let ticked = start.step(Input::Tick).step(Input::HeartbeatSent(true));
            if until % 4 == 0 {
                let one = Seq::<Input>::empty().push(Input::Tick);
                let two = one.push(Input::HeartbeatSent(true));
                let trace = two.push(pulse);
                assert(second(until) =~= trace);
                lemma_run_push(start, Seq::empty(), Input::Tick);
                lemma_run_push(start, one, Input::HeartbeatSent(true));
                lemma_run_push(start, two, pulse);
                assert(start.run(trace) == ticked.step(pulse));
            } else {
                let one = Seq::<Input>::empty().push(Input::Tick);
                let trace = one.push(Input::HeartbeatSent(true));
                assert(second(until) =~= trace);
                lemma_run_push(start, Seq::empty(), Input::Tick);
                lemma_run_push(start, one, Input::HeartbeatSent(true));
                assert(start.run(trace) == ticked);
                assert(until - until % 4 < until && (until as int) % 5 == 0);
            }
        } else if until % 4 == 0 {
            let trace = Seq::<Input>::empty().push(pulse);
            assert(second(until) =~= trace);
            lemma_run_push(start, Seq::empty(), pulse);
            assert(start.run(trace) == start.step(pulse));
        } else {
            assert(second(until) =~= Seq::<Input>::empty());
            if start.missed == 1 {
                let s = choose|s: int| before - before % 4 < s <= before && #[trigger] (s % 5) == 0;
                assert(until - until % 4 < s <= until && s % 5 == 0);
            }
        }
    }
}

/// A transport that has fallen silent is given up within three ticks, whether or not
/// the heartbeat frames in between could still be sent.
pub proof fn lemma_silence_is_detected(m: SyncModel, first_sent: bool, second_sent: bool)
    requires
        m.wf(),
        m.state == ConnectionState::Connected,
    ensures
        m.tick().heartbeat_sent(first_sent).tick().heartbeat_sent(second_sent).tick().state
            == ConnectionState::Reconnecting,
{
}

/// A heartbeat frame is consumed by the connection: it clears the missed count and
/// nothing is forwarded.
pub proof fn lemma_heartbeat_is_consumed(m: SyncModel)
    ensures
        forwarded(SyncEvent::Heartbeat.message()) is None,
        m.text(SyncEvent::Heartbeat.message()).missed == 0,
        m.text(SyncEvent::Heartbeat.message()).state == m.state,
{
    lemma_decode_message(SyncEvent::Heartbeat);
}

/// The frame of every event but the heartbeat is forwarded as exactly that event.
pub proof fn lemma_notification_is_forwarded(event: SyncEvent)
    requires
        event != SyncEvent::Heartbeat,
    ensures
        forwarded(event.message()) == Some(event),
{
    lemma_decode_message(event);
}

/// Frames are forwarded at most once each, in arrival order, and never as a
/// heartbeat: the events forwarded from a run of frames followed by one more are
/// those of the run followed by that of the last frame, if it has one.
pub proof fn lemma_forwarding_order(frames: Seq<Seq<char>>, next: Seq<char>)
    ensures
        forwarded_all(frames).len() <= frames.len(),
        forall|i: int|
            0 <= i < forwarded_all(frames).len() ==> #[trigger] forwarded_all(frames)[i]
                != SyncEvent::Heartbeat,
        forwarded_all(frames.push(next)) == match forwarded(next) {
            Some(event) => forwarded_all(frames).push(event),
            None => forwarded_all(frames),
        },
    decreases frames.len(),
{
    assert(frames.push(next).drop_last() == frames);
    if frames.len() > 0 {
        lemma_forwarding_order(frames.drop_last(), frames.last());
    }
}

} // verus!
