//! What holds of whole runs of the drive controller: of the requests and
//! the reports that a list of messages brings about.
use crate::event::{EventView, TimedEventView};
use crate::hardware::HardwareOp;
use crate::motor::{BridgeCall, Motor};
use crate::motor_handler::{
    bridge_writes, outcome_at, reaction_of, state_after, step, Input, Message, MoveState,
};
use vstd::prelude::*;

verus! {

/// The requests to the motor bridge that a list of messages brings about,
/// in order.
pub open spec fn calls_during(s: MoveState, messages: Seq<Message>) -> Seq<BridgeCall>
    decreases messages.len(),
{
    if messages.len() == 0 {
        Seq::empty()
    } else {
        calls_during(s, messages.drop_last()) + step(
            state_after(s, messages.drop_last()),
            messages.last(),
        ).calls
    }
}

/// The events that the controller reports while it takes up a list of
/// messages, in order.
pub open spec fn events_during(s: MoveState, messages: Seq<Message>) -> Seq<TimedEventView>
    decreases messages.len(),
{
    if messages.len() == 0 {
        Seq::empty()
    } else {
        let before = events_during(s, messages.drop_last());
        match step(state_after(s, messages.drop_last()), messages.last()).event {
            Some(event) => before.push(event),
            None => before,
        }
    }
}

/// The number of `Stop` requests in a list of requests.
pub open spec fn stop_count(calls: Seq<BridgeCall>) -> nat
    decreases calls.len(),
{
    if calls.len() == 0 {
        0
    } else {
        stop_count(calls.drop_last()) + if calls.last() is Stop {
            1nat
        } else {
            0nat
        }
    }
}

/// Tells whether a message is an encoder snapshot.
pub open spec fn is_snapshot(message: Message) -> bool {
    message.input is Encoders
}

/// Tells whether every message of a list is an encoder snapshot.
pub open spec fn all_snapshots(messages: Seq<Message>) -> bool {
    forall|k: int| 0 <= k < messages.len() ==> is_snapshot(#[trigger] messages[k])
}

/// Tells whether every message of a list is an encoder snapshot or a
/// heartbeat.
pub open spec fn no_commands(messages: Seq<Message>) -> bool {
    forall|k: int| 0 <= k < messages.len() ==> !((#[trigger] messages[k]).input is Command)
}

/// The left ticks of a message: those of its snapshot, 0 for any other
/// message.
pub open spec fn left_of(message: Message) -> int {
    match message.input {
        Input::Encoders { encoders } => encoders.left as int,
        _ => 0,
    }
}

/// The left ticks of all the snapshots of a list together.
pub open spec fn left_ticks(messages: Seq<Message>) -> int
    decreases messages.len(),
{
    if messages.len() == 0 {
        0
    } else {
        left_ticks(messages.drop_last()) + left_of(messages.last())
    }
}

/// The number of snapshots of a list up to which the left ticks stay below
/// `budget`: the snapshots that a move with that many ticks to go takes up
/// before the one that ends it.
pub open spec fn cycles_before(messages: Seq<Message>, budget: int) -> nat
    decreases messages.len(),
{
    if messages.len() == 0 {
        0
    } else {
        cycles_before(messages.drop_last(), budget) + if left_ticks(messages) < budget {
            1nat
        } else {
            0nat
        }
    }
}

/// Counting the stops of two lists of requests in a row is counting each
/// and adding up.
pub proof fn lemma_stop_count_adds(a: Seq<BridgeCall>, b: Seq<BridgeCall>)
    ensures
        stop_count(a + b) == stop_count(a) + stop_count(b),
    decreases b.len(),
{
    if b.len() == 0 {
        assert(a + b =~= a);
    } else {
        assert((a + b).drop_last() =~= a + b.drop_last());
        assert((a + b).last() == b.last());
        lemma_stop_count_adds(a, b.drop_last());
    }
}

/// Taking up two lists of messages in a row is taking up the first and
/// then, from the state reached, the second.
pub proof fn lemma_runs_compose(s: MoveState, a: Seq<Message>, b: Seq<Message>)
    ensures
        state_after(s, a + b) == state_after(state_after(s, a), b),
        calls_during(s, a + b) == calls_during(s, a) + calls_during(state_after(s, a), b),
        events_during(s, a + b) == events_during(s, a) + events_during(state_after(s, a), b),
    decreases b.len(),
{
    if b.len() == 0 {
        assert(a + b =~= a);
        assert(calls_during(s, a) + Seq::<BridgeCall>::empty() =~= calls_during(s, a));
        assert(events_during(s, a) + Seq::<TimedEventView>::empty() =~= events_during(s, a));
    } else {
        assert((a + b).drop_last() =~= a + b.drop_last());
        assert((a + b).last() == b.last());
        lemma_runs_compose(s, a, b.drop_last());
        let mid = state_after(s, a);
        let last = step(state_after(mid, b.drop_last()), b.last());
        assert(calls_during(s, a + b) =~= calls_during(s, a) + calls_during(mid, b));
        assert(events_during(s, a + b) =~= events_during(s, a) + events_during(mid, b));
    }
}

/// An idle controller that gets encoder snapshots and heartbeats only
/// stays as it is, asks nothing of the motor bridge, yields no hardware
/// write and reports no event.
pub proof fn lemma_idle_controller_is_silent(s: MoveState, messages: Seq<Message>)
    requires
        !s.is_moving,
        no_commands(messages),
    ensures
        state_after(s, messages) == s,
        calls_during(s, messages) == Seq::<BridgeCall>::empty(),
        events_during(s, messages) == Seq::<TimedEventView>::empty(),
        forall|k: int|
            0 <= k < messages.len() ==> {
                &&& (#[trigger] outcome_at(s, messages, k)).calls == Seq::<BridgeCall>::empty()
                &&& outcome_at(s, messages, k).event is None
                &&& outcome_at(s, messages, k).state == s
            },
        forall|motor: Option<Motor>, k: int|
            0 <= k < messages.len() ==> (#[trigger] reaction_of(
                motor,
                outcome_at(s, messages, k),
            )).writes == Seq::<HardwareOp>::empty(),
    decreases messages.len(),
{
    if messages.len() > 0 {
        let front = messages.drop_last();
        assert(no_commands(front)) by {
            assert forall|k: int| 0 <= k < front.len() implies !((#[trigger] front[k]).input
                is Command) by {
                assert(front[k] == messages[k]);
            }
        }
        lemma_idle_controller_is_silent(s, front);
        assert(!(messages[messages.len() - 1].input is Command));
        assert(calls_during(s, messages) =~= Seq::<BridgeCall>::empty());
        assert forall|k: int| 0 <= k < messages.len() implies {
            &&& (#[trigger] outcome_at(s, messages, k)).calls == Seq::<BridgeCall>::empty()
            &&& outcome_at(s, messages, k).event is None
            &&& outcome_at(s, messages, k).state == s
        } by {
            let head = messages.take(k);
            assert(no_commands(head)) by {
                assert forall|j: int| 0 <= j < head.len() implies !((#[trigger] head[j]).input
                    is Command) by {
                    assert(head[j] == messages[j]);
                }
            }
            lemma_idle_controller_is_silent(s, head);
            assert(!(messages[k].input is Command));
            assert(outcome_at(s, messages, k).calls =~= Seq::<BridgeCall>::empty());
        }
        assert forall|motor: Option<Motor>, k: int| 0 <= k < messages.len() implies (
        #[trigger] reaction_of(motor, outcome_at(s, messages, k))).writes == Seq::<
            HardwareOp,
        >::empty() by {
            assert(outcome_at(s, messages, k).calls == Seq::<BridgeCall>::empty());
            assert(bridge_writes(motor, Seq::<BridgeCall>::empty()) =~= Seq::<HardwareOp>::empty());
        }
    }
}


/// Taking up a single message is one step of the controller.
pub proof fn lemma_single_message(s: MoveState, message: Message)
    ensures
        state_after(s, seq![message]) == step(s, message).state,
        calls_during(s, seq![message]) == step(s, message).calls,
        events_during(s, seq![message]) == match step(s, message).event {
            Some(event) => seq![event],
            None => Seq::<TimedEventView>::empty(),
        },
{
    let one = seq![message];
    let none = Seq::<Message>::empty();
    assert(one.drop_last() =~= none);
    assert(one.last() == message);
    assert(state_after(s, none) == s);
    assert(calls_during(s, none) == Seq::<BridgeCall>::empty());
    assert(events_during(s, none) == Seq::<TimedEventView>::empty());
    assert(calls_during(s, one) =~= step(s, message).calls);
    match step(s, message).event {
        Some(event) => {
            assert(events_during(s, one) =~= seq![event]);
        },
        None => {},
    }
}

/// A list that holds nothing but one `Stop` holds one stop.
proof fn lemma_single_stop()
    ensures
        stop_count(seq![BridgeCall::Stop]) == 1,
{
    let calls = seq![BridgeCall::Stop];
    assert(calls.drop_last() =~= Seq::<BridgeCall>::empty());
    assert(stop_count(calls.drop_last()) == 0);
    assert(calls.last() is Stop);
}

/// A list of requests none of which is a `Stop` holds no stop.
proof fn lemma_no_stop(calls: Seq<BridgeCall>)
    requires
        forall|k: int| 0 <= k < calls.len() ==> !((#[trigger] calls[k]) is Stop),
    ensures
        stop_count(calls) == 0,
    decreases calls.len(),
{
    if calls.len() > 0 {
        let front = calls.drop_last();
        assert forall|k: int| 0 <= k < front.len() implies !((#[trigger] front[k]) is Stop) by {
            assert(front[k] == calls[k]);
        }
        lemma_no_stop(front);
        assert(!(calls[calls.len() - 1] is Stop));
    }
}

/// The left ticks of a list of messages are not negative.
proof fn lemma_left_ticks_not_negative(messages: Seq<Message>)
    ensures
        left_ticks(messages) >= 0,
    decreases messages.len(),
{
    if messages.len() > 0 {
        lemma_left_ticks_not_negative(messages.drop_last());
    }
}

/// Tells whether an event is the report of a move with the gains of the
/// state `s` and `cycles` records of telemetry.
pub open spec fn is_report_of(event: TimedEventView, s: MoveState, cycles: nat) -> bool {
    match event.event {
        EventView::MotorRunStats { stats, p, i, d } => {
            &&& stats.len() == cycles
            &&& p == s.pid.p
            &&& i == s.pid.i
            &&& d == s.pid.d
        },
        _ => false,
    }
}

/// A move in progress that gets encoder snapshots only goes on for as long
/// as the left ticks of the snapshots stay below what is left of its tick
/// budget, without a stop or a report and with one more record of
/// telemetry for each snapshot.  The snapshot that uses the budget up ends
/// it: from then on, whatever follows, the run holds exactly one stop and
/// exactly one report, and the report holds the telemetry that the move
/// had at first and one record for each snapshot before the one that ended
/// it.
pub proof fn lemma_move_runs_its_course(s: MoveState, messages: Seq<Message>)
    requires
        s.wf(),
        s.is_moving,
        all_snapshots(messages),
    ensures
        left_ticks(messages) < s.ticks_to_move - s.ticks_moved ==> {
            &&& state_after(s, messages).wf()
            &&& state_after(s, messages).is_moving
            &&& state_after(s, messages).ticks_moved == s.ticks_moved + left_ticks(messages)
            &&& state_after(s, messages).ticks_to_move == s.ticks_to_move
            &&& state_after(s, messages).pid == s.pid
            &&& state_after(s, messages).motor_stats.len() == s.motor_stats.len() + messages.len()
            &&& cycles_before(messages, s.ticks_to_move - s.ticks_moved) == messages.len()
            &&& stop_count(calls_during(s, messages)) == 0
            &&& events_during(s, messages).len() == 0
        },
        left_ticks(messages) >= s.ticks_to_move - s.ticks_moved ==> {
            &&& state_after(s, messages).wf()
            &&& !state_after(s, messages).is_moving
            &&& stop_count(calls_during(s, messages)) == 1
            &&& events_during(s, messages).len() == 1
            &&& is_report_of(
                events_during(s, messages)[0],
                s,
                s.motor_stats.len() + cycles_before(messages, s.ticks_to_move - s.ticks_moved),
            )
        },
    decreases messages.len(),
{
    let budget = s.ticks_to_move - s.ticks_moved;
    if messages.len() > 0 {
        let front = messages.drop_last();
        let last = messages.last();
        assert(all_snapshots(front)) by {
            assert forall|k: int| 0 <= k < front.len() implies is_snapshot(#[trigger] front[k]) by {
                assert(front[k] == messages[k]);
            }
        }
        assert(is_snapshot(messages[messages.len() - 1]));
        lemma_move_runs_its_course(s, front);
        lemma_left_ticks_not_negative(front);
        let mid = state_after(s, front);
        let outcome = step(mid, last);
        crate::motor_handler::lemma_step_keeps_invariant(mid, last);
        lemma_stop_count_adds(calls_during(s, front), outcome.calls);
        if left_ticks(front) < budget {
            if left_ticks(messages) >= budget {
                assert(outcome.calls =~= seq![BridgeCall::Stop]);
                lemma_single_stop();
                assert(events_during(s, messages) =~= seq![outcome.event->0]);
            } else {
                lemma_no_stop(outcome.calls);
            }
        } else {
            assert(outcome.calls =~= Seq::<BridgeCall>::empty());
            assert(stop_count(outcome.calls) == 0);
        }
    }
}

/// A `Move` command followed by encoder snapshots whose left ticks add up
/// to the commanded ticks or more brings about exactly one stop of the
/// motors and exactly one report.  The report holds the gains of the
/// command and one record of telemetry for each snapshot before the one
/// that ended the move, and the controller is idle at the end.  This holds
/// whatever state the controller was in before the command.
pub proof fn lemma_move_ends_exactly_once(s: MoveState, start: Message, snapshots: Seq<Message>)
    requires
        start.wf(),
        start.input matches Input::Command { command } && command is Move,
        all_snapshots(snapshots),
        left_ticks(snapshots) >= start.input->command->ticks,
    ensures
        !state_after(s, seq![start] + snapshots).is_moving,
        stop_count(calls_during(s, seq![start] + snapshots)) == 1,
        events_during(s, seq![start] + snapshots).len() == 1,
        is_report_of(
            events_during(s, seq![start] + snapshots)[0],
            step(s, start).state,
            cycles_before(snapshots, start.input->command->ticks as int),
        ),
        step(s, start).state.pid == (crate::regulator::Pid {
            p: start.input->command->p,
            i: start.input->command->i,
            d: start.input->command->d,
        }),
{
    let first = seq![start];
    let begun = step(s, start).state;
    lemma_single_message(s, start);
    crate::motor_handler::lemma_step_keeps_invariant(MoveState::idle(), start);
    lemma_no_stop(step(s, start).calls);
    lemma_runs_compose(s, first, snapshots);
    lemma_move_runs_its_course(begun, snapshots);
    lemma_stop_count_adds(calls_during(s, first), calls_during(begun, snapshots));
    assert(events_during(s, first + snapshots) =~= events_during(begun, snapshots));
}

/// A `Move` command replaces the move in progress for good: the state
/// that it leaves holds no telemetry and nothing else of the state before
/// it, so that everything the controller does from the command on is the
/// same whatever went before.
pub proof fn lemma_move_replaces_everything(
    one: MoveState,
    other: MoveState,
    start: Message,
    rest: Seq<Message>,
)
    requires
        start.input matches Input::Command { command } && command is Move,
    ensures
        step(one, start).state.is_moving,
        step(one, start).state.motor_stats == Seq::<crate::event::MotorRunStat>::empty(),
        step(one, start) == step(other, start),
        state_after(one, seq![start] + rest) == state_after(other, seq![start] + rest),
        calls_during(one, seq![start] + rest) == calls_during(other, seq![start] + rest),
        events_during(one, seq![start] + rest) == events_during(other, seq![start] + rest),
{
    let first = seq![start];
    lemma_single_message(one, start);
    lemma_single_message(other, start);
    lemma_runs_compose(one, first, rest);
    lemma_runs_compose(other, first, rest);
}

} // verus!
