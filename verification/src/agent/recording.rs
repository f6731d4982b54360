//! What a recorder receives of a task chain.
use vstd::prelude::*;
use crate::agent::connector::{spec_mirror, spec_stream, ActivityConnector, Delivery};
use crate::agent::laws::lemma_task_chain_order;
use crate::agent::scheduler::{is_step_or_ready, Emission, Phase, Scheduler};
use crate::ids::AgentId;
use crate::signals::Signal;

verus! {

/// What the scheduler's log says of a signal, if the log speaks of it.
pub open spec fn spec_emission(signal: Signal) -> Option<Emission> {
    match signal {
        Signal::TaskChainStart(_) => Some(Emission::TaskChainStart),
        Signal::TaskChainEnd(_) => Some(Emission::TaskChainEnd),
        Signal::Step((id, _)) => Some(Emission::Step(id)),
        Signal::Ready((id, _)) => Some(Emission::Ready(id)),
        _ => None,
    }
}

/// The deliveries that the connector makes for one signal of a task chain: a
/// step goes to its activity and to every recorder, anything else to every
/// recorder only.
pub open spec fn spec_deliveries(c: ActivityConnector, signal: Signal) -> Seq<Delivery> {
    if signal is Step {
        c.spec_trigger(signal)
    } else {
        spec_mirror(signal, c.recorders@)
    }
}

/// The deliveries that the connector makes for a run of signals, one signal
/// after the other.
pub open spec fn spec_all_deliveries(c: ActivityConnector, signals: Seq<Signal>) -> Seq<Delivery>
    decreases signals.len(),
{
    if signals.len() == 0 {
        Seq::empty()
    } else {
        spec_all_deliveries(c, signals.drop_last()) + spec_deliveries(c, signals.last())
    }
}

/// What an agent receives of two runs of deliveries is what it receives of
/// the first, followed by what it receives of the second.
pub proof fn lemma_stream_concat(a: Seq<Delivery>, b: Seq<Delivery>, r: AgentId)
    ensures
        spec_stream(a + b, r) == spec_stream(a, r) + spec_stream(b, r),
    decreases b.len(),
{
    if b.len() == 0 {
        assert(a + b =~= a);
        assert(spec_stream(a, r) + spec_stream(b, r) =~= spec_stream(a, r));
    } else {
        assert((a + b).drop_last() =~= a + b.drop_last());
        assert((a + b).last() == b.last());
        lemma_stream_concat(a, b.drop_last(), r);
        let rest = spec_stream(a, r) + spec_stream(b.drop_last(), r);
        match b.last() {
            Delivery::Remote((x, s)) => {
                if x == r {
                    assert(rest.push(s) =~= spec_stream(a, r) + spec_stream(b.drop_last(), r).push(s));
                }
            },
            Delivery::Record((x, s)) => {
                if x == r {
                    assert(rest.push(s) =~= spec_stream(a, r) + spec_stream(b.drop_last(), r).push(s));
                }
            },
            Delivery::Local(_) => {},
        }
    }
}

/// Of a signal sent to each of a list of recorders, a recorder of the list
/// receives the signal once, any other agent nothing.
pub proof fn lemma_stream_of_mirror(signal: Signal, agents: Seq<AgentId>, r: AgentId)
    requires
        agents.no_duplicates(),
    ensures
        agents.contains(r) ==> spec_stream(spec_mirror(signal, agents), r) == seq![signal],
        !agents.contains(r) ==> spec_stream(spec_mirror(signal, agents), r) == Seq::<
            Signal,
        >::empty(),
    decreases agents.len(),
{
    let b = spec_mirror(signal, agents);
    if agents.len() > 0 {
        let front = agents.drop_last();
        assert(b.drop_last() =~= spec_mirror(signal, front));
        assert(b.last() == Delivery::Record((agents.last(), signal)));
        lemma_stream_of_mirror(signal, front, r);
        if agents.last() == r {
            assert(!front.contains(r)) by {
                if front.contains(r) {
                    let w = choose|w: int| 0 <= w < front.len() && front[w] == r;
                    assert(agents[w] == agents[agents.len() - 1]);
                }
            }
            assert(agents.contains(r));
            assert(Seq::<Signal>::empty().push(signal) =~= seq![signal]);
        } else {
            if agents.contains(r) {
                let w = choose|w: int| 0 <= w < agents.len() && agents[w] == r;
                assert(front[w] == r);
            }
            if front.contains(r) {
                let w = choose|w: int| 0 <= w < front.len() && front[w] == r;
                assert(agents[w] == r);
            }
        }
    }
}

/// Of the deliveries for one signal of a task chain a recorder receives the
/// signal, once. For a step this asks that the recorder is not itself the
/// agent that runs the stepped activity.
pub proof fn lemma_stream_of_signal(c: ActivityConnector, signal: Signal, r: AgentId)
    requires
        c.wf(),
        c.recorders@.contains(r),
        signal is Step ==> c.spec_knows(signal.spec_activity_id()->Some_0) && c.spec_assignment(
            signal.spec_activity_id()->Some_0,
        ).agent != r,
    ensures
        spec_stream(spec_deliveries(c, signal), r) == seq![signal],
{
    lemma_stream_of_mirror(signal, c.recorders@, r);
    if signal is Step {
        let head = seq![c.spec_route(signal)];
        lemma_stream_concat(head, spec_mirror(signal, c.recorders@), r);
        assert(head.drop_last() =~= Seq::<Delivery>::empty());
        assert(spec_stream(head.drop_last(), r) =~= Seq::<Signal>::empty());
        assert(head.last() == c.spec_route(signal));
        let a = c.spec_assignment(signal.spec_activity_id()->Some_0);
        assert(a.agent != r);
        assert(spec_stream(head, r) =~= Seq::<Signal>::empty());
        assert(Seq::<Signal>::empty() + seq![signal] =~= seq![signal]);
    }
}

/// A recorder receives the signals of a task chain as the scheduler emits
/// them: each signal once, in the order of emission.
pub proof fn lemma_recorder_stream(c: ActivityConnector, signals: Seq<Signal>, r: AgentId)
    requires
        c.wf(),
        c.recorders@.contains(r),
        forall|k: int|
            0 <= k < signals.len() && #[trigger] signals[k] is Step ==> c.spec_knows(
                signals[k].spec_activity_id()->Some_0,
            ) && c.spec_assignment(signals[k].spec_activity_id()->Some_0).agent != r,
    ensures
        spec_stream(spec_all_deliveries(c, signals), r) == signals,
    decreases signals.len(),
{
    if signals.len() == 0 {
        assert(spec_stream(spec_all_deliveries(c, signals), r) =~= signals);
    } else {
        let front = signals.drop_last();
        assert forall|k: int| 0 <= k < front.len() && #[trigger] front[k] is Step implies c.spec_knows(
            front[k].spec_activity_id()->Some_0,
        ) && c.spec_assignment(front[k].spec_activity_id()->Some_0).agent != r by {
            assert(front[k] == signals[k]);
        }
        lemma_recorder_stream(c, front, r);
        assert(signals[signals.len() - 1] == signals.last());
        lemma_stream_of_signal(c, signals.last(), r);
        lemma_stream_concat(spec_all_deliveries(c, front), spec_deliveries(c, signals.last()), r);
        assert(front + seq![signals.last()] =~= signals);
    }
}

/// The recording of a task chain: where the signals of a task chain that has
/// ended are delivered as the connector says, each recorder receives them as
/// one sequence that starts with the start of the chain, ends with its end,
/// and holds between the two every step and every ready report of the chain,
/// in the order in which the scheduler emitted and observed them.
pub proof fn lemma_recorder_sees_task_chain(
    s: Scheduler,
    c: ActivityConnector,
    signals: Seq<Signal>,
    r: AgentId,
)
    requires
        s.inv(),
        s.phase == Phase::Flushing,
        c.wf(),
        c.recorders@.contains(r),
        signals.len() == s.log@.len(),
        forall|k: int|
            0 <= k < signals.len() ==> spec_emission(#[trigger] signals[k]) == Some(s.log@[k]),
        forall|k: int|
            0 <= k < signals.len() && #[trigger] signals[k] is Step ==> c.spec_knows(
                signals[k].spec_activity_id()->Some_0,
            ) && c.spec_assignment(signals[k].spec_activity_id()->Some_0).agent != r,
    ensures
        ({
            let stream = spec_stream(spec_all_deliveries(c, signals), r);
            &&& stream == signals
            &&& stream.len() >= 2
            &&& stream.first() is TaskChainStart
            &&& stream.last() is TaskChainEnd
            &&& forall|k: int|
                0 < k < stream.len() - 1 ==> (#[trigger] stream[k]) is Step || stream[k] is Ready
        }),
{
    lemma_recorder_stream(c, signals, r);
    lemma_task_chain_order(s);
    assert(spec_emission(signals[0]) == Some(s.log@[0]));
    assert(spec_emission(signals[signals.len() - 1]) == Some(s.log@[signals.len() - 1]));
    assert forall|k: int| 0 < k < signals.len() - 1 implies (#[trigger] signals[k]) is Step
        || signals[k] is Ready by {
        assert(spec_emission(signals[k]) == Some(s.log@[k]));
        assert(is_step_or_ready(s.log@[k]));
    }
}

} // verus!
