//! Properties of the mixing loop over whole sequences of channel polls.
use vstd::prelude::*;

use crate::mixer::{
    fresh_view, is_stop, microphone_part, paired, padded, step_view, system_part, ActionView,
    MixerView, ProcMsg, FULL_SCALE,
};
use crate::normalize::div_trunc;

verus! {

/// One iteration's input: the poll result of the system channel and of the microphone channel.
pub type Poll = (Option<ProcMsg>, Option<ProcMsg>);

pub open spec fn poll_stops(p: Poll) -> bool {
    is_stop(p.0) || is_stop(p.1)
}

/// Whether some poll carries `Stop`.
pub open spec fn has_stop(polls: Seq<Poll>) -> bool
    decreases polls.len(),
{
    if polls.len() == 0 {
        false
    } else {
        poll_stops(polls[0]) || has_stop(polls.drop_first())
    }
}

/// Every system sample delivered up to and including the first poll that carries `Stop`.
pub open spec fn system_total(polls: Seq<Poll>) -> Seq<i32>
    decreases polls.len(),
{
    if polls.len() == 0 {
        Seq::empty()
    } else {
        let here = system_part(polls[0].0) + system_part(polls[0].1);
        if poll_stops(polls[0]) {
            here
        } else {
            here + system_total(polls.drop_first())
        }
    }
}

/// Every microphone sample delivered up to and including the first poll that carries `Stop`.
pub open spec fn microphone_total(polls: Seq<Poll>) -> Seq<i32>
    decreases polls.len(),
{
    if polls.len() == 0 {
        Seq::empty()
    } else {
        let here = microphone_part(polls[0].0) + microphone_part(polls[0].1);
        if poll_stops(polls[0]) {
            here
        } else {
            here + microphone_total(polls.drop_first())
        }
    }
}

/// The mixing loop over a sequence of polls: steps until the polls run out or the mixer
/// has finished; gives the final history and the actions taken.
pub open spec fn run(v: MixerView, polls: Seq<Poll>) -> (MixerView, Seq<ActionView>)
    decreases polls.len(),
{
    if polls.len() == 0 || v.finished {
        (v, Seq::empty())
    } else {
        let s = step_view(v, polls[0].0, polls[0].1);
        let rest = run(s.0, polls.drop_first());
        (rest.0, seq![s.1] + rest.1)
    }
}

/// The samples an action hands to the sink.
pub open spec fn payload(a: ActionView) -> Seq<i16> {
    match a {
        ActionView::Emit(s) => s,
        ActionView::Finish(s) => s,
        _ => Seq::empty(),
    }
}

/// Everything the sink receives over a sequence of actions, in order.
pub open spec fn output_of(acts: Seq<ActionView>) -> Seq<i16>
    decreases acts.len(),
{
    if acts.len() == 0 {
        Seq::empty()
    } else {
        payload(acts[0]) + output_of(acts.drop_first())
    }
}

/// How many of the actions finalize the sink.
pub open spec fn finish_count(acts: Seq<ActionView>) -> nat
    decreases acts.len(),
{
    if acts.len() == 0 {
        0
    } else {
        (if acts[0] is Finish {
            1nat
        } else {
            0nat
        }) + finish_count(acts.drop_first())
    }
}

proof fn lemma_paired_prefix(s0: Seq<i32>, m0: Seq<i32>, s1: Seq<i32>, m1: Seq<i32>)
    requires
        s0.is_prefix_of(s1),
        m0.is_prefix_of(m1),
    ensures
        paired(s0, m0).is_prefix_of(paired(s1, m1)),
        paired(s0, m0).is_prefix_of(padded(s1, m1)),
{
}

proof fn lemma_step(v: MixerView, p: Poll)
    requires
        !v.finished,
        v.emitted == paired(v.system, v.microphone),
    ensures
        step_view(v, p.0, p.1).0.system == v.system + (system_part(p.0) + system_part(p.1)),
        step_view(v, p.0, p.1).0.microphone == v.microphone + (microphone_part(p.0)
            + microphone_part(p.1)),
        step_view(v, p.0, p.1).0.finished == poll_stops(p),
        step_view(v, p.0, p.1).1 is Finish <==> poll_stops(p),
        v.emitted + payload(step_view(v, p.0, p.1).1) == step_view(v, p.0, p.1).0.emitted,
        poll_stops(p) ==> step_view(v, p.0, p.1).0.emitted == padded(
            step_view(v, p.0, p.1).0.system,
            step_view(v, p.0, p.1).0.microphone,
        ),
        !poll_stops(p) ==> step_view(v, p.0, p.1).0.emitted == paired(
            step_view(v, p.0, p.1).0.system,
            step_view(v, p.0, p.1).0.microphone,
        ),
{
    reveal(step_view);
    let s = step_view(v, p.0, p.1);
    let v1 = s.0;
    let e = v.emitted.len() as int;
    assert(v1.system =~= v.system + (system_part(p.0) + system_part(p.1)));
    assert(v1.microphone =~= v.microphone + (microphone_part(p.0) + microphone_part(p.1)));
    lemma_paired_prefix(v.system, v.microphone, v1.system, v1.microphone);
    assert(payload(s.1) =~= v1.emitted.skip(e));
    assert(v.emitted + payload(s.1) =~= v1.emitted);
}

proof fn lemma_run(v: MixerView, polls: Seq<Poll>)
    requires
        !v.finished,
        v.emitted == paired(v.system, v.microphone),
    ensures
        run(v, polls).0.system == v.system + system_total(polls),
        run(v, polls).0.microphone == v.microphone + microphone_total(polls),
        v.emitted + output_of(run(v, polls).1) == run(v, polls).0.emitted,
        run(v, polls).0.finished == has_stop(polls),
        run(v, polls).0.finished ==> run(v, polls).0.emitted == padded(
            run(v, polls).0.system,
            run(v, polls).0.microphone,
        ),
        !run(v, polls).0.finished ==> run(v, polls).0.emitted == paired(
            run(v, polls).0.system,
            run(v, polls).0.microphone,
        ),
        finish_count(run(v, polls).1) == (if has_stop(polls) {
            1nat
        } else {
            0nat
        }),
    decreases polls.len(),
{
    if polls.len() == 0 {
        assert(v.system + system_total(polls) =~= v.system);
        assert(v.microphone + microphone_total(polls) =~= v.microphone);
        assert(v.emitted + output_of(run(v, polls).1) =~= v.emitted);
    } else {
        let p = polls[0];
        let rest = polls.drop_first();
        let s = step_view(v, p.0, p.1);
        let v1 = s.0;
        lemma_step(v, p);
        let acts = run(v, polls).1;
        if poll_stops(p) {
            assert(run(v1, rest).1 =~= Seq::<ActionView>::empty());
            assert(acts =~= seq![s.1]);
            assert(acts.drop_first() =~= Seq::<ActionView>::empty());
            assert(output_of(acts) =~= payload(s.1));
            assert(v.emitted + output_of(acts) =~= v1.emitted);
        } else {
            lemma_run(v1, rest);
            assert(acts =~= seq![s.1] + run(v1, rest).1);
            assert(acts.drop_first() =~= run(v1, rest).1);
            assert(v.emitted + output_of(acts) =~= v1.emitted + output_of(run(v1, rest).1));
            assert(v.system + system_total(polls) =~= v1.system + system_total(rest));
            assert(v.microphone + microphone_total(polls) =~= v1.microphone + microphone_total(
                rest,
            ));
        }
    }
}

/// Before the drain, the sink has received exactly the positional pairing of every system
/// sample with every microphone sample delivered so far, in arrival order: as many samples
/// as the shorter stream holds, sample `i` mixing the `i`-th sample of each source.
pub proof fn lemma_output_before_drain(polls: Seq<Poll>)
    requires
        !has_stop(polls),
    ensures
        output_of(run(fresh_view(), polls).1) == paired(system_total(polls), microphone_total(polls)),
        output_of(run(fresh_view(), polls).1).len() == if system_total(polls).len()
            <= microphone_total(polls).len() {
            system_total(polls).len()
        } else {
            microphone_total(polls).len()
        },
{
    let v = fresh_view();
    assert(paired(v.system, v.microphone) =~= v.emitted);
    lemma_run(v, polls);
    assert(v.system + system_total(polls) =~= system_total(polls));
    assert(v.microphone + microphone_total(polls) =~= microphone_total(polls));
    assert(v.emitted + output_of(run(v, polls).1) =~= output_of(run(v, polls).1));
}

/// Once a `Stop` has been received, the sink has received every delivered sample of both
/// sources, paired by position in arrival order with the shorter stream padded by silence:
/// as many samples as the longer stream holds.
pub proof fn lemma_output_after_drain(polls: Seq<Poll>)
    requires
        has_stop(polls),
    ensures
        output_of(run(fresh_view(), polls).1) == padded(system_total(polls), microphone_total(polls)),
        output_of(run(fresh_view(), polls).1).len() == if system_total(polls).len()
            >= microphone_total(polls).len() {
            system_total(polls).len()
        } else {
            microphone_total(polls).len()
        },
{
    let v = fresh_view();
    assert(paired(v.system, v.microphone) =~= v.emitted);
    lemma_run(v, polls);
    assert(v.system + system_total(polls) =~= system_total(polls));
    assert(v.microphone + microphone_total(polls) =~= microphone_total(polls));
    assert(v.emitted + output_of(run(v, polls).1) =~= output_of(run(v, polls).1));
}

/// Whatever the timing of the two sources, the loop finalizes the sink exactly once when a
/// `Stop` arrives and never before.
pub proof fn lemma_finish_exactly_once(polls: Seq<Poll>)
    ensures
        run(fresh_view(), polls).0.finished == has_stop(polls),
        finish_count(run(fresh_view(), polls).1) == (if has_stop(polls) {
            1nat
        } else {
            0nat
        }),
{
    let v = fresh_view();
    assert(paired(v.system, v.microphone) =~= v.emitted);
    lemma_run(v, polls);
}

/// When the microphone delivered nothing, each output sample is the system sample halved
/// (rounded toward zero), for system samples within full scale.
pub proof fn lemma_silent_microphone_halves(sys: Seq<i32>)
    requires
        forall|i: int| 0 <= i < sys.len() ==> -FULL_SCALE <= #[trigger] sys[i] <= FULL_SCALE,
    ensures
        padded(sys, Seq::empty()).len() == sys.len(),
        forall|i: int|
            0 <= i < sys.len() ==> #[trigger] padded(sys, Seq::empty())[i] as int == div_trunc(
                sys[i] as int,
                2,
            ),
{
}

/// When the system source delivered nothing, each output sample is the microphone sample
/// halved (rounded toward zero), for microphone samples within full scale.
pub proof fn lemma_silent_system_halves(mic: Seq<i32>)
    requires
        forall|i: int| 0 <= i < mic.len() ==> -FULL_SCALE <= #[trigger] mic[i] <= FULL_SCALE,
    ensures
        padded(Seq::empty(), mic).len() == mic.len(),
        forall|i: int|
            0 <= i < mic.len() ==> #[trigger] padded(Seq::empty(), mic)[i] as int == div_trunc(
                mic[i] as int,
                2,
            ),
{
}

} // verus!
