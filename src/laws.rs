use vstd::prelude::*;
use crate::transition::{applied, effect, last_request, Call, StackError, TransKind};

verus! {

/// The transition that wins in a tick is the last one other than `Stay`: when
/// every callback returned `Stay` it is `Stay`; otherwise some callback
/// returned it, and every callback after that one returned `Stay`.
pub proof fn last_request_is_last_non_stay(kinds: Seq<TransKind>)
    ensures
        (forall|i: int| 0 <= i < kinds.len() ==> kinds[i] == TransKind::Stay) ==> last_request(
            kinds,
        ) == TransKind::Stay,
        last_request(kinds) != TransKind::Stay ==> exists|i: int|
            0 <= i < kinds.len() && kinds[i] == last_request(kinds) && forall|j: int|
                i < j < kinds.len() ==> kinds[j] == TransKind::Stay,
    decreases kinds.len(),
{
    if kinds.len() > 0 {
        let rest = kinds.drop_last();
        last_request_is_last_non_stay(rest);
        if kinds.last() == TransKind::Stay {
            assert(forall|i: int| 0 <= i < rest.len() ==> rest[i] == kinds[i]);
            if last_request(kinds) != TransKind::Stay {
                let i = choose|i: int|
                    0 <= i < rest.len() && rest[i] == last_request(rest) && forall|j: int|
                        i < j < rest.len() ==> rest[j] == TransKind::Stay;
                assert(forall|j: int| i < j < kinds.len() ==> kinds[j] == TransKind::Stay);
            }
        } else {
            assert(kinds[kinds.len() - 1] == last_request(kinds));
        }
    }
}

/// A `Push` followed by a `Pop` gives back the stack as it was, the state
/// that was active before the push included: a dormant state is not touched.
pub proof fn push_then_pop_restores<S>(
    s0: Seq<S>,
    s1: Seq<S>,
    s2: Seq<S>,
    c1: Seq<Call>,
    c2: Seq<Call>,
    e1: Option<StackError>,
    e2: Option<StackError>,
)
    requires
        s0.len() > 0,
        applied(s0, s1, TransKind::Push, c1, e1),
        applied(s1, s2, TransKind::Pop, c2, e2),
    ensures
        s2 == s0,
        e2 is None,
{
    assert(s1.subrange(0, s1.len() - 1) == s1.subrange(0, s0.len() as int));
}

/// Two stacks of the same height that agree beneath their active states.
pub open spec fn same_below<S>(a: Seq<S>, b: Seq<S>) -> bool {
    &&& a.len() == b.len()
    &&& a.len() > 0
    &&& a.subrange(0, a.len() - 1) == b.subrange(0, b.len() - 1)
}

/// A tick that applies `Stay` leaves every state beneath the active one as it
/// was.
pub proof fn stay_keeps_below<S>(
    s0: Seq<S>,
    s1: Seq<S>,
    calls: Seq<Call>,
    err: Option<StackError>,
)
    requires
        s0.len() > 0,
        effect(s0, s1, TransKind::Stay, calls, err),
    ensures
        same_below(s0, s1),
{
}

proof fn chain_keeps_below<S>(chain: Seq<Seq<S>>, k: int)
    requires
        0 <= k < chain.len(),
        forall|i: int| 0 <= i < chain.len() - 1 ==> same_below(#[trigger] chain[i], chain[i + 1]),
        chain[0].len() > 0,
    ensures
        same_below(chain[0], chain[k]),
    decreases k,
{
    if k > 0 {
        chain_keeps_below(chain, k - 1);
        assert(same_below(chain[k - 1], chain[k]));
    }
}

/// States that go dormant when a state is pushed over them come back as they
/// were when it is popped, however many ticks ran in between with the stack
/// unchanged beneath its active state (`chain`, from the stack after the push
/// to the one that the pop applies to).
pub proof fn dormant_states_survive_ticks<S>(
    s0: Seq<S>,
    chain: Seq<Seq<S>>,
    s2: Seq<S>,
    c1: Seq<Call>,
    c2: Seq<Call>,
    e1: Option<StackError>,
    e2: Option<StackError>,
)
    requires
        s0.len() > 0,
        chain.len() > 0,
        effect(s0, chain[0], TransKind::Push, c1, e1),
        forall|i: int| 0 <= i < chain.len() - 1 ==> same_below(#[trigger] chain[i], chain[i + 1]),
        effect(chain.last(), s2, TransKind::Pop, c2, e2),
    ensures
        s2 == chain[0].subrange(0, s0.len() as int),
        s2.subrange(0, s0.len() - 1) == s0.subrange(0, s0.len() - 1),
        e2 is None,
{
    chain_keeps_below(chain, chain.len() - 1);
    assert(s2.subrange(0, s0.len() - 1) == chain[0].subrange(0, s0.len() as int).subrange(
        0,
        s0.len() - 1,
    ));
    assert(chain[0].subrange(0, s0.len() as int).subrange(0, s0.len() - 1) == chain[0].subrange(
        0,
        s0.len() - 1,
    ));
}

/// A `Switch` on a stack of one state leaves one state, after stopping the
/// old state and then starting the new one.
pub proof fn switch_stops_then_starts<S>(
    s0: Seq<S>,
    s1: Seq<S>,
    calls: Seq<Call>,
    err: Option<StackError>,
)
    requires
        s0.len() == 1,
        effect(s0, s1, TransKind::Switch, calls, err),
    ensures
        s1.len() == 1,
        calls == seq![Call::Stop(0), Call::Start(0)],
        err is None,
{
}

/// A `Quit` on a stack of two states stops the active one, then the one
/// beneath it, and leaves the stack empty, so that no later tick calls
/// `update` again.
pub proof fn quit_stops_innermost_first<S>(
    s0: Seq<S>,
    s1: Seq<S>,
    calls: Seq<Call>,
    err: Option<StackError>,
)
    requires
        s0.len() == 2,
        effect(s0, s1, TransKind::Quit, calls, err),
    ensures
        s1.len() == 0,
        calls == seq![Call::Stop(1), Call::Stop(0)],
        err is None,
{
    assert(calls =~= seq![Call::Stop(1), Call::Stop(0)]);
}

} // verus!
