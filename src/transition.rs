use vstd::prelude::*;

verus! {

/// What a state asks of the state stack after one of its callbacks.
pub enum Trans<S> {
    /// Leave the stack as it is.
    Stay,
    /// Start the given state on top of the active one, which goes dormant.
    Push(S),
    /// Stop the active state and wake the one beneath it.
    Pop,
    /// Stop the active state and start the given one in its place.
    Switch(S),
    /// Stop every state, innermost first, and end the loop.
    Quit,
}

/// The variant of a `Trans`, without the state it may carry.
#[derive(Clone, Copy, Debug, PartialEq, Eq, Structural)]
pub enum TransKind {
    Stay,
    Push,
    Pop,
    Switch,
    Quit,
}

impl<S> Trans<S> {
    pub open spec fn kind_spec(&self) -> TransKind {
        match self {
            Trans::Stay => TransKind::Stay,
            Trans::Push(_) => TransKind::Push,
            Trans::Pop => TransKind::Pop,
            Trans::Switch(_) => TransKind::Switch,
            Trans::Quit => TransKind::Quit,
        }
    }

    pub fn kind(&self) -> (r: TransKind)
        ensures
            r == self.kind_spec(),
    {
        match self {
            Trans::Stay => TransKind::Stay,
            Trans::Push(_) => TransKind::Push,
            Trans::Pop => TransKind::Pop,
            Trans::Switch(_) => TransKind::Switch,
            Trans::Quit => TransKind::Quit,
        }
    }
}

/// The request that wins among transitions returned in order: the last one
/// that is not `Stay`, or `Stay` when all of them are.
pub open spec fn last_request(kinds: Seq<TransKind>) -> TransKind
    decreases kinds.len(),
{
    if kinds.len() == 0 {
        TransKind::Stay
    } else if kinds.last() != TransKind::Stay {
        kinds.last()
    } else {
        last_request(kinds.drop_last())
    }
}

/// A callback made on a state of the stack, named by its depth (0 is the
/// bottom of the stack) at the moment of the call.
#[derive(Clone, Copy, Debug, PartialEq, Eq, Structural)]
pub enum Call {
    /// `handle_event` on the active state, for the event at this index.
    Event(usize),
    /// `update` on the active state.
    Update,
    /// `on_start` on the state at this depth.
    Start(usize),
    /// `on_stop` on the state at this depth.
    Stop(usize),
}

/// Why a transition had to end the loop instead of doing what it asked.
#[derive(Clone, Copy, Debug, PartialEq, Eq, Structural)]
pub enum StackError {
    /// `Pop` would have left no state on the stack, or found none.
    EmptyStack,
}

/// The `on_stop` calls of a quit on a stack of `n` states: innermost first.
pub open spec fn quit_calls(n: nat) -> Seq<Call> {
    Seq::new(n, |i: int| Call::Stop((n - 1 - i) as usize))
}

/// The `handle_event` calls for `n` events, in arrival order, then `update`.
pub open spec fn dispatch_calls(n: nat) -> Seq<Call> {
    Seq::new(n, |i: int| Call::Event(i as usize)).push(Call::Update)
}

/// What applying a transition of kind `kind` does to a stack, seen from the
/// states beneath the active one: those are never touched, and the calls made
/// are exactly `calls`. The active state itself may have changed through its
/// own callbacks.
pub open spec fn effect<S>(
    before: Seq<S>,
    after: Seq<S>,
    kind: TransKind,
    calls: Seq<Call>,
    err: Option<StackError>,
) -> bool {
    let n = before.len();
    let below = before.subrange(0, n - 1);
    if n == 0 {
        after == before && calls == Seq::<Call>::empty() && err == if kind == TransKind::Pop {
            Some(StackError::EmptyStack)
        } else {
            None
        }
    } else {
        match kind {
            TransKind::Stay => after.len() == n && after.subrange(0, n - 1) == below && calls
                == Seq::<Call>::empty() && err is None,
            TransKind::Push => after.len() == n + 1 && after.subrange(0, n - 1) == below && calls
                == seq![Call::Start(n as usize)] && err is None,
            TransKind::Pop => if n >= 2 {
                after == below && calls == seq![Call::Stop((n - 1) as usize)] && err is None
            } else {
                after.len() == 0 && calls == seq![Call::Stop(0usize)] && err == Some(
                    StackError::EmptyStack,
                )
            },
            TransKind::Switch => after.len() == n && after.subrange(0, n - 1) == below && calls
                == seq![Call::Stop((n - 1) as usize), Call::Start((n - 1) as usize)] && err is None,
            TransKind::Quit => after.len() == 0 && calls == quit_calls(n) && err is None,
        }
    }
}

/// `effect`, where no callback ran on the active state beforehand: `Stay`
/// changes nothing, and `Push` keeps the whole stack beneath the new state.
pub open spec fn applied<S>(
    before: Seq<S>,
    after: Seq<S>,
    kind: TransKind,
    calls: Seq<Call>,
    err: Option<StackError>,
) -> bool {
    &&& effect(before, after, kind, calls, err)
    &&& kind == TransKind::Stay ==> after == before
    &&& kind == TransKind::Push && before.len() > 0 ==> after.subrange(0, before.len() as int)
        == before
}

} // verus!
