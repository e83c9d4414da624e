use vstd::prelude::*;
use crate::event::{forwarded, ui_input, StateEvent};
use crate::pipeline::{render_ops, Pipeline, RenderOp, Stage};
use crate::transition::{
    applied, dispatch_calls, effect, last_request, quit_calls, Call, StackError, Trans, TransKind,
};
use crate::ui::UiContext;

verus! {

/// An application screen: the callbacks that the application makes on the
/// states of its stack, each described by a spec function of the screen.
pub trait State: Sized {
    /// Whether `after` is what this state may become through `on_start`.
    spec fn started(&self, after: Self) -> bool;

    /// The kind of transition that this state asks for on `event`.
    spec fn reply(&self, event: StateEvent) -> TransKind;

    /// Whether `update`, on this state, may take the UI from `before` to
    /// `after` and return a transition of kind `reply`.
    spec fn updated(&self, before: UiContext, after: UiContext, reply: TransKind) -> bool;

    /// Called once, when the state is put on the stack.
    fn on_start(&mut self)
        ensures
            old(self).started(*final(self)),
    ;

    /// Called once, when the state is taken off the stack.
    fn on_stop(&mut self);

    /// Called on the active state for each event of a tick, in arrival order.
    fn handle_event(&mut self, event: &StateEvent) -> (r: Trans<Self>)
        ensures
            r.kind_spec() == old(self).reply(*event),
    ;

    /// Called on the active state once per tick, after its events. The state
    /// composes its UI through `ui`.
    fn update(&mut self, ui: &mut UiContext) -> (r: Trans<Self>)
        ensures
            old(self).updated(*old(ui), *final(ui), r.kind_spec()),
    ;
}

/// The UI as a tick hands it to `update`: the surface's readiness recorded, no
/// frame open or opened, nothing submitted or composed, and the raw input of
/// the tick's window events gathered after what was there before.
pub open spec fn prepared(before: UiContext, ready: bool, events: Seq<StateEvent>, ui: UiContext) -> bool {
    &&& ui.ready == ready
    &&& !ui.open
    &&& !ui.opened
    &&& ui.submitted is None
    &&& ui.commands@.len() == 0
    &&& ui.input@ == before.input@ + forwarded(events)
}

/// How the callbacks of one tick ran on the active state: `trace` holds the
/// state before each `handle_event` and, last, before `update`; each callback
/// returned what the state's spec functions say; `update` took the UI from
/// `pre` to `post`, and the UI left at the end of the tick is `post` unless
/// `update` left a frame open.
pub open spec fn callbacks_ran<S: State>(
    top: S,
    before: UiContext,
    ready: bool,
    events: Seq<StateEvent>,
    returned: Seq<TransKind>,
    trace: Seq<S>,
    pre: UiContext,
    post: UiContext,
    end: UiContext,
) -> bool {
    &&& trace.len() == events.len() + 1
    &&& trace[0] == top
    &&& forall|i: int| 0 <= i < events.len() ==> #[trigger] returned[i] == trace[i].reply(events[i])
    &&& prepared(before, ready, events, pre)
    &&& trace.last().updated(pre, post, returned.last())
    &&& !post.open ==> end == post
}

/// The UI work that reaches the pipeline in a tick: the number of composition
/// calls of the frame closed in it, if the surface was ready and a frame was
/// closed.
pub open spec fn ui_drawn(ui: UiContext, ready: bool) -> Option<usize> {
    if !ready {
        None
    } else {
        match ui.submitted {
            Some(d) => Some(d.commands@.len() as usize),
            None => None,
        }
    }
}

/// What happened in one tick.
pub struct TickReport {
    /// The callbacks made on the active state, in order: one `Event` per
    /// event, then `Update`.
    pub calls: Vec<Call>,
    /// The kind of transition that each of those callbacks returned.
    pub returned: Vec<TransKind>,
    /// The kind of transition applied at the end of the tick.
    pub applied: TransKind,
    /// The `on_start` and `on_stop` calls that applying it made, in order.
    pub hooks: Vec<Call>,
    /// Set when the transition could not be applied and ended the loop.
    pub error: Option<StackError>,
    /// What the render pipeline did, in order.
    pub render: Vec<RenderOp>,
}

/// The state stack, its UI context and its render pipeline. The loop runs
/// while the stack holds a state; the top one is active.
pub struct Application<S> {
    stack: Vec<S>,
    ui: UiContext,
    pipeline: Pipeline,
}

impl<S: State> Application<S> {
    /// The states on the stack, bottom first.
    pub closed spec fn states(&self) -> Seq<S> {
        self.stack@
    }

    /// The UI context.
    pub closed spec fn ui_state(&self) -> UiContext {
        self.ui
    }

    /// The stages of the render pipeline.
    pub closed spec fn stages(&self) -> Seq<Stage> {
        self.pipeline@
    }

    /// An application whose stack holds `initial`, started, with a fresh UI
    /// context.
    pub fn new(initial: S, pipeline: Pipeline) -> (r: Application<S>)
        ensures
            r.states().len() == 1,
            initial.started(r.states()[0]),
            r.stages() == pipeline@,
            !r.ui_state().ready,
            !r.ui_state().open,
            !r.ui_state().opened,
            r.ui_state().input@.len() == 0,
            r.ui_state().commands@.len() == 0,
            r.ui_state().submitted is None,
    {
        let mut first = initial;
        first.on_start();
        let mut stack: Vec<S> = Vec::new();
        stack.push(first);
        Application { stack, ui: UiContext::new(), pipeline }
    }

    /// The UI context.
    pub fn ui(&self) -> (r: &UiContext)
        ensures
            *r == self.ui_state(),
    {
        &self.ui
    }

    /// Whether the loop goes on: a state is on the stack.
    pub fn is_running(&self) -> (r: bool)
        ensures
            r == (self.states().len() > 0),
    {
        self.stack.len() > 0
    }

    /// The number of states on the stack.
    pub fn depth(&self) -> (r: usize)
        ensures
            r == self.states().len(),
    {
        self.stack.len()
    }

    /// The state at depth `i`, 0 being the bottom of the stack.
    pub fn state_at(&self, i: usize) -> (r: &S)
        requires
            i < self.states().len(),
        ensures
            *r == self.states()[i as int],
    {
        &self.stack[i]
    }

    /// Stops every state, innermost first, and empties the stack.
    fn stop_all(&mut self) -> (calls: Vec<Call>)
        ensures
            final(self).states().len() == 0,
            calls@ == quit_calls(old(self).states().len()),
            final(self).ui_state() == old(self).ui_state(),
            final(self).stages() == old(self).stages(),
    {
        let ghost n = self.stack@.len();
        let mut calls: Vec<Call> = Vec::new();
        while self.stack.len() > 0
            invariant
                self.stack@.len() <= n,
                calls@ == quit_calls(n).take(n - self.stack@.len()),
                self.ui == old(self).ui,
                self.pipeline == old(self).pipeline,
            decreases self.stack@.len(),
        {
            let k = self.stack.len();
            match self.stack.pop() {
                Some(mut top) => top.on_stop(),
                None => {},
            }
            calls.push(Call::Stop(k - 1));
            assert(quit_calls(n).take(n - (k - 1)) == quit_calls(n).take(n - k).push(
                Call::Stop((k - 1) as usize),
            ));
        }
        assert(quit_calls(n).take(n as int) == quit_calls(n));
        calls
    }

    /// Applies a transition to the stack and returns the `on_start` and
    /// `on_stop` calls made, in order. A `Pop` that would empty the stack ends
    /// the loop instead, with `EmptyStack`. A stopped application stays as it
    /// is; a `Pop` on it is reported as `EmptyStack` too.
    pub fn apply(&mut self, t: Trans<S>) -> (r: (Vec<Call>, Option<StackError>))
        ensures
            applied(old(self).states(), final(self).states(), t.kind_spec(), r.0@, r.1),
            old(self).states().len() > 0 ==> match t {
                Trans::Push(s) => s.started(final(self).states().last()),
                Trans::Switch(s) => s.started(final(self).states().last()),
                _ => true,
            },
            final(self).ui_state() == old(self).ui_state(),
            final(self).stages() == old(self).stages(),
    {
        let n = self.stack.len();
        let ghost before = self.stack@;
        let mut calls: Vec<Call> = Vec::new();
        if n == 0 {
            assert(calls@ =~= Seq::<Call>::empty());
            let error = match t {
                Trans::Pop => Some(StackError::EmptyStack),
                _ => None,
            };
            return (calls, error);
        }
        match t {
            Trans::Stay => {
                assert(calls@ =~= Seq::<Call>::empty());
                (calls, None)
            },
            Trans::Push(s) => {
                let mut s = s;
                s.on_start();
                self.stack.push(s);
                calls.push(Call::Start(n));
                assert(calls@ =~= seq![Call::Start(n)]);
                assert(self.stack@.subrange(0, n as int) =~= before);
                assert(self.stack@.subrange(0, n - 1) =~= before.subrange(0, n - 1));
                (calls, None)
            },
            Trans::Pop => {
                if n >= 2 {
                    match self.stack.pop() {
                        Some(mut top) => top.on_stop(),
                        None => {},
                    }
                    calls.push(Call::Stop(n - 1));
                    assert(calls@ =~= seq![Call::Stop((n - 1) as usize)]);
                    assert(self.stack@ =~= before.subrange(0, n - 1));
                    (calls, None)
                } else {
                    let stops = self.stop_all();
                    assert(stops@ =~= seq![Call::Stop(0usize)]);
                    (stops, Some(StackError::EmptyStack))
                }
            },
            Trans::Switch(s) => {
                match self.stack.pop() {
                    Some(mut top) => top.on_stop(),
                    None => {},
                }
                calls.push(Call::Stop(n - 1));
                let mut s = s;
                s.on_start();
                self.stack.push(s);
                calls.push(Call::Start(n - 1));
                assert(calls@ =~= seq![Call::Stop((n - 1) as usize), Call::Start((n - 1) as usize)]);
                assert(self.stack@.subrange(0, n - 1) =~= before.subrange(0, n - 1));
                (calls, None)
            },
            Trans::Quit => (self.stop_all(), None),
        }
    }

    /// Runs one tick: each event goes to the UI and then to the active state's
    /// `handle_event`, in arrival order; then the active state's `update` runs
    /// once. A UI frame left open is closed, the pipeline runs, and the last
    /// transition other than `Stay` that those callbacks returned is applied.
    /// `ready` says whether the render surface can take a UI frame. On an
    /// empty stack the tick is an error: nothing runs and `EmptyStack` is
    /// reported, and the loop stays ended.
    pub fn tick(&mut self, events: &Vec<StateEvent>, ready: bool) -> (r: TickReport)
        ensures
            final(self).stages() == old(self).stages(),
            !final(self).ui_state().open,
            old(self).states().len() == 0 ==> {
                &&& final(self).states() == old(self).states()
                &&& r.calls@.len() == 0
                &&& r.returned@.len() == 0
                &&& r.applied == TransKind::Stay
                &&& r.hooks@.len() == 0
                &&& r.error == Some(StackError::EmptyStack)
                &&& r.render@.len() == 0
            },
            old(self).states().len() > 0 ==> {
                &&& effect(old(self).states(), final(self).states(), r.applied, r.hooks@, r.error)
                &&& r.calls@ == dispatch_calls(events@.len())
                &&& r.returned@.len() == events@.len() + 1
                &&& r.applied == last_request(r.returned@)
                &&& r.render@ == render_ops(
                    old(self).stages(),
                    ui_drawn(final(self).ui_state(), ready),
                )
                &&& exists|trace: Seq<S>, pre: UiContext, post: UiContext|
                    #[trigger] callbacks_ran(
                        old(self).states().last(),
                        old(self).ui_state(),
                        ready,
                        events@,
                        r.returned@,
                        trace,
                        pre,
                        post,
                        final(self).ui_state(),
                    )
            },
    {
        let n = self.stack.len();
        let ghost ui0 = self.ui;
        let top = self.stack.pop();
        let mut top = match top {
            Some(top) => top,
            None => {
                if self.ui.open {
                    self.ui.close_frame();
                }
                return TickReport {
                    calls: Vec::new(),
                    returned: Vec::new(),
                    applied: TransKind::Stay,
                    hooks: Vec::new(),
                    error: Some(StackError::EmptyStack),
                    render: Vec::new(),
                };
            },
        };
        let ghost below = self.stack@;
        let ghost top0 = top;
        self.ui.begin_tick(ready);
        let mut pending: Trans<S> = Trans::Stay;
        let mut calls: Vec<Call> = Vec::new();
        let mut returned: Vec<TransKind> = Vec::new();
        let ghost mut trace: Seq<S> = seq![top];
        let mut i: usize = 0;
        while i < events.len()
            invariant
                i <= events@.len(),
                calls@ == Seq::new(i as nat, |j: int| Call::Event(j as usize)),
                returned@.len() == i,
                pending.kind_spec() == last_request(returned@),
                self.stack@ == below,
                self.pipeline == old(self).pipeline,
                trace.len() == i + 1,
                trace[0] == top0,
                trace.last() == top,
                forall|j: int| 0 <= j < i ==> #[trigger] returned@[j] == trace[j].reply(events@[j]),
                self.ui.ready == ready,
                !self.ui.open,
                !self.ui.opened,
                self.ui.submitted is None,
                self.ui.commands@.len() == 0,
                self.ui.input@ == ui0.input@ + forwarded(events@.take(i as int)),
            decreases events@.len() - i,
        {
            assert(events@.take(i + 1).drop_last() =~= events@.take(i as int));
            match ui_input(&events[i]) {
                Some(w) => self.ui.inject(w),
                None => {},
            }
            assert(self.ui.input@ =~= ui0.input@ + forwarded(events@.take(i + 1)));
            let t = top.handle_event(&events[i]);
            let k = t.kind();
            match k {
                TransKind::Stay => {},
                _ => {
                    pending = t;
                },
            }
            proof {
                let pushed = returned@.push(k);
                assert(pushed.drop_last() =~= returned@);
                trace = trace.push(top);
            }
            returned.push(k);
            calls.push(Call::Event(i));
            assert(calls@ =~= Seq::new((i + 1) as nat, |j: int| Call::Event(j as usize)));
            i = i + 1;
        }
        assert(events@.take(events@.len() as int) =~= events@);
        let ghost pre = self.ui;
        let u = top.update(&mut self.ui);
        let ghost post = self.ui;
        let k = u.kind();
        match k {
            TransKind::Stay => {},
            _ => {
                pending = u;
            },
        }
        proof {
            let pushed = returned@.push(k);
            assert(pushed.drop_last() =~= returned@);
        }
        returned.push(k);
        calls.push(Call::Update);
        assert(calls@ =~= dispatch_calls(events@.len()));
        if self.ui.open {
            self.ui.close_frame();
        }
        self.stack.push(top);
        let ghost mid = self.stack@;
        assert(mid.subrange(0, n - 1) =~= old(self).stack@.subrange(0, n - 1));
        let drawn: Option<usize> = if !ready {
            None
        } else {
            match &self.ui.submitted {
                Some(d) => Some(d.commands.len()),
                None => None,
            }
        };
        let render = self.pipeline.execute(drawn);
        let applied_kind = pending.kind();
        let (hooks, error) = self.apply(pending);
        assert(top0 == old(self).states().last());
        assert(ui0 == old(self).ui_state());
        assert(callbacks_ran(
            old(self).states().last(),
            old(self).ui_state(),
            ready,
            events@,
            returned@,
            trace,
            pre,
            post,
            self.ui_state(),
        ));
        TickReport { calls, returned, applied: applied_kind, hooks, error, render }
    }
}

} // verus!
