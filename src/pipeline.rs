use vstd::prelude::*;

verus! {

/// What a clear stage writes to the backbuffer: a colour and a depth.
#[derive(Clone, Copy, Debug, PartialEq, Eq, Structural)]
pub struct ClearTarget {
    pub r: u8,
    pub g: u8,
    pub b: u8,
    pub a: u8,
    /// Depth as a fraction of the far plane, where `u16::MAX` is the far plane.
    pub depth: u16,
}

/// One stage of the render pipeline.
#[derive(Clone, Copy, Debug, PartialEq, Eq, Structural)]
pub enum Stage {
    /// Clear the backbuffer.
    Clear(ClearTarget),
    /// Draw the UI overlay of this tick, if a UI frame was closed.
    DrawUi,
}

/// One piece of work that the pipeline did in a tick.
#[derive(Clone, Copy, Debug, PartialEq, Eq, Structural)]
pub enum RenderOp {
    /// The backbuffer was cleared.
    Clear(ClearTarget),
    /// The UI overlay was drawn, with this many composition calls.
    DrawUi(usize),
}

/// The work that one stage does, given the number of composition calls of
/// this tick's UI frame, or `None` when no frame was closed.
pub open spec fn stage_ops(stage: Stage, ui: Option<usize>) -> Seq<RenderOp> {
    match stage {
        Stage::Clear(c) => seq![RenderOp::Clear(c)],
        Stage::DrawUi => match ui {
            Some(k) => seq![RenderOp::DrawUi(k)],
            None => Seq::empty(),
        },
    }
}

/// The work of a sequence of stages, in their order.
pub open spec fn render_ops(stages: Seq<Stage>, ui: Option<usize>) -> Seq<RenderOp>
    decreases stages.len(),
{
    if stages.len() == 0 {
        Seq::empty()
    } else {
        render_ops(stages.drop_last(), ui) + stage_ops(stages.last(), ui)
    }
}

/// An ordered list of stages, fixed once built.
pub struct Pipeline {
    stages: Vec<Stage>,
}

impl View for Pipeline {
    type V = Seq<Stage>;

    closed spec fn view(&self) -> Seq<Stage> {
        self.stages@
    }
}

impl Pipeline {
    /// A pipeline with no stage.
    pub fn build() -> (r: Pipeline)
        ensures
            r@ == Seq::<Stage>::empty(),
    {
        Pipeline { stages: Vec::new() }
    }

    /// The pipeline with one more stage at its end.
    pub fn with_stage(self, stage: Stage) -> (r: Pipeline)
        ensures
            r@ == self@.push(stage),
    {
        let mut stages = self.stages;
        stages.push(stage);
        Pipeline { stages }
    }

    /// The editor's pipeline: clear to opaque black at the far plane, then draw
    /// the UI overlay.
    pub fn editor() -> (r: Pipeline)
        ensures
            r@ == seq![
                Stage::Clear(ClearTarget { r: 0, g: 0, b: 0, a: 255, depth: 65535 }),
                Stage::DrawUi,
            ],
    {
        let clear = ClearTarget { r: 0, g: 0, b: 0, a: 255, depth: 65535 };
        Pipeline::build().with_stage(Stage::Clear(clear)).with_stage(Stage::DrawUi)
    }

    /// The number of stages.
    pub fn len(&self) -> (r: usize)
        ensures
            r == self@.len(),
    {
        self.stages.len()
    }

    /// The stage at index `i`.
    pub fn stage(&self, i: usize) -> (r: Stage)
        requires
            i < self@.len(),
        ensures
            r == self@[i as int],
    {
        self.stages[i]
    }

    /// Runs the stages in order, given the number of composition calls of
    /// this tick's UI frame, or `None` when no frame was closed.
    pub fn execute(&self, ui: Option<usize>) -> (r: Vec<RenderOp>)
        ensures
            r@ == render_ops(self@, ui),
    {
        let mut ops: Vec<RenderOp> = Vec::new();
        let mut i: usize = 0;
        while i < self.stages.len()
            invariant
                i <= self.stages@.len(),
                ops@ == render_ops(self.stages@.take(i as int), ui),
            decreases self.stages@.len() - i,
        {
            assert(self.stages@.take(i + 1).drop_last() == self.stages@.take(i as int));
            match self.stages[i] {
                Stage::Clear(c) => ops.push(RenderOp::Clear(c)),
                Stage::DrawUi => match ui {
                    Some(k) => ops.push(RenderOp::DrawUi(k)),
                    None => {},
                },
            }
            i = i + 1;
        }
        assert(self.stages@.take(self.stages@.len() as int) == self.stages@);
        ops
    }
}

} // verus!
