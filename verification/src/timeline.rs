//! The timeline aggregator: a state machine that consumes domain events and
//! UI commands, resolves output names and surface ids to dense indices, and
//! applies the windowed freeze policy that decides which batch of shapes is
//! displayed.

use vstd::prelude::*;

use crate::message::{Message, MessageModel};
use crate::shape::{OutputModel, OutputState, Shape, SurfaceState, shape_left, shape_right};

verus! {

/// Maximum source-time span the pending buffer may cover before it is frozen
/// for display (one second in nanoseconds).
pub const MAX_TIME_PERIOD: u64 = 1_000_000_000;

/// Spec-level image of the whole aggregator state.
#[verifier::ext_equal]
pub struct TimelineModel {
    /// Scroll offset in source-time units.
    pub index: u64,
    /// The buffer currently displayed; empty while accumulating.
    pub frozen: Seq<Shape>,
    /// The buffer new shapes are appended to.
    pub pending: Seq<Shape>,
    /// One entry per distinct output name ever seen, in order of first sight.
    pub outputs: Seq<OutputModel>,
    /// One entry per distinct surface id ever seen, in order of first sight.
    pub surfaces: Seq<SurfaceState>,
    /// Whether the UI layer should schedule periodic refreshes.
    pub auto_refresh: bool,
}

/// Source-time span of a pending buffer: right extent of its last shape
/// minus left extent of its first, clamped at zero, and zero when empty.
pub open spec fn window_of(pending: Seq<Shape>) -> u64 {
    if pending.len() == 0 {
        0
    } else {
        let f = shape_left(pending.first());
        let l = shape_right(pending.last());
        if l >= f {
            (l - f) as u64
        } else {
            0
        }
    }
}

/// Index of the first output whose name matches, scanning front to back.
pub open spec fn first_output_match(outputs: Seq<OutputModel>, name: Seq<char>) -> Option<int>
    decreases outputs.len(),
{
    if outputs.len() == 0 {
        None
    } else if outputs.first().name == name {
        Some(0)
    } else {
        match first_output_match(outputs.drop_first(), name) {
            Some(i) => Some(i + 1),
            None => None,
        }
    }
}

/// Index of the first surface whose id matches, scanning front to back.
pub open spec fn first_surface_match(surfaces: Seq<SurfaceState>, id: u32) -> Option<int>
    decreases surfaces.len(),
{
    if surfaces.len() == 0 {
        None
    } else if surfaces.first().index == id {
        Some(0)
    } else {
        match first_surface_match(surfaces.drop_first(), id) {
            Some(i) => Some(i + 1),
            None => None,
        }
    }
}

/// Resolve an output name to its dense index, appending a fresh record when
/// the name is unseen: the table after the call and the index returned.
pub open spec fn resolve_output(outputs: Seq<OutputModel>, name: Seq<char>) -> (Seq<
    OutputModel,
>, int) {
    match first_output_match(outputs, name) {
        Some(i) => (outputs, i),
        None => (
            outputs.push(OutputModel { name, last_repaint_start: 0 }),
            outputs.len() as int,
        ),
    }
}

/// Resolve a surface id to its dense index, appending a fresh record bound
/// to the (transitively resolved) output when the id is unseen: both tables
/// after the call and the index returned.
pub open spec fn resolve_surface(
    outputs: Seq<OutputModel>,
    surfaces: Seq<SurfaceState>,
    id: u32,
    name: Seq<char>,
) -> (Seq<OutputModel>, Seq<SurfaceState>, int) {
    match first_surface_match(surfaces, id) {
        Some(i) => (outputs, surfaces, i),
        None => {
            let (outs, oidx) = resolve_output(outputs, name);
            (
                outs,
                surfaces.push(SurfaceState { index: id, output_idx: oidx as usize }),
                surfaces.len() as int,
            )
        },
    }
}

/// Effect of one message on the state, before the freeze policy is applied.
pub open spec fn apply_event(pre: TimelineModel, m: MessageModel) -> TimelineModel {
    match m {
        MessageModel::FrameStart(name, t) => {
            let (outs, i) = resolve_output(pre.outputs, name);
            TimelineModel {
                outputs: outs,
                pending: pre.pending.push(Shape::FrameBoundary(t, i as usize)),
                ..pre
            }
        },
        MessageModel::FrameRepaint(name, t) => {
            let (outs, i) = resolve_output(pre.outputs, name);
            TimelineModel {
                outputs: outs.update(i, OutputModel { last_repaint_start: t, ..outs[i] }),
                ..pre
            }
        },
        MessageModel::FrameRepaintDone(name, t) => {
            let (outs, i) = resolve_output(pre.outputs, name);
            let start = outs[i].last_repaint_start;
            TimelineModel {
                outputs: outs,
                pending: pre.pending.push(Shape::RepaintRegion(start, t, i as usize)),
                ..pre
            }
        },
        MessageModel::SurfaceCommit(id, name, t) => {
            let (outs, surfs, i) = resolve_surface(pre.outputs, pre.surfaces, id, name);
            TimelineModel {
                outputs: outs,
                surfaces: surfs,
                pending: pre.pending.push(Shape::Commit(t, i as usize)),
                ..pre
            }
        },
        MessageModel::Refresh => TimelineModel {
            frozen: Seq::empty(),
            pending: Seq::empty(),
            ..pre
        },
        MessageModel::SliderChanged(x) => TimelineModel { index: x, ..pre },
        MessageModel::PeriodicRefreshChanged(v) => TimelineModel { auto_refresh: v, ..pre },
    }
}

/// Full transition: apply the message, then freeze the pending buffer into
/// the displayed slot when nothing is frozen and the pending window has
/// reached the threshold. The move is a swap, not a copy.
pub open spec fn step(pre: TimelineModel, m: MessageModel) -> TimelineModel {
    let mid = apply_event(pre, m);
    if mid.frozen.len() == 0 && window_of(mid.pending) >= MAX_TIME_PERIOD {
        TimelineModel { frozen: mid.pending, pending: Seq::empty(), ..mid }
    } else {
        mid
    }
}

/// The state every session starts from: everything empty, scroll at zero,
/// periodic refresh off.
pub open spec fn initial_model() -> TimelineModel {
    TimelineModel {
        index: 0,
        frozen: Seq::empty(),
        pending: Seq::empty(),
        outputs: Seq::empty(),
        surfaces: Seq::empty(),
        auto_refresh: false,
    }
}

/// A shape's lane indices stay inside the tables of the state that owns it.
pub open spec fn shape_wf(s: Shape, n_outputs: int, n_surfaces: int) -> bool {
    match s {
        Shape::FrameBoundary(_, i) => (i as int) < n_outputs,
        Shape::RepaintRegion(_, _, i) => (i as int) < n_outputs,
        Shape::Commit(_, i) => (i as int) < n_surfaces,
    }
}

/// Well-formedness of the aggregator state: every shape in either buffer
/// points into the output or surface table, and every surface points into
/// the output table.
pub open spec fn model_wf(m: TimelineModel) -> bool {
    &&& forall|k: int|
        0 <= k < m.frozen.len() ==> shape_wf(
            #[trigger] m.frozen[k],
            m.outputs.len() as int,
            m.surfaces.len() as int,
        )
    &&& forall|k: int|
        0 <= k < m.pending.len() ==> shape_wf(
            #[trigger] m.pending[k],
            m.outputs.len() as int,
            m.surfaces.len() as int,
        )
    &&& forall|k: int|
        0 <= k < m.surfaces.len() ==> (#[trigger] m.surfaces[k].output_idx as int)
            < m.outputs.len()
}

/// The aggregator. It exclusively owns the output and surface tables and the
/// two shape buffers; the surrounding UI layer only feeds it messages and
/// reads the buffers back for rendering.
pub struct RepaintLoop {
    /// Scroll offset in source-time units.
    pub index: u64,
    /// The frozen (displayed) buffer; empty while accumulating.
    pub shapes: Vec<Shape>,
    /// The buffer new shapes are appended to.
    pub pending_shapes: Vec<Shape>,
    pub outputs: Vec<OutputState>,
    pub surfaces: Vec<SurfaceState>,
    pub do_periodic_refresh: bool,
}

impl View for RepaintLoop {
    type V = TimelineModel;

    open spec fn view(&self) -> TimelineModel {
        TimelineModel {
            index: self.index,
            frozen: self.shapes@,
            pending: self.pending_shapes@,
            outputs: self.outputs@.map_values(|o: OutputState| o@),
            surfaces: self.surfaces@,
            auto_refresh: self.do_periodic_refresh,
        }
    }
}

impl RepaintLoop {
    /// Well-formedness of this aggregator's state.
    pub open spec fn wf(&self) -> bool {
        model_wf(self@)
    }

    /// A fresh aggregator in the initial state.
    pub fn new() -> (r: Self)
        ensures
            r@ == initial_model(),
            r.wf(),
    {
        let r = RepaintLoop {
            index: 0,
            shapes: Vec::new(),
            pending_shapes: Vec::new(),
            outputs: Vec::new(),
            surfaces: Vec::new(),
            do_periodic_refresh: false,
        };
        proof {
            assert(r@ =~= initial_model());
        }
        r
    }

    /// Dense index of the given output name: a linear lookup that appends a
    /// fresh record on first sight. Idempotent, and indices never change.
    pub fn output_idx(&mut self, output: &String) -> (r: usize)
        ensures
            ({
                let (outs, i) = resolve_output(old(self)@.outputs, output@);
                &&& final(self)@ == (TimelineModel { outputs: outs, ..old(self)@ })
                &&& r as int == i
                &&& (i as int) < outs.len()
            }),
    {
        let ghost pre = self@;
        let mut k: usize = 0;
        while k < self.outputs.len()
            invariant
                k <= self.outputs.len(),
                self@ == pre,
                forall|j: int| 0 <= j < k ==> #[trigger] self@.outputs[j].name != output@,
            decreases self.outputs.len() - k,
        {
            if self.outputs[k].name == *output {
                proof {
                    assert(self@.outputs[k as int].name == output@);
                    lemma_first_output_match_at(self@.outputs, output@, k as int);
                }
                return k;
            }
            k += 1;
        }
        proof {
            lemma_first_output_match_none(self@.outputs, output@);
        }
        self.outputs.push(OutputState { name: output.clone(), last_repaint_start: 0 });
        proof {
            assert(self@.outputs =~= resolve_output(pre.outputs, output@).0);
            assert(self@ =~= (TimelineModel { outputs: self@.outputs, ..pre }));
        }
        self.outputs.len() - 1
    }

    /// Dense index of the given surface id: a linear lookup that appends a
    /// fresh record on first sight, resolving the output index first so the
    /// surface is bound to the output it first committed under.
    pub fn surface_idx(&mut self, surface: u32, output: &String) -> (r: usize)
        ensures
            ({
                let (outs, surfs, i) = resolve_surface(
                    old(self)@.outputs,
                    old(self)@.surfaces,
                    surface,
                    output@,
                );
                &&& final(self)@ == (TimelineModel { outputs: outs, surfaces: surfs, ..old(self)@ })
                &&& r as int == i
                &&& (i as int) < surfs.len()
            }),
    {
        let ghost pre = self@;
        let mut k: usize = 0;
        while k < self.surfaces.len()
            invariant
                k <= self.surfaces.len(),
                self@ == pre,
                forall|j: int| 0 <= j < k ==> #[trigger] self@.surfaces[j].index != surface,
            decreases self.surfaces.len() - k,
        {
            if self.surfaces[k].index == surface {
                proof {
                    lemma_first_surface_match_at(self@.surfaces, surface, k as int);
                }
                return k;
            }
            k += 1;
        }
        proof {
            lemma_first_surface_match_none(self@.surfaces, surface);
        }
        let oidx = self.output_idx(output);
        self.surfaces.push(SurfaceState { index: surface, output_idx: oidx });
        proof {
            let (outs, surfs, i) = resolve_surface(pre.outputs, pre.surfaces, surface, output@);
            assert(self@.surfaces =~= surfs);
            assert(self@ =~= (TimelineModel { outputs: outs, surfaces: surfs, ..pre }));
        }
        self.surfaces.len() - 1
    }

    /// Source-time span currently covered by the pending buffer.
    pub fn current_pending_window(&self) -> (r: u64)
        ensures
            r == window_of(self@.pending),
    {
        let n = self.pending_shapes.len();
        if n == 0 {
            0
        } else {
            let fst = self.pending_shapes[0].left();
            let lst = self.pending_shapes[n - 1].right();
            if lst >= fst {
                lst - fst
            } else {
                0
            }
        }
    }

    /// Whether the UI layer should keep polling the transport: polling is
    /// suspended once the pending window has reached the freeze threshold.
    pub fn should_poll(&self) -> (r: bool)
        ensures
            r == (window_of(self@.pending) < MAX_TIME_PERIOD),
    {
        self.current_pending_window() < MAX_TIME_PERIOD
    }

    /// Consume one message: apply its effect, then freeze the pending buffer
    /// when nothing is frozen and its window has reached the threshold.
    pub fn handle_message(&mut self, message: Message)
        ensures
            final(self)@ == step(old(self)@, message@),
            old(self).wf() ==> final(self).wf(),
    {
        let ghost pre = self@;
        let ghost m = message@;
        match message {
            Message::FrameStart(output, time) => {
                let idx = self.output_idx(&output);
                self.pending_shapes.push(Shape::FrameBoundary(time, idx));
            },
            Message::FrameRepaint(output, time) => {
                let idx = self.output_idx(&output);
                self.outputs[idx].last_repaint_start = time;
            },
            Message::FrameRepaintDone(output, time) => {
                let idx = self.output_idx(&output);
                let start = self.outputs[idx].last_repaint_start;
                self.pending_shapes.push(Shape::RepaintRegion(start, time, idx));
            },
            Message::SurfaceCommit(surface, output, time) => {
                let idx = self.surface_idx(surface, &output);
                self.pending_shapes.push(Shape::Commit(time, idx));
            },
            Message::Refresh => {
                self.shapes.clear();
                self.pending_shapes.clear();
            },
            Message::SliderChanged(idx) => {
                self.index = idx;
            },
            Message::PeriodicRefreshChanged(v) => {
                self.do_periodic_refresh = v;
            },
        }
        proof {
            assert(self@ =~= apply_event(pre, m));
        }
        if self.shapes.is_empty() && self.current_pending_window() >= MAX_TIME_PERIOD {
            core::mem::swap(&mut self.shapes, &mut self.pending_shapes);
            proof {
                assert(self@ =~= step(pre, m));
            }
        } else {
            proof {
                assert(self@ =~= step(pre, m));
            }
        }
        proof {
            if model_wf(pre) {
                lemma_step_preserves_wf(pre, m);
            }
        }
    }
}

/// If the first `i` entries miss and entry `i` matches, the scan finds `i`.
proof fn lemma_first_output_match_at(outputs: Seq<OutputModel>, name: Seq<char>, i: int)
    requires
        0 <= i < outputs.len(),
        outputs[i].name == name,
        forall|j: int| 0 <= j < i ==> #[trigger] outputs[j].name != name,
    ensures
        first_output_match(outputs, name) == Some(i),
    decreases outputs.len(),
{
    if i > 0 {
        assert(outputs[0].name != name);
        assert(outputs.drop_first()[i - 1].name == name);
        assert(forall|j: int|
            0 <= j < i - 1 ==> #[trigger] outputs.drop_first()[j].name == outputs[j + 1].name);
        lemma_first_output_match_at(outputs.drop_first(), name, i - 1);
    }
}

/// If no entry matches, the scan finds nothing.
proof fn lemma_first_output_match_none(outputs: Seq<OutputModel>, name: Seq<char>)
    requires
        forall|j: int| 0 <= j < outputs.len() ==> #[trigger] outputs[j].name != name,
    ensures
        first_output_match(outputs, name) is None,
    decreases outputs.len(),
{
    if outputs.len() > 0 {
        assert(forall|j: int|
            0 <= j < outputs.len() - 1 ==> #[trigger] outputs.drop_first()[j].name == outputs[j
                + 1].name);
        lemma_first_output_match_none(outputs.drop_first(), name);
    }
}

/// If the first `i` entries miss and entry `i` matches, the scan finds `i`.
proof fn lemma_first_surface_match_at(surfaces: Seq<SurfaceState>, id: u32, i: int)
    requires
        0 <= i < surfaces.len(),
        surfaces[i].index == id,
        forall|j: int| 0 <= j < i ==> #[trigger] surfaces[j].index != id,
    ensures
        first_surface_match(surfaces, id) == Some(i),
    decreases surfaces.len(),
{
    if i > 0 {
        assert(surfaces[0].index != id);
        assert(surfaces.drop_first()[i - 1].index == id);
        assert(forall|j: int|
            0 <= j < i - 1 ==> #[trigger] surfaces.drop_first()[j].index == surfaces[j + 1].index);
        lemma_first_surface_match_at(surfaces.drop_first(), id, i - 1);
    }
}

/// If no entry matches, the scan finds nothing.
proof fn lemma_first_surface_match_none(surfaces: Seq<SurfaceState>, id: u32)
    requires
        forall|j: int| 0 <= j < surfaces.len() ==> #[trigger] surfaces[j].index != id,
    ensures
        first_surface_match(surfaces, id) is None,
    decreases surfaces.len(),
{
    if surfaces.len() > 0 {
        assert(forall|j: int|
            0 <= j < surfaces.len() - 1 ==> #[trigger] surfaces.drop_first()[j].index == surfaces[j
                + 1].index);
        lemma_first_surface_match_none(surfaces.drop_first(), id);
    }
}

/// If the scan finds nothing, no entry matches.
proof fn lemma_first_surface_match_none_inv(surfaces: Seq<SurfaceState>, id: u32)
    requires
        first_surface_match(surfaces, id) is None,
    ensures
        forall|j: int| 0 <= j < surfaces.len() ==> #[trigger] surfaces[j].index != id,
    decreases surfaces.len(),
{
    if surfaces.len() > 0 {
        lemma_first_surface_match_none_inv(surfaces.drop_first(), id);
        assert(forall|j: int|
            1 <= j < surfaces.len() ==> #[trigger] surfaces[j].index == surfaces.drop_first()[j
                - 1].index);
    }
}

/// Resolving an output name leaves the table unchanged or appends one
/// record, and the returned index lies inside the resulting table.
pub proof fn lemma_resolve_output_bounds(outputs: Seq<OutputModel>, name: Seq<char>)
    ensures
        ({
            let (outs, i) = resolve_output(outputs, name);
            &&& outputs.len() <= outs.len() <= outputs.len() + 1
            &&& 0 <= i < outs.len()
            &&& forall|j: int| 0 <= j < outputs.len() ==> outs[j] == outputs[j]
        }),
    decreases outputs.len(),
{
    lemma_first_match_in_range(outputs, name);
}

/// A successful scan returns an index inside the table.
proof fn lemma_first_match_in_range(outputs: Seq<OutputModel>, name: Seq<char>)
    ensures
        first_output_match(outputs, name) matches Some(i) ==> 0 <= i < outputs.len(),
    decreases outputs.len(),
{
    if outputs.len() > 0 {
        lemma_first_match_in_range(outputs.drop_first(), name);
    }
}

/// A successful surface scan returns an index inside the table.
proof fn lemma_surface_match_in_range(surfaces: Seq<SurfaceState>, id: u32)
    ensures
        first_surface_match(surfaces, id) matches Some(i) ==> 0 <= i < surfaces.len(),
    decreases surfaces.len(),
{
    if surfaces.len() > 0 {
        lemma_surface_match_in_range(surfaces.drop_first(), id);
    }
}

/// Every step of the aggregator preserves well-formedness: all lane indices
/// stored in shapes and surfaces stay inside the tables.
pub proof fn lemma_step_preserves_wf(pre: TimelineModel, m: MessageModel)
    requires
        model_wf(pre),
    ensures
        model_wf(step(pre, m)),
{
    let mid = apply_event(pre, m);
    match m {
        MessageModel::FrameStart(name, t) => {
            lemma_resolve_output_bounds(pre.outputs, name);
        },
        MessageModel::FrameRepaint(name, t) => {
            lemma_resolve_output_bounds(pre.outputs, name);
        },
        MessageModel::FrameRepaintDone(name, t) => {
            lemma_resolve_output_bounds(pre.outputs, name);
        },
        MessageModel::SurfaceCommit(id, name, t) => {
            lemma_surface_match_in_range(pre.surfaces, id);
            lemma_resolve_output_bounds(pre.outputs, name);
        },
        _ => {},
    }
    assert(model_wf(mid));
}

/// Freezing is one-shot: while a frozen buffer is displayed, no message
/// short of an explicit `Refresh` changes it, and new shapes go only to the
/// pending buffer, by appending.
pub proof fn lemma_freeze_one_shot(pre: TimelineModel, m: MessageModel)
    requires
        pre.frozen.len() > 0,
        !(m is Refresh),
    ensures
        step(pre, m).frozen == pre.frozen,
        pre.pending.is_prefix_of(step(pre, m).pending),
{
    let mid = apply_event(pre, m);
    assert(mid.frozen == pre.frozen);
    assert(step(pre, m) == mid);
    match m {
        MessageModel::FrameStart(name, t) => {
            assert(pre.pending.is_prefix_of(mid.pending));
        },
        MessageModel::FrameRepaintDone(name, t) => {
            assert(pre.pending.is_prefix_of(mid.pending));
        },
        MessageModel::SurfaceCommit(id, name, t) => {
            assert(pre.pending.is_prefix_of(mid.pending));
        },
        _ => {
            assert(pre.pending.is_prefix_of(mid.pending));
        },
    }
}

/// The state after consuming a whole sequence of messages, front to back.
pub open spec fn run(pre: TimelineModel, ms: Seq<MessageModel>) -> TimelineModel
    decreases ms.len(),
{
    if ms.len() == 0 {
        pre
    } else {
        run(step(pre, ms.first()), ms.drop_first())
    }
}

/// The one-shot freeze holds across any run: however many messages follow,
/// none of them a `Refresh`, the frozen buffer stays exactly as it was
/// swapped in, while events keep accumulating into the new pending buffer.
pub proof fn lemma_freeze_holds_across_run(pre: TimelineModel, ms: Seq<MessageModel>)
    requires
        pre.frozen.len() > 0,
        forall|j: int| 0 <= j < ms.len() ==> !(#[trigger] ms[j] is Refresh),
    ensures
        run(pre, ms).frozen == pre.frozen,
    decreases ms.len(),
{
    if ms.len() > 0 {
        lemma_freeze_one_shot(pre, ms.first());
        let mid = step(pre, ms.first());
        assert(forall|j: int|
            0 <= j < ms.len() - 1 ==> #[trigger] ms.drop_first()[j] == ms[j + 1]);
        lemma_freeze_holds_across_run(mid, ms.drop_first());
    }
}

/// Issuing `Refresh` twice in a row is the same as issuing it once: either
/// way both buffers are empty and the machine is back to accumulating.
pub proof fn lemma_refresh_idempotent(pre: TimelineModel)
    ensures
        step(step(pre, MessageModel::Refresh), MessageModel::Refresh) == step(
            pre,
            MessageModel::Refresh,
        ),
        step(pre, MessageModel::Refresh).frozen == Seq::<Shape>::empty(),
        step(pre, MessageModel::Refresh).pending == Seq::<Shape>::empty(),
{
    let once = step(pre, MessageModel::Refresh);
    assert(step(once, MessageModel::Refresh) =~= once);
}

/// Resolving a previously unseen surface id creates exactly one new surface
/// record and at most one new output record — a new output only when the
/// name is also new — and resolving the same id again returns the same index
/// and creates nothing.
pub proof fn lemma_surface_resolution_fresh(
    outputs: Seq<OutputModel>,
    surfaces: Seq<SurfaceState>,
    id: u32,
    name: Seq<char>,
)
    requires
        first_surface_match(surfaces, id) is None,
    ensures
        ({
            let (o1, s1, i) = resolve_surface(outputs, surfaces, id, name);
            &&& s1.len() == surfaces.len() + 1
            &&& outputs.len() <= o1.len() <= outputs.len() + 1
            &&& (first_output_match(outputs, name) is Some ==> o1 == outputs)
            &&& (first_output_match(outputs, name) is None ==> o1.len() == outputs.len() + 1)
            &&& i == surfaces.len()
            &&& resolve_surface(o1, s1, id, name) == (o1, s1, i)
        }),
{
    let (o1, s1, i) = resolve_surface(outputs, surfaces, id, name);
    lemma_resolve_output_bounds(outputs, name);
    lemma_first_surface_match_none_inv(surfaces, id);
    assert(forall|j: int| 0 <= j < surfaces.len() ==> #[trigger] s1[j].index != id);
    assert(s1[surfaces.len() as int].index == id);
    lemma_first_surface_match_at(s1, id, surfaces.len() as int);
    assert(resolve_surface(o1, s1, id, name) == (o1, s1, i));
}

} // verus!
