//! Routing of visible instanced draws into the three ordered render phases.
use vstd::prelude::*;
use crate::cache::CachedPipeline;
use crate::pipeline::{AlphaMode, PipelineKey, PrimitiveTopology, ViewKey, pipeline_key, spec_pipeline_key};

verus! {

/// The render phases a draw can be queued in.
#[derive(Clone, Copy, Debug, PartialEq, Eq, Structural)]
pub enum Phase {
    Opaque,
    AlphaMask,
    Transparent,
}

pub open spec fn spec_phase_of(alpha_mode: AlphaMode) -> Phase {
    match alpha_mode {
        AlphaMode::Opaque => Phase::Opaque,
        AlphaMode::Mask => Phase::AlphaMask,
        AlphaMode::Blend => Phase::Transparent,
    }
}

/// The phase a material's draws belong to, by its alpha mode.
pub fn phase_of(alpha_mode: AlphaMode) -> (r: Phase)
    ensures
        r == spec_phase_of(alpha_mode),
{
    match alpha_mode {
        AlphaMode::Opaque => Phase::Opaque,
        AlphaMode::Mask => Phase::AlphaMask,
        AlphaMode::Blend => Phase::Transparent,
    }
}

/// What the queueing step needs to know of an entity's material once it is
/// resident on the GPU.
#[derive(Clone, Copy, Debug, PartialEq, Eq, Structural)]
pub struct MaterialInfo {
    pub alpha_mode: AlphaMode,
    /// The material's specialization fragment.
    pub key: u64,
}

/// What the queueing step needs to know of an entity's mesh once it is
/// resident on the GPU.
#[derive(Clone, Copy, Debug, PartialEq, Eq, Structural)]
pub struct MeshInfo {
    pub topology: PrimitiveTopology,
    /// Identifies the mesh's vertex-buffer layout.
    pub layout: u64,
}

/// The pipeline key of an entity seen by a view, or `None` when its material
/// or its mesh is not resident yet and the entity is skipped this frame.
pub fn entity_pipeline_key(
    view: ViewKey,
    material: Option<MaterialInfo>,
    mesh: Option<MeshInfo>,
) -> (r: Option<PipelineKey>)
    ensures
        r is None <==> (material is None || mesh is None),
        r is Some ==> r->0 == spec_pipeline_key(
            view,
            mesh->0.topology,
            mesh->0.layout,
            material->0.key,
            material->0.alpha_mode,
        ),
{
    match (material, mesh) {
        (Some(m), Some(g)) => Some(pipeline_key(view, g.topology, g.layout, m.key, m.alpha_mode)),
        _ => None,
    }
}

/// One queued draw: which entity, with which pipeline, at which sort distance.
#[derive(Clone, Copy, Debug)]
pub struct DrawItem<E, H, T> {
    pub entity: E,
    pub pipeline: H,
    pub distance: T,
}

/// A draw whose pipeline has been looked up, waiting to be queued.
#[derive(Clone, Copy, Debug)]
pub struct ResolvedDraw<E, H, T> {
    pub entity: E,
    pub alpha_mode: AlphaMode,
    pub pipeline: CachedPipeline<H>,
    pub distance: T,
}

/// The three phase queues of one view for one frame.
pub struct PhaseQueues<E, H, T> {
    pub opaque: Vec<DrawItem<E, H, T>>,
    pub alpha_mask: Vec<DrawItem<E, H, T>>,
    pub transparent: Vec<DrawItem<E, H, T>>,
}

/// The contents of the three queues, in phase order.
pub struct QueuesView<E, H, T> {
    pub opaque: Seq<DrawItem<E, H, T>>,
    pub alpha_mask: Seq<DrawItem<E, H, T>>,
    pub transparent: Seq<DrawItem<E, H, T>>,
}

pub open spec fn pushed<E, H, T>(q: QueuesView<E, H, T>, phase: Phase, item: DrawItem<E, H, T>) -> QueuesView<E, H, T> {
    match phase {
        Phase::Opaque => QueuesView { opaque: q.opaque.push(item), ..q },
        Phase::AlphaMask => QueuesView { alpha_mask: q.alpha_mask.push(item), ..q },
        Phase::Transparent => QueuesView { transparent: q.transparent.push(item), ..q },
    }
}

/// The queues after one resolved draw: a compiled pipeline puts the draw in
/// the phase of its alpha mode, a failed one leaves the queues as they were.
pub open spec fn queued_one<E, H, T>(q: QueuesView<E, H, T>, d: ResolvedDraw<E, H, T>) -> QueuesView<E, H, T> {
    match d.pipeline {
        CachedPipeline::Compiled(h) => pushed(
            q,
            spec_phase_of(d.alpha_mode),
            DrawItem { entity: d.entity, pipeline: h, distance: d.distance },
        ),
        CachedPipeline::Failed => q,
    }
}

/// The queues after a sequence of resolved draws, taken in order.
pub open spec fn queued_all<E, H, T>(q: QueuesView<E, H, T>, ds: Seq<ResolvedDraw<E, H, T>>) -> QueuesView<E, H, T>
    decreases ds.len(),
{
    if ds.len() == 0 {
        q
    } else {
        queued_one(queued_all(q, ds.drop_last()), ds.last())
    }
}

impl<E: Copy, H: Copy, T: Copy> PhaseQueues<E, H, T> {
    pub open spec fn view(&self) -> QueuesView<E, H, T> {
        QueuesView { opaque: self.opaque@, alpha_mask: self.alpha_mask@, transparent: self.transparent@ }
    }

    pub open spec fn len_of(&self, phase: Phase) -> nat {
        match phase {
            Phase::Opaque => self.opaque@.len(),
            Phase::AlphaMask => self.alpha_mask@.len(),
            Phase::Transparent => self.transparent@.len(),
        }
    }

    /// Three empty queues, as each frame starts.
    pub fn new() -> (r: Self)
        ensures
            r.opaque@.len() == 0,
            r.alpha_mask@.len() == 0,
            r.transparent@.len() == 0,
    {
        PhaseQueues { opaque: Vec::new(), alpha_mask: Vec::new(), transparent: Vec::new() }
    }

    /// Appends `item` to the queue of the phase that `alpha_mode` selects.
    pub fn add(&mut self, item: DrawItem<E, H, T>, alpha_mode: AlphaMode)
        ensures
            final(self).view() == pushed(old(self).view(), spec_phase_of(alpha_mode), item),
    {
        match phase_of(alpha_mode) {
            Phase::Opaque => self.opaque.push(item),
            Phase::AlphaMask => self.alpha_mask.push(item),
            Phase::Transparent => self.transparent.push(item),
        }
    }

    /// Queues one draw whose pipeline was looked up; a draw whose pipeline
    /// failed to specialize is skipped. Returns whether it was queued.
    pub fn queue_draw(&mut self, draw: ResolvedDraw<E, H, T>) -> (r: bool)
        ensures
            final(self).view() == queued_one(old(self).view(), draw),
            r == draw.pipeline is Compiled,
    {
        match draw.pipeline {
            CachedPipeline::Compiled(h) => {
                self.add(DrawItem { entity: draw.entity, pipeline: h, distance: draw.distance }, draw.alpha_mode);
                true
            },
            CachedPipeline::Failed => false,
        }
    }

    /// Queues the draws of one view in order, skipping only those whose
    /// pipeline failed.
    pub fn queue_draws(&mut self, draws: &Vec<ResolvedDraw<E, H, T>>)
        ensures
            final(self).view() == queued_all(old(self).view(), draws@),
    {
        let mut i: usize = 0;
        while i < draws.len()
            invariant
                i <= draws@.len(),
                self.view() == queued_all(old(self).view(), draws@.take(i as int)),
            decreases draws@.len() - i,
        {
            let ghost before = draws@.take(i as int);
            self.queue_draw(draws[i]);
            proof {
                assert(draws@.take(i + 1).drop_last() == before);
            }
            i = i + 1;
        }
        assert(draws@.take(draws@.len() as int) == draws@);
    }
}

/// A draw lands in exactly one queue, the one its alpha mode selects: opaque
/// materials in the opaque queue, masked ones in the alpha-mask queue and
/// blended ones in the transparent queue; the other two queues are untouched.
pub proof fn lemma_phase_routing<E, H, T>(q: QueuesView<E, H, T>, alpha_mode: AlphaMode, item: DrawItem<E, H, T>)
    ensures
        spec_phase_of(AlphaMode::Opaque) == Phase::Opaque,
        spec_phase_of(AlphaMode::Mask) == Phase::AlphaMask,
        spec_phase_of(AlphaMode::Blend) == Phase::Transparent,
        ({
            let r = pushed(q, spec_phase_of(alpha_mode), item);
            &&& r.opaque == (if alpha_mode == AlphaMode::Opaque { q.opaque.push(item) } else { q.opaque })
            &&& r.alpha_mask == (if alpha_mode == AlphaMode::Mask { q.alpha_mask.push(item) } else { q.alpha_mask })
            &&& r.transparent == (if alpha_mode == AlphaMode::Blend { q.transparent.push(item) } else { q.transparent })
            &&& r.opaque.len() + r.alpha_mask.len() + r.transparent.len()
                == q.opaque.len() + q.alpha_mask.len() + q.transparent.len() + 1
        }),
{
}

} // verus!
