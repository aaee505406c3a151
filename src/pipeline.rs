//! Pipeline specialization keys and the table that memoizes compiled
//! pipelines per key.
use vstd::prelude::*;

verus! {

/// How a view maps HDR colour to the display.
#[derive(Clone, Copy, Debug, PartialEq, Eq, Structural)]
pub enum Tonemapping {
    Disabled,
    Enabled { deband_dither: bool },
}

/// How a material's fragments are composited.
#[derive(Clone, Copy, Debug, PartialEq, Eq, Structural)]
pub enum AlphaMode {
    Opaque,
    /// Alpha-tested against a cut-off; the cut-off lives in the material.
    Mask,
    Blend,
}

/// The primitive topology of a mesh.
#[derive(Clone, Copy, Debug, PartialEq, Eq, Structural)]
pub enum PrimitiveTopology {
    PointList,
    LineList,
    LineStrip,
    TriangleList,
    TriangleStrip,
}

/// The part of a pipeline key fixed by the view being rendered.
#[derive(Clone, Copy, Debug, PartialEq, Eq, Structural)]
pub struct ViewKey {
    pub msaa_samples: u32,
    pub hdr: bool,
    pub tonemap_in_shader: bool,
    pub deband_dither: bool,
}

/// The part of a pipeline key fixed by the view, the mesh and whether the
/// material blends.
#[derive(Clone, Copy, Debug, PartialEq, Eq, Structural)]
pub struct MeshKey {
    pub view: ViewKey,
    pub topology: PrimitiveTopology,
    /// Identifies the mesh's vertex-buffer layout: meshes get the same
    /// identifier exactly when their layouts are equal.
    pub layout: u64,
    pub transparent: bool,
}

/// Everything a compiled pipeline depends on. The instance vertex layout is
/// fixed per record type, so one table of pipelines serves one record type
/// and that layout needs no field here.
#[derive(Clone, Copy, Debug, PartialEq, Eq, Structural)]
pub struct PipelineKey {
    pub mesh: MeshKey,
    /// The material's specialization fragment.
    pub material: u64,
}

pub open spec fn spec_view_key(msaa_samples: u32, hdr: bool, tonemapping: Option<Tonemapping>) -> ViewKey {
    let tonemap_in_shader = !hdr && tonemapping is Some && tonemapping->0 is Enabled;
    ViewKey {
        msaa_samples,
        hdr,
        tonemap_in_shader,
        deband_dither: tonemap_in_shader && tonemapping->0->deband_dither,
    }
}

/// The view's key fragment: tone mapping moves into the shader only for an
/// enabled tone mapper on a view that is not HDR, and dithering only with it.
pub fn view_key(msaa_samples: u32, hdr: bool, tonemapping: Option<Tonemapping>) -> (r: ViewKey)
    ensures
        r == spec_view_key(msaa_samples, hdr, tonemapping),
{
    let mut key = ViewKey { msaa_samples, hdr, tonemap_in_shader: false, deband_dither: false };
    if let Some(Tonemapping::Enabled { deband_dither }) = tonemapping {
        if !hdr {
            key.tonemap_in_shader = true;
            if deband_dither {
                key.deband_dither = true;
            }
        }
    }
    key
}

pub open spec fn spec_pipeline_key(
    view: ViewKey,
    topology: PrimitiveTopology,
    layout: u64,
    material: u64,
    alpha_mode: AlphaMode,
) -> PipelineKey {
    PipelineKey {
        mesh: MeshKey { view, topology, layout, transparent: alpha_mode == AlphaMode::Blend },
        material,
    }
}

/// The full key of an entity's pipeline: blended materials set the
/// transparency flag, the other modes leave it clear.
pub fn pipeline_key(
    view: ViewKey,
    topology: PrimitiveTopology,
    layout: u64,
    material: u64,
    alpha_mode: AlphaMode,
) -> (r: PipelineKey)
    ensures
        r == spec_pipeline_key(view, topology, layout, material, alpha_mode),
{
    let transparent = match alpha_mode {
        AlphaMode::Blend => true,
        _ => false,
    };
    PipelineKey { mesh: MeshKey { view, topology, layout, transparent }, material }
}

/// Two keys are equal exactly when every fragment is: the view, the mesh's
/// topology and vertex layout, the material, and whether the material blends.
/// So a blended material never shares its key with an opaque one that agrees
/// in everything else, while opaque and masked materials do share it.
pub proof fn lemma_pipeline_key_equality(
    view1: ViewKey,
    topology1: PrimitiveTopology,
    layout1: u64,
    material1: u64,
    alpha_mode1: AlphaMode,
    view2: ViewKey,
    topology2: PrimitiveTopology,
    layout2: u64,
    material2: u64,
    alpha_mode2: AlphaMode,
)
    ensures
        (spec_pipeline_key(view1, topology1, layout1, material1, alpha_mode1)
            == spec_pipeline_key(view2, topology2, layout2, material2, alpha_mode2)) <==> (
            view1 == view2 && topology1 == topology2 && layout1 == layout2 && material1 == material2
                && (alpha_mode1 == AlphaMode::Blend) == (alpha_mode2 == AlphaMode::Blend)),
        spec_pipeline_key(view1, topology1, layout1, material1, AlphaMode::Opaque)
            != spec_pipeline_key(view1, topology1, layout1, material1, AlphaMode::Blend),
        spec_pipeline_key(view1, topology1, layout1, material1, AlphaMode::Opaque)
            == spec_pipeline_key(view1, topology1, layout1, material1, AlphaMode::Mask),
{
}

} // verus!
