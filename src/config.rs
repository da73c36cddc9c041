use vstd::prelude::*;

use gfx::state::{CullFace, FrontFace, RasterMethod, Rasterizer};
use gfx::Primitive;

verus! {

/// Declares `gfx::Primitive` (from gfx_core), a plain enum of topologies, with its
/// variants, so that builders can hold it and name the default one.
#[verifier::external_type_specification]
pub struct ExPrimitive(gfx::Primitive);

/// Declares draw_state's `FrontFace` (re-exported as `gfx::state::FrontFace`), a plain
/// enum of windings, with its variants.
#[verifier::external_type_specification]
pub struct ExFrontFace(gfx::state::FrontFace);

/// Declares draw_state's `CullFace`, a plain enum of faces to cull, with its variants.
#[verifier::external_type_specification]
pub struct ExCullFace(gfx::state::CullFace);

/// Declares draw_state's `RasterMethod` (point, line of an integer width, fill) with its
/// variants.
#[verifier::external_type_specification]
pub struct ExRasterMethod(gfx::state::RasterMethod);

/// Declares draw_state's `Offset`, a pair of public integers, with its fields.
#[verifier::external_type_specification]
pub struct ExOffset(gfx::state::Offset);

/// Declares draw_state's `MultiSample`, a unit struct.
#[verifier::external_type_specification]
pub struct ExMultiSample(gfx::state::MultiSample);

/// Declares draw_state's `Rasterizer` (re-exported as `gfx::state::Rasterizer`) with its
/// public fields, so that contracts can say which rasterizer a builder holds.
#[verifier::external_type_specification]
pub struct ExRasterizer(gfx::state::Rasterizer);

/// The filling rasterizer: counter-clockwise front faces, no culling, no offset, no
/// multi-sampling.
pub open spec fn fill_rasterizer() -> Rasterizer {
    Rasterizer {
        front_face: FrontFace::CounterClockwise,
        cull_face: CullFace::Nothing,
        method: RasterMethod::Fill,
        offset: None,
        samples: None,
    }
}

/// Relies on `gfx::state::Rasterizer::new_fill` (draw_state, `state.rs`), the default
/// rasterizer: it returns that constant and cannot fail.
pub assume_specification[ gfx::state::Rasterizer::new_fill ]() -> (r: gfx::state::Rasterizer)
    ensures
        r == fill_rasterizer(),
;

/// The fixed, non-source parameters of every build: the primitive topology, the
/// rasterizer state and the pipeline signature (`init`).
#[derive(Debug)]
pub struct BuildConfig<I> {
    pub primitive: Primitive,
    pub rasterizer: Rasterizer,
    pub init: I,
}

} // verus!
