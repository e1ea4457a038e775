//! The render context and its draw operations.
//!
//! `Canvas` models a flat-color GPU pipeline: a resolution uniform fixed at
//! construction, a name-to-color table, and the mutable per-draw state (one
//! vertex buffer plus the color, translation and rotation uniforms).  Every
//! draw call computes the exact values the GPU receives and records them in
//! the mirrored pipeline state; the application uploads the returned values
//! to the real surface.

use crate::color::{lookup, red_spec, Color, ColorTable};
use crate::geometry::{
    distance, distance_spec, quad_seq, rectangle_vertices, rotation, rotation_spec, COORD_MAX,
    LINE_THICKNESS, SCALE,
};
use vstd::prelude::*;

verus! {

/// The failures of acquiring and preparing a drawing surface.  The
/// library's own computations are total; the application maps the host's
/// surface, shader and buffer failures onto this type.
#[derive(Clone, PartialEq, Eq, Debug)]
pub enum CanvasError {
    /// No surface with the requested identifier exists.
    SurfaceNotFound,
    /// The surface cannot provide a GPU drawing context.
    ContextUnsupported,
    /// A shader failed to compile; carries the compiler's diagnostic.
    ShaderCompile(String),
    /// The shader program failed to link; carries the linker's diagnostic.
    ProgramLink(String),
    /// The vertex buffer could not be allocated.
    BufferAllocation,
    /// A uniform location was not found in the linked program.
    UniformLookup,
}

/// The diagnostic a failed build step carries: the host's log where one
/// was reported, else the given fallback text.
pub open spec fn diagnostic_spec(log: Option<String>, fallback: Seq<char>) -> Seq<char> {
    match log {
        Some(l) => l@,
        None => fallback,
    }
}

/// Decides the outcome of compiling a shader from the host's report:
/// success exactly when the status flag was reported and true; any other
/// report is a `ShaderCompile` error carrying the host's log, or a fixed
/// fallback text where the host reported none.
pub fn compile_shader_outcome(status: Option<bool>, log: Option<String>) -> (r: Result<
    (),
    CanvasError,
>)
    ensures
        r is Ok <==> status == Some(true),
        status != Some(true) ==> (r matches Err(CanvasError::ShaderCompile(msg)) && msg@
            == diagnostic_spec(log, "Unknown error creating shader"@)),
{
    match status {
        Some(true) => Ok(()),
        _ => match log {
            Some(l) => Err(CanvasError::ShaderCompile(l)),
            None => Err(CanvasError::ShaderCompile("Unknown error creating shader".to_owned())),
        },
    }
}

/// Decides the outcome of linking the shader program from the host's
/// report: success exactly when the status flag was reported and true;
/// any other report is a `ProgramLink` error carrying the host's log, or
/// a fixed fallback text where the host reported none.
pub fn link_program_outcome(status: Option<bool>, log: Option<String>) -> (r: Result<
    (),
    CanvasError,
>)
    ensures
        r is Ok <==> status == Some(true),
        status != Some(true) ==> (r matches Err(CanvasError::ProgramLink(msg)) && msg@
            == diagnostic_spec(log, "Unknown error creating program object"@)),
{
    match status {
        Some(true) => Ok(()),
        _ => match log {
            Some(l) => Err(CanvasError::ProgramLink(l)),
            None => Err(
                CanvasError::ProgramLink("Unknown error creating program object".to_owned()),
            ),
        },
    }
}

/// The GPU-side state the library mirrors: the resolution uniform, the
/// vertex buffer contents, and the three per-draw uniforms (unset until
/// the first draw call).
#[derive(PartialEq, Eq, Debug)]
pub struct Pipeline {
    pub resolution: (i64, i64),
    pub buffer: Vec<i64>,
    pub color: Option<Color>,
    pub translation: Option<(i64, i64)>,
    pub rotation: Option<(i64, i64)>,
}

/// The mathematical value of a `Pipeline`.
#[verifier::ext_equal]
pub struct PipelineView {
    pub resolution: (i64, i64),
    pub buffer: Seq<i64>,
    pub color: Option<Color>,
    pub translation: Option<(i64, i64)>,
    pub rotation: Option<(i64, i64)>,
}

impl View for Pipeline {
    type V = PipelineView;

    open spec fn view(&self) -> PipelineView {
        PipelineView {
            resolution: self.resolution,
            buffer: self.buffer@,
            color: self.color,
            translation: self.translation,
            rotation: self.rotation,
        }
    }
}

/// Everything one draw call hands to the GPU: the six quad vertices
/// (x, y interleaved) and the values of the color, translation and
/// rotation uniforms.
#[derive(PartialEq, Eq, Debug)]
pub struct DrawCall {
    pub vertices: Vec<i64>,
    pub color: Color,
    pub translation: (i64, i64),
    pub rotation: (i64, i64),
}

/// The pipeline state after a rectangle draw call: the quad for the given
/// size fills the vertex buffer and the three per-draw uniforms are set;
/// the resolution uniform is untouched.
pub open spec fn rect_draw(
    p: PipelineView,
    x: i64,
    y: i64,
    width: i64,
    height: i64,
    rot_x: i64,
    rot_y: i64,
    col: Color,
) -> PipelineView {
    PipelineView {
        resolution: p.resolution,
        buffer: quad_seq(width, height),
        color: Some(col),
        translation: Some((x, y)),
        rotation: Some((rot_x, rot_y)),
    }
}

/// The pipeline state after a line draw call: a rectangle as long as the
/// line and `LINE_THICKNESS` thick, rotated to the line's direction,
/// positioned at the line's first endpoint.
pub open spec fn line_draw(
    p: PipelineView,
    x1: i64,
    y1: i64,
    x2: i64,
    y2: i64,
    col: Color,
) -> PipelineView {
    let d = distance_spec(x1 as int, y1 as int, x2 as int, y2 as int) as i64;
    let rot = rotation_spec(x2 - x1, y2 - y1);
    rect_draw(p, x1, y1, d, LINE_THICKNESS, rot.0 as i64, rot.1 as i64, col)
}

/// A 2D rendering surface: a fixed resolution, a color table, and the
/// mirrored GPU pipeline state.
///
/// The fields are public so tests and callers can inspect the state; the
/// library offers no mutation beyond the draw calls and never alters the
/// color table after construction, and every contract is stated over the
/// fields as they currently stand, so writing to them directly simply
/// starts the contracts from the written state.
#[derive(PartialEq, Eq, Debug)]
pub struct Canvas {
    /// Identifier of the target drawing surface.
    pub surface_id: String,
    /// Logical width in subpixel units; fixed at construction.
    pub width: i64,
    /// Logical height in subpixel units; fixed at construction.
    pub height: i64,
    /// The name-to-color table.
    pub colors: ColorTable,
    /// Mirror of the GPU pipeline state.
    pub gpu: Pipeline,
}

impl Canvas {
    /// Creates the render context for the surface with the given
    /// identifier and logical size (in subpixel units).  The resolution
    /// uniform is set, exactly once, to that pair; the color table gets
    /// its "red" entry; no per-draw state is set yet.
    pub fn new(id: &str, width: i64, height: i64) -> (c: Canvas)
        requires
            0 < width <= COORD_MAX,
            0 < height <= COORD_MAX,
        ensures
            c.surface_id@ == id@,
            c.width == width,
            c.height == height,
            c.gpu@.resolution == (width, height),
            c.gpu@.buffer.len() == 0,
            c.gpu@.color is None,
            c.gpu@.translation is None,
            c.gpu@.rotation is None,
            c.colors.entries@.len() == 1,
            c.colors.entries@[0].0@ == "red"@,
            c.colors.entries@[0].1 == red_spec(),
    {
        Canvas {
            surface_id: id.to_owned(),
            width,
            height,
            colors: ColorTable::standard(),
            gpu: Pipeline {
                resolution: (width, height),
                buffer: Vec::new(),
                color: None,
                translation: None,
                rotation: None,
            },
        }
    }

    /// Resolves the color name (names absent from the table fall back to
    /// opaque black), rebuilds the vertex buffer with the quad for the
    /// given size, and sets the color, translation and rotation uniforms.
    /// Returns the uploaded values; the resolution uniform, the color
    /// table and the surface identifier are unchanged.
    pub fn draw_rectangle(
        &mut self,
        x: i64,
        y: i64,
        width: i64,
        height: i64,
        rot_x: i64,
        rot_y: i64,
        color: &str,
    ) -> (call: DrawCall)
        ensures
            final(self).gpu@ == rect_draw(
                old(self).gpu@,
                x,
                y,
                width,
                height,
                rot_x,
                rot_y,
                lookup(old(self).colors.entries@, color@),
            ),
            final(self).surface_id == old(self).surface_id,
            final(self).width == old(self).width,
            final(self).height == old(self).height,
            final(self).colors == old(self).colors,
            call.vertices@ == final(self).gpu@.buffer,
            call.color == lookup(old(self).colors.entries@, color@),
            call.translation == (x, y),
            call.rotation == (rot_x, rot_y),
    {
        let col = self.colors.resolve(color);
        self.gpu.buffer = rectangle_vertices(width, height);
        self.gpu.color = Some(col);
        self.gpu.translation = Some((x, y));
        self.gpu.rotation = Some((rot_x, rot_y));
        proof {
            assert(self.gpu@ =~= rect_draw(
                old(self).gpu@,
                x,
                y,
                width,
                height,
                rot_x,
                rot_y,
                lookup(old(self).colors.entries@, color@),
            ));
        }
        DrawCall {
            vertices: rectangle_vertices(width, height),
            color: col,
            translation: (x, y),
            rotation: (rot_x, rot_y),
        }
    }

    /// Draws the line from (x1, y1) to (x2, y2) as a thin oriented
    /// rectangle: its length is the Euclidean distance between the
    /// endpoints, its rotation uniform approximates the (cos a, sin a)
    /// of the line's polar angle a — a valid unit pair up to rounding,
    /// with its squared norm within a few units of SCALE of
    /// SCALE * SCALE — its thickness is the fixed `LINE_THICKNESS`, and
    /// its color is the resolved color name.  A zero-length line gets
    /// distance 0 and the angle-zero rotation (SCALE, 0).
    pub fn draw_line(&mut self, x1: i64, y1: i64, x2: i64, y2: i64, color: &str) -> (call:
        DrawCall)
        requires
            -COORD_MAX <= x1 <= COORD_MAX,
            -COORD_MAX <= y1 <= COORD_MAX,
            -COORD_MAX <= x2 <= COORD_MAX,
            -COORD_MAX <= y2 <= COORD_MAX,
        ensures
            final(self).gpu@ == line_draw(
                old(self).gpu@,
                x1,
                y1,
                x2,
                y2,
                lookup(old(self).colors.entries@, color@),
            ),
            final(self).surface_id == old(self).surface_id,
            final(self).width == old(self).width,
            final(self).height == old(self).height,
            final(self).colors == old(self).colors,
            call.vertices@ == final(self).gpu@.buffer,
            call.color == lookup(old(self).colors.entries@, color@),
            call.translation == (x1, y1),
            (call.rotation.0 as int, call.rotation.1 as int) == rotation_spec(
                x2 - x1,
                y2 - y1,
            ),
            SCALE * SCALE - 4 * SCALE - 1 <= call.rotation.0 * call.rotation.0 + call.rotation.1
                * call.rotation.1,
            call.rotation.0 * call.rotation.0 + call.rotation.1 * call.rotation.1 <= SCALE * SCALE
                + 2 * SCALE + 1,
    {
        let d = distance(x1, y1, x2, y2);
        let rot = rotation(x1, y1, x2, y2);
        self.draw_rectangle(x1, y1, d, LINE_THICKNESS, rot.0, rot.1, color)
    }
}

/// Idempotence of drawing: issuing the same rectangle draw call twice
/// leaves exactly the pipeline state of issuing it once; no state
/// accumulates between draw calls.
pub proof fn lemma_draw_idempotent(
    p: PipelineView,
    x: i64,
    y: i64,
    width: i64,
    height: i64,
    rot_x: i64,
    rot_y: i64,
    col: Color,
)
    ensures
        rect_draw(
            rect_draw(p, x, y, width, height, rot_x, rot_y, col),
            x,
            y,
            width,
            height,
            rot_x,
            rot_y,
            col,
        ) == rect_draw(p, x, y, width, height, rot_x, rot_y, col),
{
}

/// Idempotence for lines: drawing the same line twice leaves exactly the
/// pipeline state of drawing it once.
pub proof fn lemma_line_draw_idempotent(
    p: PipelineView,
    x1: i64,
    y1: i64,
    x2: i64,
    y2: i64,
    col: Color,
)
    ensures
        line_draw(line_draw(p, x1, y1, x2, y2, col), x1, y1, x2, y2, col) == line_draw(
            p,
            x1,
            y1,
            x2,
            y2,
            col,
        ),
{
}

/// The resolution uniform is set once at construction and never altered:
/// no draw call changes it.
pub proof fn lemma_resolution_constant(
    p: PipelineView,
    x: i64,
    y: i64,
    width: i64,
    height: i64,
    rot_x: i64,
    rot_y: i64,
    col: Color,
)
    ensures
        rect_draw(p, x, y, width, height, rot_x, rot_y, col).resolution == p.resolution,
        line_draw(p, x, y, width, height, col).resolution == p.resolution,
{
}

} // verus!
