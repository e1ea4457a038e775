use line_canvas::canvas::{
    compile_shader_outcome, link_program_outcome, Canvas, CanvasError,
};
use line_canvas::color::Color;

const BLACK: Color = Color { r: 0, g: 0, b: 0, a: 255 };
const RED: Color = Color { r: 255, g: 0, b: 0, a: 255 };

#[test]
fn construction_sets_resolution_once() {
    let c = Canvas::new("canvas", 750_000, 500_000);
    assert_eq!(c.surface_id, "canvas");
    assert_eq!(c.width, 750_000);
    assert_eq!(c.height, 500_000);
    assert_eq!(c.gpu.resolution, (750_000, 500_000));
    assert!(c.gpu.buffer.is_empty());
    assert_eq!(c.gpu.color, None);
    assert_eq!(c.gpu.translation, None);
    assert_eq!(c.gpu.rotation, None);
}

#[test]
fn resolution_survives_draw_calls() {
    let mut c = Canvas::new("canvas", 750_000, 500_000);
    c.draw_line(300_000, 250_000, 400_000, 200_000, "black");
    c.draw_rectangle(1, 2, 3, 4, 1000, 0, "red");
    c.draw_line(0, 0, 0, 0, "red");
    assert_eq!(c.gpu.resolution, (750_000, 500_000));
    assert_eq!(c.width, 750_000);
    assert_eq!(c.height, 500_000);
}

#[test]
fn diagonal_black_line() {
    // line (300,250) -> (400,200) px: distance sqrt(100^2 + 50^2) = 111.803 px,
    // angle atan2(-50, 100) = -0.4636 rad, "black" is not in the table
    let mut c = Canvas::new("canvas", 750_000, 500_000);
    let call = c.draw_line(300_000, 250_000, 400_000, 200_000, "black");
    assert_eq!(call.translation, (300_000, 250_000));
    assert_eq!(call.rotation, (894, -447));
    assert_eq!(call.color, BLACK);
    let w = 111_803; // the line's length in subpixels
    let h = 5000; // the fixed thickness
    assert_eq!(call.vertices, vec![0, 0, h, 0, 0, w, 0, w, h, 0, h, w]);
    assert_eq!(c.gpu.buffer, call.vertices);
    assert_eq!(c.gpu.color, Some(BLACK));
    assert_eq!(c.gpu.translation, Some((300_000, 250_000)));
    assert_eq!(c.gpu.rotation, Some((894, -447)));
}

#[test]
fn horizontal_red_line() {
    // line (30,30) -> (70,30) px: distance 40 px, angle 0, rotation (1, 0)
    let mut c = Canvas::new("canvas", 750_000, 500_000);
    let call = c.draw_line(30_000, 30_000, 70_000, 30_000, "red");
    assert_eq!(call.translation, (30_000, 30_000));
    assert_eq!(call.rotation, (1000, 0));
    assert_eq!(call.color, RED);
    let w = 40_000;
    let h = 5000;
    assert_eq!(call.vertices, vec![0, 0, h, 0, 0, w, 0, w, h, 0, h, w]);
}

#[test]
fn zero_length_line_draws_without_failing() {
    let mut c = Canvas::new("canvas", 750_000, 500_000);
    let call = c.draw_line(40_000, 40_000, 40_000, 40_000, "red");
    assert_eq!(call.rotation, (1000, 0)); // (cos 0, sin 0)
    assert_eq!(call.vertices, vec![0, 0, 5000, 0, 0, 0, 0, 0, 5000, 0, 5000, 0]);
    assert_eq!(call.translation, (40_000, 40_000));
}

#[test]
fn rectangle_uniforms_and_buffer() {
    let mut c = Canvas::new("canvas", 100_000, 100_000);
    let call = c.draw_rectangle(7, 8, 20, 10, 500, -500, "nope");
    assert_eq!(call.color, BLACK);
    assert_eq!(call.translation, (7, 8));
    assert_eq!(call.rotation, (500, -500));
    assert_eq!(call.vertices, vec![0, 0, 10, 0, 0, 20, 0, 20, 10, 0, 10, 20]);
    assert_eq!(c.gpu.buffer, call.vertices);
}

#[test]
fn repeated_draw_is_idempotent() {
    let mut once = Canvas::new("canvas", 750_000, 500_000);
    let mut twice = Canvas::new("canvas", 750_000, 500_000);
    let a = once.draw_line(30_000, 30_000, 70_000, 30_000, "red");
    let b1 = twice.draw_line(30_000, 30_000, 70_000, 30_000, "red");
    let b2 = twice.draw_line(30_000, 30_000, 70_000, 30_000, "red");
    assert_eq!(a, b1);
    assert_eq!(b1, b2);
    assert_eq!(once.gpu, twice.gpu);
    assert_eq!(once, twice);
}

#[test]
fn subpixel_line_keeps_rotation_precision() {
    let mut c = Canvas::new("canvas", 750_000, 500_000);
    let call = c.draw_line(10, 10, 11, 11, "red");
    assert_eq!(call.rotation, (707, 707));
    assert_eq!(call.vertices[5], 1); // the diagonal is one subpixel long
}

#[test]
fn shader_outcomes_follow_reported_status() {
    assert!(compile_shader_outcome(Some(true), None).is_ok());
    assert_eq!(
        compile_shader_outcome(Some(false), Some(String::from("bad GLSL"))),
        Err(CanvasError::ShaderCompile(String::from("bad GLSL")))
    );
    assert_eq!(
        compile_shader_outcome(None, None),
        Err(CanvasError::ShaderCompile(String::from(
            "Unknown error creating shader"
        )))
    );
    assert!(link_program_outcome(Some(true), Some(String::from("ignored"))).is_ok());
    assert_eq!(
        link_program_outcome(Some(false), None),
        Err(CanvasError::ProgramLink(String::from(
            "Unknown error creating program object"
        )))
    );
}

#[test]
fn error_variants_carry_diagnostics() {
    let e = CanvasError::ShaderCompile(String::from("bad GLSL"));
    assert_eq!(e, CanvasError::ShaderCompile(String::from("bad GLSL")));
    assert_ne!(e, CanvasError::ProgramLink(String::from("bad GLSL")));
    assert_ne!(CanvasError::SurfaceNotFound, CanvasError::ContextUnsupported);
    assert_ne!(CanvasError::BufferAllocation, CanvasError::UniformLookup);
    match e {
        CanvasError::ShaderCompile(msg) => assert_eq!(msg, "bad GLSL"),
        _ => panic!("wrong variant"),
    }
}
