use line_canvas::canvas::Canvas;
use line_canvas::scene::scene;

#[test]
fn scene_has_nine_segments_in_draw_order() {
    let v = scene();
    assert_eq!(v.len(), 9);
    // the stick figure, in black
    assert_eq!((v[0].x1, v[0].y1, v[0].x2, v[0].y2), (300_000, 250_000, 400_000, 200_000));
    assert_eq!((v[4].x1, v[4].y1, v[4].x2, v[4].y2), (300_000, 350_000, 300_000, 250_000));
    for s in v.iter().take(5) {
        assert_eq!(s.color, "black");
    }
    // the small square, in red
    assert_eq!((v[5].x1, v[5].y1, v[5].x2, v[5].y2), (30_000, 30_000, 70_000, 30_000));
    assert_eq!((v[8].x1, v[8].y1, v[8].x2, v[8].y2), (70_000, 70_000, 70_000, 30_000));
    for s in v.iter().skip(5) {
        assert_eq!(s.color, "red");
    }
}

#[test]
fn scene_draws_on_a_canvas() {
    let mut c = Canvas::new("canvas", 750_000, 500_000);
    for s in scene() {
        c.draw_line(s.x1, s.y1, s.x2, s.y2, s.color.as_str());
    }
    // the last segment is the square's right edge: 40 px long, pointing -y
    assert_eq!(c.gpu.translation, Some((70_000, 70_000)));
    assert_eq!(c.gpu.rotation, Some((0, -1000)));
    assert_eq!(c.gpu.resolution, (750_000, 500_000));
}
