use line_canvas::color::{black, red, Color, ColorTable};

#[test]
fn red_maps_to_full_red() {
    let t = ColorTable::standard();
    assert_eq!(
        t.resolve("red"),
        Color { r: 255, g: 0, b: 0, a: 255 }
    );
    assert_eq!(t.resolve("red"), red());
}

#[test]
fn unknown_names_fall_back_to_black() {
    let t = ColorTable::standard();
    let b = Color { r: 0, g: 0, b: 0, a: 255 };
    assert_eq!(t.resolve("black"), b);
    assert_eq!(t.resolve("blue"), b);
    assert_eq!(t.resolve(""), b);
    assert_eq!(t.resolve("RED"), b);
    assert_eq!(t.resolve("black"), black());
}

#[test]
fn resolution_is_deterministic() {
    let t = ColorTable::standard();
    assert_eq!(t.resolve("red"), t.resolve("red"));
    assert_eq!(t.resolve("teal"), t.resolve("teal"));
}

#[test]
fn standard_table_has_one_entry() {
    let t = ColorTable::standard();
    assert_eq!(t.entries.len(), 1);
    assert_eq!(t.entries[0].0, "red");
    assert_eq!(t.entries[0].1, red());
}
