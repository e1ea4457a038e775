//! Colors and the name-to-color table.
//!
//! A color is an RGBA quadruple with one byte per channel; `255` is full
//! intensity (the application divides by 255 to obtain the normalized
//! channel values the fragment shader consumes).  The table maps color
//! names to colors; a name absent from the table resolves to opaque black.

use vstd::prelude::*;

verus! {

/// An RGBA color; each channel ranges over `0..=255`, where 255 stands for
/// full intensity (1.0 in normalized channel units).
#[derive(Clone, Copy, PartialEq, Eq, Structural, Debug)]
pub struct Color {
    pub r: u8,
    pub g: u8,
    pub b: u8,
    pub a: u8,
}

/// Opaque black, the fallback for unrecognized color names.
pub open spec fn black_spec() -> Color {
    Color { r: 0, g: 0, b: 0, a: 255 }
}

/// Full red.
pub open spec fn red_spec() -> Color {
    Color { r: 255, g: 0, b: 0, a: 255 }
}

pub fn black() -> (c: Color)
    ensures
        c == black_spec(),
{
    Color { r: 0, g: 0, b: 0, a: 255 }
}

pub fn red() -> (c: Color)
    ensures
        c == red_spec(),
{
    Color { r: 255, g: 0, b: 0, a: 255 }
}

/// The color a name resolves to in a table: the color of the first entry
/// whose name matches, or opaque black when no entry matches.
pub open spec fn lookup(entries: Seq<(String, Color)>, name: Seq<char>) -> Color
    decreases entries.len(),
{
    if entries.len() == 0 {
        black_spec()
    } else if entries[0].0@ == name {
        entries[0].1
    } else {
        lookup(entries.drop_first(), name)
    }
}

/// String equality on the character sequences.
fn str_eq(a: &str, b: &str) -> (r: bool)
    ensures
        r == (a@ == b@),
{
    let sa: String = a.to_owned();
    let sb: String = b.to_owned();
    sa == sb
}

/// A mapping from color names to colors.
#[derive(Clone, PartialEq, Eq, Debug)]
pub struct ColorTable {
    pub entries: Vec<(String, Color)>,
}

impl ColorTable {
    /// The table the renderer starts with: a single "red" entry.
    pub fn standard() -> (t: ColorTable)
        ensures
            t.entries@.len() == 1,
            t.entries@[0].0@ == "red"@,
            t.entries@[0].1 == red_spec(),
    {
        let mut entries: Vec<(String, Color)> = Vec::new();
        entries.push(("red".to_owned(), red()));
        ColorTable { entries }
    }

    /// Resolves a color name; names absent from the table resolve to
    /// opaque black.
    pub fn resolve(&self, name: &str) -> (c: Color)
        ensures
            c == lookup(self.entries@, name@),
    {
        let n = self.entries.len();
        let mut i: usize = 0;
        proof {
            assert(self.entries@.skip(0) =~= self.entries@);
        }
        while i < n
            invariant
                0 <= i <= n,
                n == self.entries@.len(),
                lookup(self.entries@, name@) == lookup(self.entries@.skip(i as int), name@),
            decreases n - i,
        {
            let entry = &self.entries[i];
            if str_eq(entry.0.as_str(), name) {
                proof {
                    assert(self.entries@.skip(i as int)[0] == self.entries@[i as int]);
                }
                return entry.1;
            }
            proof {
                assert(self.entries@.skip(i as int)[0] == self.entries@[i as int]);
                assert(self.entries@.skip(i as int).drop_first() =~= self.entries@.skip(
                    i as int + 1,
                ));
            }
            i = i + 1;
        }
        proof {
            assert(self.entries@.skip(n as int) =~= Seq::<(String, Color)>::empty());
        }
        black()
    }
}

/// Color resolution law for the standard table: "red" resolves to full
/// red, and any other name resolves to opaque black.  Resolution is a
/// pure function of the table and the name.
pub proof fn lemma_color_resolution(entries: Seq<(String, Color)>, name: Seq<char>)
    requires
        entries.len() == 1,
        entries[0].0@ == "red"@,
        entries[0].1 == red_spec(),
    ensures
        name == "red"@ ==> lookup(entries, name) == red_spec(),
        name != "red"@ ==> lookup(entries, name) == black_spec(),
{
    if entries[0].0@ != name {
        assert(entries.drop_first().len() == 0);
        assert(lookup(entries.drop_first(), name) == black_spec());
    }
}

} // verus!
