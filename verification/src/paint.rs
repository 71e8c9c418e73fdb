//! The display list: what a render pass asks the host surface to draw, in
//! order.

use vstd::prelude::*;

verus! {

/// The colours that the tree draws with.
#[derive(Clone, Copy, Debug, PartialEq, Eq, Structural)]
pub enum Color {
    /// The green of the outlines of scenes and sections.
    Accent,
    /// The white of text.
    White,
}

impl Color {
    /// The colour as the host surface spells it.
    pub fn css(&self) -> (name: &'static str)
        ensures
            name@ == match self {
                Color::Accent => "#07ce88"@,
                Color::White => "white"@,
            },
    {
        match self {
            Color::Accent => "#07ce88",
            Color::White => "white",
        }
    }
}

/// One drawing step.
pub enum DrawCommand {
    /// Clear the rectangle.
    Clear { x: i64, y: i64, w: i64, h: i64 },
    /// Stroke the outline of the rectangle.
    Outline { color: Color, x: i64, y: i64, w: i64, h: i64 },
    /// Fill `text` in white, centered on `(x, y)`, in Arial of `font` pixels.
    /// Where `font` is `None` no size is cached for the span `id`: the size is
    /// the best fit for a text `fit` pixels wide, held to the range of font
    /// sizes.
    Text { id: u64, text: String, font: Option<u32>, fit: i64, x: i64, y: i64 },
    /// Let the world of the span `id` draw itself into the rectangle.
    World { id: u64, x: i64, y: i64, w: i64, h: i64 },
}

/// The mathematical content of a drawing step.
pub enum DrawView {
    Clear { x: int, y: int, w: int, h: int },
    Outline { color: Color, x: int, y: int, w: int, h: int },
    Text { id: u64, text: Seq<char>, font: Option<u32>, fit: int, x: int, y: int },
    World { id: u64, x: int, y: int, w: int, h: int },
}

impl View for DrawCommand {
    type V = DrawView;

    open spec fn view(&self) -> DrawView {
        match self {
            DrawCommand::Clear { x, y, w, h } => DrawView::Clear {
                x: *x as int,
                y: *y as int,
                w: *w as int,
                h: *h as int,
            },
            DrawCommand::Outline { color, x, y, w, h } => DrawView::Outline {
                color: *color,
                x: *x as int,
                y: *y as int,
                w: *w as int,
                h: *h as int,
            },
            DrawCommand::Text { id, text, font, fit, x, y } => DrawView::Text {
                id: *id,
                text: text@,
                font: *font,
                fit: *fit as int,
                x: *x as int,
                y: *y as int,
            },
            DrawCommand::World { id, x, y, w, h } => DrawView::World {
                id: *id,
                x: *x as int,
                y: *y as int,
                w: *w as int,
                h: *h as int,
            },
        }
    }
}

/// The content of a display list, step by step.
pub open spec fn steps(list: Seq<DrawCommand>) -> Seq<DrawView> {
    Seq::new(list.len(), |i: int| list[i]@)
}

/// Appends one step to a display list.
pub fn emit(out: &mut Vec<DrawCommand>, step: DrawCommand)
    ensures
        steps(final(out)@) == steps(old(out)@).push(step@),
{
    out.push(step);
    assert(steps(out@) =~= steps(old(out)@).push(step@));
}

} // verus!
