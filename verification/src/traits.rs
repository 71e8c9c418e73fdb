//! What scenes, sections and containers share: an outline for debugging.

use vstd::prelude::*;
use crate::paint::steps;
use crate::paint::DrawCommand;
use crate::paint::DrawView;

verus! {

/// A node that can stroke the outline of its rectangle.
pub trait DrawOutline {
    /// The step that strokes the outline.
    spec fn outline(&self) -> DrawView;

    /// Appends the step that strokes the outline to the display list.
    fn draw_outline(&self, out: &mut Vec<DrawCommand>)
        ensures
            steps(final(out)@) == steps(old(out)@).push(self.outline()),
    ;
}

} // verus!
