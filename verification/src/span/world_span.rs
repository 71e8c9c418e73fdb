//! The place of a three-dimensional world in the tree. The world itself and
//! its renderer live with the host; the tree keeps the span's name and
//! rectangle, which is the viewport that the renderer is told after a resize.

use vstd::prelude::*;
use crate::registry::StateProto;
use crate::paint::emit;
use crate::paint::DrawCommand;
use crate::component::Event;
use crate::span::Payload;
use crate::span::SpanTrait;
use crate::span::SpanKind;
use crate::span::SpanView;
use crate::units::portion;
use crate::units::sat_sub;
use crate::units::FULL;

verus! {

pub struct WorldSpan {
    name: String,
    id: u64,
    text: String,
    x: i64,
    y: i64,
    w: i64,
    h: i64,
    width: u32,
    height: u32,
}

impl View for WorldSpan {
    type V = SpanView;

    closed spec fn view(&self) -> SpanView {
        SpanView {
            kind: SpanKind::World,
            name: self.name@,
            id: self.id,
            text: self.text@,
            x: self.x as int,
            y: self.y as int,
            w: self.w as int,
            h: self.h as int,
            width: self.width,
            height: self.height,
            font: None,
        }
    }
}

impl WorldSpan {
    /// A world span that is not laid out yet. It gets the next identifier of
    /// `state`; fractions above the whole count as the whole.
    pub fn new(state: &mut StateProto, name: &str, text: &str, width: u32, height: u32) -> (span: WorldSpan)
        requires
            old(state).can_issue(),
        ensures
            final(state).issued_from(old(state)),
            span@ == (SpanView {
                kind: SpanKind::World,
                name: name@,
                id: old(state).next_id(),
                text: text@,
                x: 0,
                y: 0,
                w: 0,
                h: 0,
                width: if width > FULL { FULL } else { width },
                height: if height > FULL { FULL } else { height },
                font: None,
            }),
    {
        let id = state.issue();
        WorldSpan {
            name: name.to_owned(),
            id,
            text: text.to_owned(),
            x: 0,
            y: 0,
            w: 0,
            h: 0,
            width: if width > FULL { FULL } else { width },
            height: if height > FULL { FULL } else { height },
        }
    }

    pub fn get_id(&self) -> (id: u64)
        ensures
            id == self@.id,
    {
        self.id
    }

    pub fn set_text(&mut self, text: &str)
        ensures
            final(self)@ == (SpanView { text: text@, ..old(self)@ }),
    {
        self.text = text.to_owned();
    }

    /// The viewport `(x, y, w, h)` that the world's renderer draws into.
    pub fn viewport(&self) -> (v: (i64, i64, i64, i64))
        ensures
            v.0 == self@.x,
            v.1 == self@.y,
            v.2 == self@.w,
            v.3 == self@.h,
    {
        (self.x, self.y, self.w, self.h)
    }
}

impl SpanTrait for WorldSpan {
    open spec fn model(&self) -> SpanView {
        self@
    }

    fn get_name(&self) -> (name: &str) {
        self.name.as_str()
    }

    fn dispatch_event(&self, ev: &mut Event) {
    }

    /// A text becomes the span's text; anything else is ignored.
    fn dispatch(&mut self, data: &Payload) {
        match data {
            Payload::Text(s) => {
                self.text = s.clone();
            },
            _ => {},
        }
    }

    fn tick(&mut self, due: &mut Vec<u64>) {
        due.push(self.id);
        assert(due@ =~= old(due)@ + old(self)@.due());
    }

    fn draw(&self, out: &mut Vec<DrawCommand>) {
        assert(crate::paint::steps(out@) =~= crate::paint::steps(old(out)@) + self@.sketch());
    }

    /// The world's turn to draw.
    fn render_tick(&self, out: &mut Vec<DrawCommand>) {
        emit(out, DrawCommand::World { id: self.id, x: self.x, y: self.y, w: self.w, h: self.h });
        assert(crate::paint::steps(out@) =~= crate::paint::steps(old(out)@) + self@.paint());
    }

    fn on_resize(&mut self, left: i64, top: i64, right: i64, bottom: i64) -> (reply: (i64, i64, bool)) {
        self.x = left;
        self.y = top;
        self.w = portion(self.width, sat_sub(right, left));
        self.h = portion(self.height, sat_sub(bottom, top));
        (0, 0, true)
    }

    fn get_order(&self) -> (order: u8) {
        0
    }
}

} // verus!
