//! Spans: the leaves of the tree.

use vstd::prelude::*;
use crate::component::Event;
use crate::paint::steps;
use crate::paint::DrawCommand;
use crate::paint::DrawView;
use crate::span::text_span::spec_fit_width;
use crate::units::clip;
use crate::units::spec_portion;

pub mod text_span;
pub mod world_span;

pub use self::text_span::TextSpan;
pub use self::world_span::WorldSpan;

verus! {

/// What a span draws.
#[derive(Clone, Copy, Debug, PartialEq, Eq, Structural)]
pub enum SpanKind {
    Text,
    World,
}

/// The mathematical content of a span.
pub struct SpanView {
    pub kind: SpanKind,
    pub name: Seq<char>,
    pub id: u64,
    pub text: Seq<char>,
    pub x: int,
    pub y: int,
    pub w: int,
    pub h: int,
    pub width: u32,
    pub height: u32,
    /// The cached font size in pixels, if one was chosen since the last resize.
    pub font: Option<u32>,
}

impl SpanView {
    /// The span after it was offered the area from `(left, top)` to
    /// `(right, bottom)`: it takes its fractions of the area, and forgets its
    /// font.
    pub open spec fn resized(self, left: int, top: int, right: int, bottom: int) -> SpanView {
        SpanView {
            x: left,
            y: top,
            w: clip(spec_portion(self.width, clip(right - left))),
            h: clip(spec_portion(self.height, clip(bottom - top))),
            font: None,
            ..self
        }
    }

    /// The middle of the span.
    pub open spec fn center(self) -> (int, int) {
        (clip(self.x + spec_portion(500, self.w)), clip(self.y + spec_portion(500, self.h)))
    }

    /// What the span draws: a text draws itself around its middle, a world is
    /// handed its rectangle.
    pub open spec fn paint(self) -> Seq<DrawView> {
        match self.kind {
            SpanKind::Text => seq![
                DrawView::Text {
                    id: self.id,
                    text: self.text,
                    font: self.font,
                    fit: spec_fit_width(self.w),
                    x: self.center().0,
                    y: self.center().1,
                },
            ],
            SpanKind::World => seq![DrawView::World { id: self.id, x: self.x, y: self.y, w: self.w, h: self.h }],
        }
    }

    /// What the span draws when containers are outlined too: a text as
    /// always, a world nothing.
    pub open spec fn sketch(self) -> Seq<DrawView> {
        match self.kind {
            SpanKind::Text => self.paint(),
            SpanKind::World => Seq::empty(),
        }
    }

    /// The worlds that a logical update of the span advances: its own, if it
    /// holds one.
    pub open spec fn due(self) -> Seq<u64> {
        match self.kind {
            SpanKind::Text => Seq::empty(),
            SpanKind::World => seq![self.id],
        }
    }

    /// The span after the message `data`: a text becomes its text and clears
    /// the cached font; a fitted size is cached, held to the range of font
    /// sizes, where a text span has none cached; a viewport changes nothing.
    pub open spec fn told(self, data: PayloadView) -> SpanView {
        match data {
            PayloadView::Text(text) => self.retold(text),
            PayloadView::Fit(best) => if self.kind == SpanKind::Text && self.font is None {
                SpanView { font: Some(crate::span::text_span::spec_font_size(best)), ..self }
            } else {
                self
            },
            PayloadView::Viewport(_, _, _, _) => self,
        }
    }

    /// The span with another text and no cached font.
    pub open spec fn retold(self, text: Seq<char>) -> SpanView {
        SpanView { text, font: None, ..self }
    }
}

/// A message handed to a span.
pub enum Payload {
    /// A new text.
    Text(String),
    /// The best-fit font size, in pixels, that was measured for a text.
    Fit(u32),
    /// A viewport `(x, y, w, h)`, which only a world's renderer understands.
    Viewport(i64, i64, i64, i64),
}

/// The mathematical content of a message.
pub enum PayloadView {
    Text(Seq<char>),
    Fit(u32),
    Viewport(int, int, int, int),
}

impl View for Payload {
    type V = PayloadView;

    open spec fn view(&self) -> PayloadView {
        match self {
            Payload::Text(s) => PayloadView::Text(s@),
            Payload::Fit(best) => PayloadView::Fit(*best),
            Payload::Viewport(x, y, w, h) => PayloadView::Viewport(*x as int, *y as int, *w as int, *h as int),
        }
    }
}

/// A leaf of the tree.
pub enum Span {
    Text(TextSpan),
    World(WorldSpan),
}

impl View for Span {
    type V = SpanView;

    open spec fn view(&self) -> SpanView {
        match self {
            Span::Text(t) => t@,
            Span::World(w) => w@,
        }
    }
}

/// What every span can do.
pub trait SpanTrait {
    /// The mathematical content of the span.
    spec fn model(&self) -> SpanView;

    fn get_name(&self) -> (name: &str)
        ensures
            name@ == self.model().name,
    ;

    /// Takes an event that was routed to the span. A span lets it pass.
    fn dispatch_event(&self, ev: &mut Event)
        ensures
            final(ev).trail@ == old(ev).trail@,
            final(ev).pos == old(ev).pos,
            final(ev).ev == old(ev).ev,
            final(ev).consumed == old(ev).consumed,
    ;

    /// Takes a message: see [`SpanView::told`].
    fn dispatch(&mut self, data: &Payload)
        ensures
            final(self).model() == old(self).model().told(data@),
    ;

    /// A logical update: the span stays as it is, and names the world that
    /// the host is to advance, if it holds one.
    fn tick(&mut self, due: &mut Vec<u64>)
        ensures
            final(self).model() == old(self).model(),
            final(due)@ == old(due)@ + old(self).model().due(),
    ;

    /// Appends what the span draws when containers are outlined too.
    fn draw(&self, out: &mut Vec<DrawCommand>)
        ensures
            steps(final(out)@) == steps(old(out)@) + self.model().sketch(),
    ;

    /// Appends what the span draws to the display list.
    fn render_tick(&self, out: &mut Vec<DrawCommand>)
        ensures
            steps(final(out)@) == steps(old(out)@) + self.model().paint(),
    ;

    /// Lays the span out in the area from `(left, top)` to `(right, bottom)`.
    /// The reply asks for no room: spans leave the cursor of their container
    /// where it is.
    fn on_resize(&mut self, left: i64, top: i64, right: i64, bottom: i64) -> (reply: (i64, i64, bool))
        ensures
            final(self).model() == old(self).model().resized(
                left as int,
                top as int,
                right as int,
                bottom as int,
            ),
            reply == (0i64, 0i64, true),
    ;

    /// The drawing order of the span: always `0`.
    fn get_order(&self) -> (order: u8)
        ensures
            order == 0,
    ;
}

impl Span {
    pub fn get_id(&self) -> (id: u64)
        ensures
            id == self@.id,
    {
        match self {
            Span::Text(t) => t.get_id(),
            Span::World(w) => w.get_id(),
        }
    }
}

impl SpanTrait for Span {
    open spec fn model(&self) -> SpanView {
        self@
    }

    fn get_name(&self) -> (name: &str) {
        match self {
            Span::Text(t) => t.get_name(),
            Span::World(w) => w.get_name(),
        }
    }

    fn dispatch_event(&self, ev: &mut Event) {
        match self {
            Span::Text(t) => t.dispatch_event(ev),
            Span::World(w) => w.dispatch_event(ev),
        }
    }

    fn dispatch(&mut self, data: &Payload) {
        match self {
            Span::Text(t) => t.dispatch(data),
            Span::World(w) => w.dispatch(data),
        }
    }

    fn tick(&mut self, due: &mut Vec<u64>) {
        match self {
            Span::Text(t) => t.tick(due),
            Span::World(w) => w.tick(due),
        }
    }

    fn draw(&self, out: &mut Vec<DrawCommand>) {
        match self {
            Span::Text(t) => t.draw(out),
            Span::World(w) => w.draw(out),
        }
    }

    fn render_tick(&self, out: &mut Vec<DrawCommand>) {
        match self {
            Span::Text(t) => t.render_tick(out),
            Span::World(w) => w.render_tick(out),
        }
    }

    fn on_resize(&mut self, left: i64, top: i64, right: i64, bottom: i64) -> (reply: (i64, i64, bool)) {
        match self {
            Span::Text(t) => t.on_resize(left, top, right, bottom),
            Span::World(w) => w.on_resize(left, top, right, bottom),
        }
    }

    fn get_order(&self) -> (order: u8) {
        0
    }
}

} // verus!
