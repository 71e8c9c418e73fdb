//! An item of a container: a section or a span.

use vstd::prelude::*;
use crate::component::Event;
use crate::paint::DrawCommand;
use crate::paint::DrawView;
use crate::paint::steps;
use crate::span::Payload;
use crate::span::PayloadView;
use crate::component::Position;
use crate::section::Section;
use crate::section::SectionView;
use crate::span::Span;
use crate::span::SpanTrait;
use crate::span::SpanView;
use crate::units::clip;
use crate::units::spec_portion;

verus! {

/// Where an item is aligned to.
#[derive(Clone, Copy, Debug, PartialEq, Eq, Structural)]
pub enum Alignment {
    Left,
    Right,
    Top,
    Bottom,
}

/// The mathematical content of an item.
pub enum ContentView {
    Section(SectionView),
    Span(SpanView),
}

impl ContentView {
    /// The size that the item asks its container for when it is offered the
    /// area from `(left, top)` to `(right, bottom)`: a section asks for its
    /// fractions of the area, a span for nothing.
    pub open spec fn reply(self, left: int, top: int, right: int, bottom: int) -> (int, int) {
        match self {
            ContentView::Section(s) => (
                clip(spec_portion(s.width, clip(right - left))),
                clip(spec_portion(s.height, clip(bottom - top))),
            ),
            ContentView::Span(_) => (0, 0),
        }
    }

    /// The sections that handle an event at `pos`: those of a section, and
    /// none for a span.
    pub open spec fn hits(self, pos: Position) -> Seq<u64>
        decreases self,
    {
        match self {
            ContentView::Section(s) => s.hits(pos),
            ContentView::Span(_) => Seq::empty(),
        }
    }

    /// The item's rectangle `(x, y, w, h)`.
    pub open spec fn frame(self) -> (int, int, int, int) {
        match self {
            ContentView::Section(s) => (s.x, s.y, s.w, s.h),
            ContentView::Span(s) => (s.x, s.y, s.w, s.h),
        }
    }

    /// The drawing order that the item reports: that of a section, and `0`
    /// for a span.
    pub open spec fn order(self) -> u8 {
        match self {
            ContentView::Section(s) => s.order,
            ContentView::Span(_) => 0,
        }
    }

    /// The item's fractions `(width, height)` of the area it is offered.
    pub open spec fn fractions(self) -> (u32, u32) {
        match self {
            ContentView::Section(s) => (s.width, s.height),
            ContentView::Span(s) => (s.width, s.height),
        }
    }

    /// The identifiers of the item and of every node below it.
    pub open spec fn ids(self) -> Seq<u64>
        decreases self,
    {
        match self {
            ContentView::Section(s) => s.ids(),
            ContentView::Span(s) => seq![s.id],
        }
    }

    /// The worlds that a logical update of the item advances, in order.
    pub open spec fn due(self) -> Seq<u64>
        decreases self,
    {
        match self {
            ContentView::Section(s) => s.due(),
            ContentView::Span(s) => s.due(),
        }
    }

    /// What the item draws when containers are outlined too.
    pub open spec fn sketch(self) -> Seq<DrawView>
        decreases self,
    {
        match self {
            ContentView::Section(s) => s.sketch(),
            ContentView::Span(s) => s.sketch(),
        }
    }

    /// What the item draws.
    pub open spec fn paint(self) -> Seq<DrawView>
        decreases self,
    {
        match self {
            ContentView::Section(s) => s.paint(),
            ContentView::Span(s) => s.paint(),
        }
    }

    /// The item after the message `data` was handed to every span below it
    /// whose identifier is `id`.
    pub open spec fn told(self, id: u64, data: PayloadView) -> ContentView
        decreases self,
    {
        match self {
            ContentView::Section(s) => ContentView::Section(s.told(id, data)),
            ContentView::Span(s) => ContentView::Span(if s.id == id { s.told(data) } else { s }),
        }
    }

    /// The item after it was laid out in the offered area.
    pub open spec fn resized(self, left: int, top: int, right: int, bottom: int) -> ContentView
        decreases self,
    {
        match self {
            ContentView::Section(s) => ContentView::Section(s.resized(left, top, right, bottom)),
            ContentView::Span(s) => ContentView::Span(s.resized(left, top, right, bottom)),
        }
    }
}

pub enum Content {
    Section { section: Section },
    Span { span: Span },
}

impl Content {
    pub open spec fn model(self) -> ContentView
        decreases self,
    {
        match self {
            Content::Section { section } => ContentView::Section(section.model()),
            Content::Span { span } => ContentView::Span(span@),
        }
    }

    /// Lays the item out in the area from `(left, top)` to `(right, bottom)`
    /// and replies with the size it asks for. The size always fits.
    pub fn on_resize(&mut self, left: i64, top: i64, right: i64, bottom: i64) -> (reply: (i64, i64, bool))
        ensures
            final(self)@ == old(self)@.resized(left as int, top as int, right as int, bottom as int),
            (reply.0 as int, reply.1 as int) == old(self)@.reply(
                left as int,
                top as int,
                right as int,
                bottom as int,
            ),
            reply.2,
        decreases *old(self),
    {
        match self {
            Content::Section { section } => section.on_resize(left, top, right, bottom),
            Content::Span { span } => {
                span.on_resize(left, top, right, bottom);
                (0, 0, true)
            },
        }
    }

    /// Routes an event into a section. A span lets it pass.
    pub fn dispatch_event(&self, ev: &mut Event)
        ensures
            final(ev).trail@ == old(ev).trail@ + self@.hits(old(ev).pos),
            final(ev).pos == old(ev).pos,
            final(ev).ev == old(ev).ev,
            final(ev).consumed == old(ev).consumed,
        decreases self,
    {
        match self {
            Content::Section { section } => section.dispatch_event(ev),
            Content::Span { span } => {
                span.dispatch_event(ev);
                assert(ev.trail@ =~= old(ev).trail@ + self@.hits(old(ev).pos));
            },
        }
    }

    /// Appends the identifiers of the item and of every node below it.
    pub fn collect_ids(&self, out: &mut Vec<u64>)
        ensures
            final(out)@ == old(out)@ + self@.ids(),
        decreases self,
    {
        match self {
            Content::Section { section } => section.collect_ids(out),
            Content::Span { span } => {
                out.push(span.get_id());
                assert(out@ =~= old(out)@ + self@.ids());
            },
        }
    }

    /// A logical update: the item stays as it is, and the worlds below it
    /// that the host is to advance are appended to `due`.
    pub fn tick(&mut self, due: &mut Vec<u64>)
        ensures
            final(self)@ == old(self)@,
            final(due)@ == old(due)@ + old(self)@.due(),
        decreases *old(self),
    {
        match self {
            Content::Section { section } => section.tick(due),
            Content::Span { span } => span.tick(due),
        }
    }

    /// Appends what the item draws when containers are outlined too.
    pub fn draw(&self, out: &mut Vec<DrawCommand>)
        ensures
            steps(final(out)@) == steps(old(out)@) + self@.sketch(),
        decreases self,
    {
        match self {
            Content::Section { section } => section.draw(out),
            Content::Span { span } => span.draw(out),
        }
    }

    /// Appends what the item draws to the display list.
    pub fn render_tick(&self, out: &mut Vec<DrawCommand>)
        ensures
            steps(final(out)@) == steps(old(out)@) + self@.paint(),
        decreases self,
    {
        match self {
            Content::Section { section } => section.render_tick(out),
            Content::Span { span } => span.render_tick(out),
        }
    }

    /// Hands `data` to every span below the item whose identifier is `id`.
    pub fn dispatch(&mut self, id: u64, data: &Payload)
        ensures
            final(self)@ == old(self)@.told(id, data@),
        decreases *old(self),
    {
        match self {
            Content::Section { section } => section.dispatch(id, data),
            Content::Span { span } => {
                if span.get_id() == id {
                    span.dispatch(data);
                }
            },
        }
    }

    /// The drawing order of the item: that of its section or span.
    pub fn get_order_value(&self) -> (order: u8)
        ensures
            order == self@.order(),
    {
        match self {
            Content::Section { section } => section.get_order(),
            Content::Span { span } => span.get_order(),
        }
    }
}

impl View for Content {
    type V = ContentView;

    open spec fn view(&self) -> ContentView {
        self.model()
    }
}

} // verus!
