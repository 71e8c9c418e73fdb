//! A named interior node: a container with a fractional size.

use vstd::prelude::*;
use crate::component::Event;
use crate::paint::emit;
use crate::paint::steps;
use crate::paint::Color;
use crate::paint::DrawCommand;
use crate::paint::DrawView;
use crate::span::Payload;
use crate::span::PayloadView;
use crate::component::Position;
use crate::container::Container;
use crate::container::ContainerView;
use crate::container::Scrollable;
use crate::content::Content;
use crate::content::ContentView;
use crate::registry::StateProto;
use crate::span::Span;
use crate::traits::DrawOutline;
use crate::units::clip;
use crate::units::portion;
use crate::units::sat_sub;
use crate::units::spec_portion;
use crate::units::FULL;

verus! {

/// The mathematical content of a section.
pub struct SectionView {
    pub name: Seq<char>,
    pub id: u64,
    /// The drawing order that the section reports.
    pub order: u8,
    pub x: int,
    pub y: int,
    pub w: int,
    pub h: int,
    pub width: u32,
    pub height: u32,
    pub container: ContainerView,
}

impl SectionView {
    /// The identifiers of the section and of every node below it.
    pub open spec fn ids(self) -> Seq<u64>
        decreases self,
    {
        seq![self.id] + self.container.ids()
    }

    /// The worlds that a logical update of the section advances, in order.
    pub open spec fn due(self) -> Seq<u64>
        decreases self,
    {
        self.container.due()
    }

    /// What the section draws when containers are outlined too: its outline,
    /// then its container with an outline of its own.
    pub open spec fn sketch(self) -> Seq<DrawView>
        decreases self,
    {
        seq![DrawView::Outline { color: Color::Accent, x: self.x, y: self.y, w: self.w, h: self.h }]
            + self.container.sketch()
    }

    /// What the section draws: its outline, then its items.
    pub open spec fn paint(self) -> Seq<DrawView>
        decreases self,
    {
        seq![DrawView::Outline { color: Color::Accent, x: self.x, y: self.y, w: self.w, h: self.h }]
            + self.container.paint()
    }

    /// The section after the message `data` was handed to every span below it
    /// whose identifier is `id`.
    pub open spec fn told(self, id: u64, data: PayloadView) -> SectionView
        decreases self,
    {
        SectionView { container: self.container.told(id, data), ..self }
    }

    /// The sections that handle an event at `pos`, in the order in which they
    /// handle it: none unless `pos` lies inside this section, else those
    /// inside its container followed by the section itself.
    pub open spec fn hits(self, pos: Position) -> Seq<u64>
        decreases self,
    {
        if pos.spec_in_rec(self.x, self.y, self.w, self.h) {
            self.container.hits(pos).push(self.id)
        } else {
            Seq::empty()
        }
    }

    /// The section after it was offered the area from `(left, top)` to
    /// `(right, bottom)`: it takes its fractions of the area and lays its
    /// container out in the rectangle it took.
    pub open spec fn resized(self, left: int, top: int, right: int, bottom: int) -> SectionView
        decreases self,
    {
        let w = clip(spec_portion(self.width, clip(right - left)));
        let h = clip(spec_portion(self.height, clip(bottom - top)));
        SectionView { x: left, y: top, w, h, container: self.container.resized(left, top, w, h), ..self }
    }
}

pub struct Section {
    name: String,
    id: u64,
    order: u8,
    container: Container,
    x: i64,
    y: i64,
    w: i64,
    h: i64,
    width: u32,
    height: u32,
}

impl Section {
    pub closed spec fn model(self) -> SectionView
        decreases self,
    {
        SectionView {
            name: self.name@,
            id: self.id,
            order: self.order,
            x: self.x as int,
            y: self.y as int,
            w: self.w as int,
            h: self.h as int,
            width: self.width,
            height: self.height,
            container: self.container.model(),
        }
    }

    /// The content of a new section around a container.
    pub open spec fn spec_around(
        id: u64,
        name: Seq<char>,
        width: u32,
        height: u32,
        container: ContainerView,
    ) -> SectionView {
        SectionView {
            name,
            id,
            order: 0,
            x: 0,
            y: 0,
            w: 0,
            h: 0,
            width: if width > FULL { FULL } else { width },
            height: if height > FULL { FULL } else { height },
            container,
        }
    }

    /// The content of a new section with a container of its own.
    pub open spec fn spec_new(id: u64, name: Seq<char>, width: u32, height: u32, padding: u32) -> SectionView {
        Section::spec_around(
            id,
            name,
            width,
            height,
            ContainerView {
                scroll: Scrollable::Flow,
                padding: crate::container::Padding {
                    x: padding,
                    y: padding,
                    min_x: 2,
                    max_x: 2,
                    min_y: 4,
                    max_y: 4,
                },
                x: 0,
                y: 0,
                left: 0,
                right: 0,
                top: 0,
                bottom: 0,
                items: Seq::empty(),
            },
        )
    }

    /// A section that is not laid out yet, around the given container. It
    /// gets the next identifier of `state`; fractions above the whole count as
    /// the whole.
    pub fn new_with_container(
        state: &mut StateProto,
        name: &str,
        width: u32,
        height: u32,
        container: Container,
    ) -> (section: Section)
        requires
            old(state).can_issue(),
        ensures
            final(state).issued_from(old(state)),
            section@ == Section::spec_around(old(state).next_id(), name@, width, height, container@),
    {
        let id = state.issue();
        Section {
            name: name.to_owned(),
            id,
            order: 0,
            container,
            x: 0,
            y: 0,
            w: 0,
            h: 0,
            width: if width > FULL { FULL } else { width },
            height: if height > FULL { FULL } else { height },
        }
    }

    /// A section that is not laid out yet, with an empty flowing container
    /// whose padding is `padding` thousandths of its width, held to 2 pixels
    /// across and 4 pixels down.
    pub fn new(state: &mut StateProto, name: &str, width: u32, height: u32, padding: u32) -> (section: Section)
        requires
            old(state).can_issue(),
        ensures
            final(state).issued_from(old(state)),
            section@ == Section::spec_new(old(state).next_id(), name@, width, height, padding),
    {
        let container = Container::new(padding, padding, 2, 2, 4, 4, Scrollable::Flow);
        Section::new_with_container(state, name, width, height, container)
    }

    pub fn get_name(&self) -> (name: &str)
        ensures
            name@ == self@.name,
    {
        self.name.as_str()
    }

    pub fn get_id(&self) -> (id: u64)
        ensures
            id == self@.id,
    {
        self.id
    }

    /// The section's rectangle `(x, y, w, h)`.
    pub fn rect(&self) -> (r: (i64, i64, i64, i64))
        ensures
            r.0 == self@.x,
            r.1 == self@.y,
            r.2 == self@.w,
            r.3 == self@.h,
    {
        (self.x, self.y, self.w, self.h)
    }

    /// The section's container.
    pub fn get_container(&self) -> (c: &Container)
        ensures
            c@ == self@.container,
    {
        &self.container
    }

    /// The drawing order that the section reports: `0` unless it was set.
    pub fn get_order(&self) -> (order: u8)
        ensures
            order == self@.order,
    {
        self.order
    }

    /// Sets the drawing order that the section reports. Items are drawn in
    /// the order in which they were added, whatever they report.
    pub fn set_order(&mut self, order: u8)
        ensures
            final(self)@ == (SectionView { order, ..old(self)@ }),
    {
        self.order = order;
    }

    /// Adds `section` as the last item without naming it in the registry.
    pub fn add_section(&mut self, section: Section)
        ensures
            final(self)@ == (SectionView {
                container: old(self)@.container.with_item(ContentView::Section(section@)),
                ..old(self)@
            }),
    {
        self.container.register(Content::Section { section });
    }

    /// Names `section` in the registry, then adds it as the last item.
    pub fn register_section(&mut self, state: &mut StateProto, section: Section)
        ensures
            final(state)@ == old(state)@.with_section(section@.name, section@.id),
            final(self)@ == (SectionView {
                container: old(self)@.container.with_item(ContentView::Section(section@)),
                ..old(self)@
            }),
    {
        state.register_section(&section);
        self.container.register(Content::Section { section });
    }

    /// Adds `span` as the last item without naming it in the registry.
    pub fn add_span(&mut self, span: Span)
        ensures
            final(self)@ == (SectionView {
                container: old(self)@.container.with_item(ContentView::Span(span@)),
                ..old(self)@
            }),
    {
        self.container.register(Content::Span { span });
    }

    /// Names `span` in the registry, then adds it as the last item.
    pub fn register_span(&mut self, state: &mut StateProto, span: Span)
        ensures
            final(state)@ == old(state)@.with_span(span@.name, span@.id),
            final(self)@ == (SectionView {
                container: old(self)@.container.with_item(ContentView::Span(span@)),
                ..old(self)@
            }),
    {
        state.register_span(&span);
        self.container.register(Content::Span { span });
    }

    /// Appends the identifiers of the section and of every node below it.
    pub fn collect_ids(&self, out: &mut Vec<u64>)
        ensures
            final(out)@ == old(out)@ + self@.ids(),
        decreases self,
    {
        out.push(self.id);
        self.container.collect_ids(out);
        assert(out@ =~= old(out)@ + self@.ids());
    }

    /// A logical update: the section stays as it is, and the worlds below it
    /// that the host is to advance are appended to `due`.
    pub fn tick(&mut self, due: &mut Vec<u64>)
        ensures
            final(self)@ == old(self)@,
            final(due)@ == old(due)@ + old(self)@.due(),
        decreases *old(self),
    {
        self.container.tick(due);
    }

    /// Appends what the section draws when containers are outlined too.
    pub fn draw(&self, out: &mut Vec<DrawCommand>)
        ensures
            steps(final(out)@) == steps(old(out)@) + self@.sketch(),
        decreases self,
    {
        self.draw_outline(out);
        self.container.draw(out);
        assert(steps(out@) =~= steps(old(out)@) + self@.sketch());
    }

    /// Appends the section's outline and what its items draw to the display
    /// list.
    pub fn render_tick(&self, out: &mut Vec<DrawCommand>)
        ensures
            steps(final(out)@) == steps(old(out)@) + self@.paint(),
        decreases self,
    {
        self.draw_outline(out);
        self.container.render_tick(out);
        assert(steps(out@) =~= steps(old(out)@) + self@.paint());
    }

    /// Hands `data` to every span below the section whose identifier is `id`.
    pub fn dispatch(&mut self, id: u64, data: &Payload)
        ensures
            final(self)@ == old(self)@.told(id, data@),
        decreases *old(self),
    {
        self.container.dispatch(id, data);
    }

    /// Marks the event as handled by this section. It is not consumed.
    fn consume_event(&self, ev: &mut Event)
        ensures
            final(ev).trail@ == old(ev).trail@.push(self@.id),
            final(ev).pos == old(ev).pos,
            final(ev).ev == old(ev).ev,
            final(ev).consumed == old(ev).consumed,
    {
        ev.trail.push(self.id);
    }

    /// Routes an event that lies inside the section to its container, then
    /// handles it. An event outside is dropped.
    pub fn dispatch_event(&self, ev: &mut Event)
        ensures
            final(ev).trail@ == old(ev).trail@ + self@.hits(old(ev).pos),
            final(ev).pos == old(ev).pos,
            final(ev).ev == old(ev).ev,
            final(ev).consumed == old(ev).consumed,
        decreases self,
    {
        if ev.pos.in_rec(self.x, self.y, self.w, self.h) {
            self.container.dispatch_event(ev);
            self.consume_event(ev);
            assert(ev.trail@ =~= old(ev).trail@ + self@.hits(old(ev).pos));
        } else {
            assert(ev.trail@ =~= old(ev).trail@ + self@.hits(old(ev).pos));
        }
    }

    /// Lays the section out in the area from `(left, top)` to
    /// `(right, bottom)` and replies with the size it took.
    pub fn on_resize(&mut self, left: i64, top: i64, right: i64, bottom: i64) -> (reply: (i64, i64, bool))
        ensures
            final(self)@ == old(self)@.resized(left as int, top as int, right as int, bottom as int),
            reply.0 == final(self)@.w,
            reply.1 == final(self)@.h,
            reply.2,
        decreases *old(self),
    {
        self.x = left;
        self.y = top;
        self.w = portion(self.width, sat_sub(right, left));
        self.h = portion(self.height, sat_sub(bottom, top));
        self.container.on_resize(self.x, self.y, self.w, self.h);
        (self.w, self.h, true)
    }
}

impl DrawOutline for Section {
    open spec fn outline(&self) -> DrawView {
        DrawView::Outline { color: Color::Accent, x: self@.x, y: self@.y, w: self@.w, h: self@.h }
    }

    fn draw_outline(&self, out: &mut Vec<DrawCommand>) {
        emit(out, DrawCommand::Outline { color: Color::Accent, x: self.x, y: self.y, w: self.w, h: self.h });
    }
}

impl View for Section {
    type V = SectionView;

    open spec fn view(&self) -> SectionView {
        self.model()
    }
}

} // verus!
