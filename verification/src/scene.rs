//! A scene: the top-level screen under a path, a container inside margins.

use vstd::prelude::*;
use crate::component::Event;
use crate::component::Position;
use crate::container::Container;
use crate::container::ContainerView;
use crate::container::Padding;
use crate::container::Scrollable;
use crate::content::Content;
use crate::content::ContentView;
use crate::paint::emit;
use crate::paint::steps;
use crate::paint::Color;
use crate::paint::DrawCommand;
use crate::paint::DrawView;
use crate::registry::StateProto;
use crate::section::Section;
use crate::span::Payload;
use crate::span::PayloadView;
use crate::span::Span;
use crate::traits::DrawOutline;
use crate::units::clip;
use crate::units::pad;
use crate::units::sat_add;
use crate::units::sat_sub;
use crate::units::spec_pad;

verus! {

/// The size of the surface, in pixels.
#[derive(Clone, Copy, Debug, PartialEq, Eq, Structural)]
pub struct CanvasMeta {
    pub w: u32,
    pub h: u32,
}

/// The mathematical content of a scene.
pub struct SceneView {
    pub path: Seq<char>,
    pub x: int,
    pub y: int,
    pub w: int,
    pub h: int,
    /// The margin rule: fractions of the surface in thousandths, and the least
    /// and greatest margin in pixels.
    pub margin: Padding,
    pub container: ContainerView,
}

impl SceneView {
    /// The margin across: a fraction of the surface's width.
    pub open spec fn margin_x(self, meta: CanvasMeta) -> int {
        spec_pad(meta.w as int, self.margin.x, self.margin.min_x, self.margin.max_x)
    }

    /// The margin down: a fraction of the surface's height.
    pub open spec fn margin_y(self, meta: CanvasMeta) -> int {
        spec_pad(meta.h as int, self.margin.y, self.margin.min_y, self.margin.max_y)
    }

    /// The scene after a layout on a surface of the given size. The corner is
    /// at the margins; the width is what the margin down leaves of the
    /// surface's width on both sides, and the height what the margin across
    /// leaves of its height.
    pub open spec fn resized(self, meta: CanvasMeta) -> SceneView {
        let mx = self.margin_x(meta);
        let my = self.margin_y(meta);
        let w = clip(meta.w - clip(my + my));
        let h = clip(meta.h - clip(mx + mx));
        SceneView { x: mx, y: my, w, h, container: self.container.resized(mx, my, w, h), ..self }
    }

    /// The sections that handle an event at `pos`: none unless `pos` lies
    /// inside the scene.
    pub open spec fn hits(self, pos: Position) -> Seq<u64> {
        if pos.spec_in_rec(self.x, self.y, self.w, self.h) {
            self.container.hits(pos)
        } else {
            Seq::empty()
        }
    }

    /// The identifiers of every node in the scene.
    pub open spec fn ids(self) -> Seq<u64> {
        self.container.ids()
    }

    /// The worlds that a logical update of the scene advances, in order.
    pub open spec fn due(self) -> Seq<u64> {
        self.container.due()
    }

    /// What the scene draws when containers are outlined too: its container,
    /// without an outline of its own.
    pub open spec fn sketch(self) -> Seq<DrawView> {
        self.container.sketch()
    }

    /// What the scene draws: its outline, then its items.
    pub open spec fn paint(self) -> Seq<DrawView> {
        seq![DrawView::Outline { color: Color::Accent, x: self.x, y: self.y, w: self.w, h: self.h }]
            + self.container.paint()
    }

    /// The scene after the message `data` was handed to every span in it
    /// whose identifier is `id`.
    pub open spec fn told(self, id: u64, data: PayloadView) -> SceneView {
        SceneView { container: self.container.told(id, data), ..self }
    }

    /// The scene with one more item at the end.
    pub open spec fn with_item(self, item: ContentView) -> SceneView {
        SceneView { container: self.container.with_item(item), ..self }
    }
}

/// The scene that an application starts with.
pub open spec fn spec_default_scene() -> SceneView {
    SceneView {
        path: Seq::empty(),
        x: 0,
        y: 0,
        w: 0,
        h: 0,
        margin: Padding { x: 200, y: 200, min_x: 10, max_x: 20, min_y: 10, max_y: 20 },
        container: ContainerView {
            scroll: Scrollable::Flow,
            padding: Padding { x: 20, y: 20, min_x: 4, max_x: 4, min_y: 8, max_y: 8 },
            x: 0,
            y: 0,
            left: 0,
            right: 0,
            top: 0,
            bottom: 0,
            items: Seq::empty(),
        },
    }
}

pub struct Scene {
    path: String,
    container: Container,
    x: i64,
    y: i64,
    h: i64,
    w: i64,
    margin_x: u32,
    margin_y: u32,
    margin_min_x: u32,
    margin_max_x: u32,
    margin_min_y: u32,
    margin_max_y: u32,
}

impl View for Scene {
    type V = SceneView;

    closed spec fn view(&self) -> SceneView {
        SceneView {
            path: self.path@,
            x: self.x as int,
            y: self.y as int,
            w: self.w as int,
            h: self.h as int,
            margin: Padding {
                x: self.margin_x,
                y: self.margin_y,
                min_x: self.margin_min_x,
                max_x: self.margin_max_x,
                min_y: self.margin_min_y,
                max_y: self.margin_max_y,
            },
            container: self.container@,
        }
    }
}

impl DrawOutline for Scene {
    open spec fn outline(&self) -> DrawView {
        DrawView::Outline { color: Color::Accent, x: self@.x, y: self@.y, w: self@.w, h: self@.h }
    }

    fn draw_outline(&self, out: &mut Vec<DrawCommand>) {
        emit(out, DrawCommand::Outline { color: Color::Accent, x: self.x, y: self.y, w: self.w, h: self.h });
    }
}

impl Scene {
    /// The scene that an application starts with: the empty path, margins of a
    /// fifth of the surface held between 10 and 20 pixels, and an empty
    /// flowing container padded by 4 pixels across and 8 pixels down.
    pub fn default() -> (scene: Scene)
        ensures
            scene@ == spec_default_scene(),
    {
        let path = String::new();
        assert(path@ =~= Seq::empty());
        Scene {
            path,
            container: Container::new(20, 20, 4, 4, 8, 8, Scrollable::Flow),
            x: 0,
            y: 0,
            h: 0,
            w: 0,
            margin_x: 200,
            margin_y: 200,
            margin_min_x: 10,
            margin_max_x: 20,
            margin_min_y: 10,
            margin_max_y: 20,
        }
    }

    /// A scene under `path` with the given margin rule, around `container`.
    pub fn new(
        path: &str,
        margin_x: u32,
        margin_y: u32,
        margin_min_x: u32,
        margin_max_x: u32,
        margin_min_y: u32,
        margin_max_y: u32,
        container: Container,
    ) -> (scene: Scene)
        ensures
            scene@ == (SceneView {
                path: path@,
                x: 0,
                y: 0,
                w: 0,
                h: 0,
                margin: Padding {
                    x: margin_x,
                    y: margin_y,
                    min_x: margin_min_x,
                    max_x: margin_max_x,
                    min_y: margin_min_y,
                    max_y: margin_max_y,
                },
                container: container@,
            }),
    {
        Scene {
            path: path.to_owned(),
            container,
            x: 0,
            y: 0,
            h: 0,
            w: 0,
            margin_x,
            margin_y,
            margin_min_x,
            margin_max_x,
            margin_min_y,
            margin_max_y,
        }
    }

    pub fn get_path(&self) -> (path: &str)
        ensures
            path@ == self@.path,
    {
        self.path.as_str()
    }

    /// The scene's rectangle `(x, y, w, h)`.
    pub fn rect(&self) -> (r: (i64, i64, i64, i64))
        ensures
            r.0 == self@.x,
            r.1 == self@.y,
            r.2 == self@.w,
            r.3 == self@.h,
    {
        (self.x, self.y, self.w, self.h)
    }

    /// The scene's container.
    pub fn get_container(&self) -> (c: &Container)
        ensures
            c@ == self@.container,
    {
        &self.container
    }

    /// Appends the identifiers of every node in the scene.
    pub fn collect_ids(&self, out: &mut Vec<u64>)
        ensures
            final(out)@ == old(out)@ + self@.ids(),
    {
        self.container.collect_ids(out);
    }

    /// A logical update: the scene stays as it is, and the worlds in it that
    /// the host is to advance are appended to `due`.
    pub fn tick(&mut self, due: &mut Vec<u64>)
        ensures
            final(self)@ == old(self)@,
            final(due)@ == old(due)@ + old(self)@.due(),
    {
        self.container.tick(due);
    }

    /// A scene does nothing of its own on a mouse move.
    pub fn on_mouse_move(&mut self, x: i64, y: i64)
        ensures
            final(self)@ == old(self)@,
    {
    }

    /// Appends what the scene draws when containers are outlined too.
    pub fn draw(&self, out: &mut Vec<DrawCommand>)
        ensures
            steps(final(out)@) == steps(old(out)@) + self@.sketch(),
    {
        self.container.draw(out);
    }

    /// Appends the scene's outline and what its items draw to the display
    /// list.
    pub fn render_tick(&self, out: &mut Vec<DrawCommand>)
        ensures
            steps(final(out)@) == steps(old(out)@) + self@.paint(),
    {
        self.draw_outline(out);
        self.container.render_tick(out);
        assert(steps(out@) =~= steps(old(out)@) + self@.paint());
    }

    /// Lays the scene out on a surface of the given size.
    pub fn on_resize(&mut self, meta: &CanvasMeta)
        ensures
            final(self)@ == old(self)@.resized(*meta),
    {
        let margin_x: i64 = pad(meta.w as i64, self.margin_x, self.margin_min_x, self.margin_max_x);
        let margin_y: i64 = pad(meta.h as i64, self.margin_y, self.margin_min_y, self.margin_max_y);
        self.h = sat_sub(meta.h as i64, sat_add(margin_x, margin_x));
        self.w = sat_sub(meta.w as i64, sat_add(margin_y, margin_y));
        self.x = margin_x;
        self.y = margin_y;
        self.container.on_resize(self.x, self.y, self.w, self.h);
    }

    /// Routes an event that lies inside the scene to its container. An event
    /// outside is dropped.
    pub fn dispatch_event(&self, ev: &mut Event)
        ensures
            final(ev).trail@ == old(ev).trail@ + self@.hits(old(ev).pos),
            final(ev).pos == old(ev).pos,
            final(ev).ev == old(ev).ev,
            final(ev).consumed == old(ev).consumed,
    {
        if ev.pos.in_rec(self.x, self.y, self.w, self.h) {
            self.container.dispatch_event(ev);
        } else {
            assert(ev.trail@ =~= old(ev).trail@ + self@.hits(old(ev).pos));
        }
    }

    /// Hands `data` to every span in the scene whose identifier is `id`.
    pub fn dispatch(&mut self, id: u64, data: &Payload)
        ensures
            final(self)@ == old(self)@.told(id, data@),
    {
        self.container.dispatch(id, data);
    }

    /// Adds `section` as the last item without naming it in the registry.
    pub fn add_section(&mut self, section: Section)
        ensures
            final(self)@ == old(self)@.with_item(ContentView::Section(section@)),
    {
        self.container.register(Content::Section { section });
    }

    /// Names `section` in the registry, then adds it as the last item.
    pub fn register_section(&mut self, state: &mut StateProto, section: Section)
        ensures
            final(state)@ == old(state)@.with_section(section@.name, section@.id),
            final(self)@ == old(self)@.with_item(ContentView::Section(section@)),
    {
        state.register_section(&section);
        self.container.register(Content::Section { section });
    }

    /// Adds `span` as the last item without naming it in the registry.
    pub fn add_span(&mut self, span: Span)
        ensures
            final(self)@ == old(self)@.with_item(ContentView::Span(span@)),
    {
        self.container.register(Content::Span { span });
    }

    /// Names `span` in the registry, then adds it as the last item.
    pub fn register_span(&mut self, state: &mut StateProto, span: Span)
        ensures
            final(state)@ == old(state)@.with_span(span@.name, span@.id),
            final(self)@ == old(self)@.with_item(ContentView::Span(span@)),
    {
        state.register_span(&span);
        self.container.register(Content::Span { span });
    }
}

} // verus!
