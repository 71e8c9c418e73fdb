//! The layout engine: an ordered list of items inside a padded rectangle,
//! placed one after another at a cursor that a wrap policy moves.

use vstd::prelude::*;
use crate::component::Event;
use crate::paint::steps;
use crate::paint::DrawCommand;
use crate::paint::DrawView;
use crate::paint::emit;
use crate::paint::Color;
use crate::span::Payload;
use crate::traits::DrawOutline;
use crate::span::PayloadView;
use crate::component::Position;
use crate::content::Content;
use crate::content::ContentView;
use crate::units::clip;
use crate::units::pad;
use crate::units::sat_add;
use crate::units::sat_sub;
use crate::units::spec_pad;

verus! {

/// How a container moves its cursor after it has placed an item.
#[derive(Clone, Copy, Debug, PartialEq, Eq, Structural)]
pub enum Scrollable {
    /// Along a row.
    X,
    /// Down a column.
    Y,
    /// Along a row, starting a new row at the right edge.
    Flow,
}

/// A padding or margin rule for both axes: the fractions in thousandths, and
/// the least and greatest padding in pixels.
#[derive(Clone, Copy, Debug, PartialEq, Eq, Structural)]
pub struct Padding {
    pub x: u32,
    pub y: u32,
    pub min_x: u32,
    pub max_x: u32,
    pub min_y: u32,
    pub max_y: u32,
}

/// The mathematical content of a container.
pub struct ContainerView {
    pub scroll: Scrollable,
    pub padding: Padding,
    /// The cursor: where the next item would be placed.
    pub x: int,
    pub y: int,
    pub left: int,
    pub right: int,
    pub top: int,
    pub bottom: int,
    pub items: Seq<ContentView>,
}

/// The cursor after an item that asked for `w` by `h` pixels was placed at
/// `(x, y)`.
pub open spec fn spec_advance(
    scroll: Scrollable,
    x: int,
    y: int,
    w: int,
    h: int,
    left: int,
    top: int,
    right: int,
    bottom: int,
) -> (int, int) {
    match scroll {
        Scrollable::X => (clip(x + w), if y >= bottom { top } else { y }),
        Scrollable::Y => (if x >= right { left } else { x }, clip(y + h)),
        Scrollable::Flow => if clip(x + w) >= right {
            (left, clip(y + h))
        } else {
            (clip(x + w), y)
        },
    }
}

/// The cursor before the item at index `k` of `items` is placed, when the
/// first item is placed at the left top corner of `area` and each item moves
/// the cursor by the size it asks for.
pub open spec fn spec_cursor(
    items: Seq<ContentView>,
    scroll: Scrollable,
    area: (int, int, int, int),
    k: nat,
) -> (int, int)
    decreases k,
{
    if k == 0 || k > items.len() {
        (area.0, area.1)
    } else {
        let before = spec_cursor(items, scroll, area, (k - 1) as nat);
        let asked = items[k - 1].reply(before.0, before.1, area.2, area.3);
        spec_advance(scroll, before.0, before.1, asked.0, asked.1, area.0, area.1, area.2, area.3)
    }
}

impl ContainerView {
    /// The padded rectangle `(left, top, right, bottom)` inside the rectangle
    /// with corner `(x, y)`, width `w` and height `h`. Both paddings are taken
    /// from the width.
    pub open spec fn padded(self, x: int, y: int, w: int, h: int) -> (int, int, int, int) {
        let pad_x = spec_pad(w, self.padding.x, self.padding.min_x, self.padding.max_x);
        let pad_y = spec_pad(w, self.padding.y, self.padding.min_y, self.padding.max_y);
        (clip(x + pad_x), clip(y + pad_y), clip(clip(x + w) - pad_x), clip(clip(y + h) - pad_y))
    }

    /// The cursor before the item at index `k` is placed, in a layout whose
    /// padded rectangle is `area`. With `k` the number of items it is the
    /// cursor after the layout.
    pub open spec fn cursor_at(self, area: (int, int, int, int), k: nat) -> (int, int) {
        spec_cursor(self.items, self.scroll, area, k)
    }

    /// The container after a layout in the rectangle with corner `(x, y)`,
    /// width `w` and height `h`: every item is laid out once, in order, at the
    /// cursor, and is offered the area from the cursor to the right and bottom
    /// edges of the padded rectangle.
    pub open spec fn resized(self, x: int, y: int, w: int, h: int) -> ContainerView
        decreases self,
    {
        let area = self.padded(x, y, w, h);
        let end = self.cursor_at(area, self.items.len());
        ContainerView {
            x: end.0,
            y: end.1,
            left: area.0,
            top: area.1,
            right: area.2,
            bottom: area.3,
            items: Seq::new(
                self.items.len(),
                |i: int|
                    if 0 <= i < self.items.len() {
                        self.items[i].resized(
                            self.cursor_at(area, i as nat).0,
                            self.cursor_at(area, i as nat).1,
                            area.2,
                            area.3,
                        )
                    } else {
                        arbitrary()
                    },
            ),
            ..self
        }
    }

    /// The sections that handle an event at `pos` among the first `k` items,
    /// in the order in which they handle it.
    pub open spec fn hits_upto(self, pos: Position, k: nat) -> Seq<u64>
        decreases self, k,
    {
        if k == 0 || k > self.items.len() {
            Seq::empty()
        } else {
            self.hits_upto(pos, (k - 1) as nat) + self.items[k - 1].hits(pos)
        }
    }

    /// The sections that handle an event at `pos`, in the order in which they
    /// handle it: none unless `pos` lies inside the padded rectangle, else
    /// those of each item in turn.
    pub open spec fn hits(self, pos: Position) -> Seq<u64>
        decreases self, self.items.len() + 1,
    {
        if pos.spec_in_area(self.left, self.top, self.right, self.bottom) {
            self.hits_upto(pos, self.items.len())
        } else {
            Seq::empty()
        }
    }

    /// The identifiers of the first `k` items and of every node below them.
    pub open spec fn ids_upto(self, k: nat) -> Seq<u64>
        decreases self, k,
    {
        if k == 0 || k > self.items.len() {
            Seq::empty()
        } else {
            self.ids_upto((k - 1) as nat) + self.items[k - 1].ids()
        }
    }

    /// The identifiers of every node below the container.
    pub open spec fn ids(self) -> Seq<u64>
        decreases self, self.items.len() + 1,
    {
        self.ids_upto(self.items.len())
    }

    /// The worlds that a logical update of the first `k` items advances.
    pub open spec fn due_upto(self, k: nat) -> Seq<u64>
        decreases self, k,
    {
        if k == 0 || k > self.items.len() {
            Seq::empty()
        } else {
            self.due_upto((k - 1) as nat) + self.items[k - 1].due()
        }
    }

    /// The worlds that a logical update of the container advances: those of
    /// its items, in order.
    pub open spec fn due(self) -> Seq<u64>
        decreases self, self.items.len() + 1,
    {
        self.due_upto(self.items.len())
    }

    /// The step that strokes the padded rectangle in white.
    pub open spec fn frame_step(self) -> DrawView {
        DrawView::Outline {
            color: Color::White,
            x: self.left,
            y: self.top,
            w: clip(self.right - self.left),
            h: clip(self.bottom - self.top),
        }
    }

    /// What the container and its first `k` items draw when containers are
    /// outlined too.
    pub open spec fn sketch_upto(self, k: nat) -> Seq<DrawView>
        decreases self, k,
    {
        if k == 0 || k > self.items.len() {
            seq![self.frame_step()]
        } else {
            self.sketch_upto((k - 1) as nat) + self.items[k - 1].sketch()
        }
    }

    /// What the container draws when containers are outlined too: the outline
    /// of its padded rectangle, then its items.
    pub open spec fn sketch(self) -> Seq<DrawView>
        decreases self, self.items.len() + 1,
    {
        self.sketch_upto(self.items.len())
    }

    /// What the first `k` items draw, in order.
    pub open spec fn paint_upto(self, k: nat) -> Seq<DrawView>
        decreases self, k,
    {
        if k == 0 || k > self.items.len() {
            Seq::empty()
        } else {
            self.paint_upto((k - 1) as nat) + self.items[k - 1].paint()
        }
    }

    /// What the container draws: its items, in the order in which they were
    /// added.
    pub open spec fn paint(self) -> Seq<DrawView>
        decreases self, self.items.len() + 1,
    {
        self.paint_upto(self.items.len())
    }

    /// The container after the message `data` was handed to every span below
    /// it whose identifier is `id`.
    pub open spec fn told(self, id: u64, data: PayloadView) -> ContainerView
        decreases self,
    {
        ContainerView {
            items: Seq::new(
                self.items.len(),
                |i: int|
                    if 0 <= i < self.items.len() {
                        self.items[i].told(id, data)
                    } else {
                        arbitrary()
                    },
            ),
            ..self
        }
    }

    /// The container with one more item at the end.
    pub open spec fn with_item(self, item: ContentView) -> ContainerView {
        ContainerView { items: self.items.push(item), ..self }
    }
}

/// The cursor after an item that asked for `w` by `h` pixels was placed at
/// `(x, y)`: see [`spec_advance`].
pub fn advance(
    scroll: Scrollable,
    x: i64,
    y: i64,
    w: i64,
    h: i64,
    left: i64,
    top: i64,
    right: i64,
    bottom: i64,
) -> (next: (i64, i64))
    ensures
        (next.0 as int, next.1 as int) == spec_advance(
            scroll,
            x as int,
            y as int,
            w as int,
            h as int,
            left as int,
            top as int,
            right as int,
            bottom as int,
        ),
{
    match scroll {
        Scrollable::X => (sat_add(x, w), if y >= bottom { top } else { y }),
        Scrollable::Y => (if x >= right { left } else { x }, sat_add(y, h)),
        Scrollable::Flow => {
            let nx: i64 = sat_add(x, w);
            if nx >= right {
                (left, sat_add(y, h))
            } else {
                (nx, y)
            }
        },
    }
}

pub struct Container {
    scroll: Scrollable,
    x: i64,
    y: i64,
    left: i64,
    right: i64,
    top: i64,
    bottom: i64,
    inventory: Vec<Content>,
    padding_x: u32,
    padding_y: u32,
    padding_min_x: u32,
    padding_max_x: u32,
    padding_min_y: u32,
    padding_max_y: u32,
}

impl Container {
    pub closed spec fn model(self) -> ContainerView
        decreases self,
    {
        ContainerView {
            scroll: self.scroll,
            padding: Padding {
                x: self.padding_x,
                y: self.padding_y,
                min_x: self.padding_min_x,
                max_x: self.padding_max_x,
                min_y: self.padding_min_y,
                max_y: self.padding_max_y,
            },
            x: self.x as int,
            y: self.y as int,
            left: self.left as int,
            right: self.right as int,
            top: self.top as int,
            bottom: self.bottom as int,
            items: Seq::new(
                self.inventory.len() as nat,
                |i: int|
                    if 0 <= i < self.inventory.len() {
                        self.inventory[i].model()
                    } else {
                        arbitrary()
                    },
            ),
        }
    }

    /// An empty container with the given padding rule and wrap policy.
    pub fn new(
        padding_x: u32,
        padding_y: u32,
        padding_min_x: u32,
        padding_max_x: u32,
        padding_min_y: u32,
        padding_max_y: u32,
        scroll: Scrollable,
    ) -> (c: Container)
        ensures
            c@ == (ContainerView {
                scroll,
                padding: Padding {
                    x: padding_x,
                    y: padding_y,
                    min_x: padding_min_x,
                    max_x: padding_max_x,
                    min_y: padding_min_y,
                    max_y: padding_max_y,
                },
                x: 0,
                y: 0,
                left: 0,
                right: 0,
                top: 0,
                bottom: 0,
                items: Seq::empty(),
            }),
    {
        let c = Container {
            scroll,
            x: 0,
            y: 0,
            left: 0,
            right: 0,
            top: 0,
            bottom: 0,
            inventory: Vec::new(),
            padding_x,
            padding_y,
            padding_min_x,
            padding_max_x,
            padding_min_y,
            padding_max_y,
        };
        assert(c@.items =~= Seq::empty());
        c
    }

    /// Lays the container and everything below it out in the rectangle with
    /// corner `(x, y)`, width `w` and height `h`.
    pub fn on_resize(&mut self, x: i64, y: i64, w: i64, h: i64)
        ensures
            final(self)@ == old(self)@.resized(x as int, y as int, w as int, h as int),
        decreases *old(self), 1int,
    {
        let padding_x: i64 = pad(w, self.padding_x, self.padding_min_x, self.padding_max_x);
        let padding_y: i64 = pad(w, self.padding_y, self.padding_min_y, self.padding_max_y);
        self.left = sat_add(x, padding_x);
        self.top = sat_add(y, padding_y);
        self.right = sat_sub(sat_add(x, w), padding_x);
        self.bottom = sat_sub(sat_add(y, h), padding_y);
        self.x = self.left;
        self.y = self.top;
        proof {
            assert(self@.items =~= old(self)@.items);
        }
        self.resize(Ghost(*old(self)));
        proof {
            let area = old(self)@.padded(x as int, y as int, w as int, h as int);
            assert(self@.items =~= old(self)@.resized(x as int, y as int, w as int, h as int).items);
        }
    }

    /// Places the items one after another, starting at the cursor. The reply of
    /// an item always fits, so each item is asked exactly once.
    fn resize(&mut self, Ghost(origin): Ghost<Container>)
        requires
            old(self).inventory == origin.inventory,
            old(self)@.x == old(self)@.left,
            old(self)@.y == old(self)@.top,
        ensures
            final(self)@.items.len() == old(self)@.items.len(),
            forall|i: int|
                0 <= i < old(self)@.items.len() ==> #[trigger] final(self)@.items[i] == old(
                    self,
                )@.items[i].resized(
                    old(self)@.cursor_at(old(self)@.area(), i as nat).0,
                    old(self)@.cursor_at(old(self)@.area(), i as nat).1,
                    old(self)@.right,
                    old(self)@.bottom,
                ),
            final(self)@ == (ContainerView {
                x: old(self)@.cursor_at(old(self)@.area(), old(self)@.items.len()).0,
                y: old(self)@.cursor_at(old(self)@.area(), old(self)@.items.len()).1,
                items: final(self)@.items,
                ..old(self)@
            }),
        decreases origin, 0int,
    {
        let ghost start = self@;
        let ghost area = start.area();
        let n = self.inventory.len();
        let mut i: usize = 0;
        while i < n
            invariant
                i <= n,
                n == self.inventory.len(),
                n == origin.inventory.len(),
                start.items.len() == n,
                area == start.area(),
                forall|j: int| i <= j < n ==> #[trigger] self.inventory[j] == origin.inventory[j],
                forall|j: int| i <= j < n ==> #[trigger] self@.items[j] == start.items[j],
                forall|j: int|
                    0 <= j < i ==> #[trigger] self@.items[j] == start.items[j].resized(
                        start.cursor_at(area, j as nat).0,
                        start.cursor_at(area, j as nat).1,
                        start.right,
                        start.bottom,
                    ),
                self@ == (ContainerView {
                    x: start.cursor_at(area, i as nat).0,
                    y: start.cursor_at(area, i as nat).1,
                    items: self@.items,
                    ..start
                }),
            decreases n - i,
        {
            let ghost before = *self;
            let cx = self.x;
            let cy = self.y;
            let right = self.right;
            let bottom = self.bottom;
            let item = &mut self.inventory[i];
            let reply = item.on_resize(cx, cy, right, bottom);
            proof {
                assert(self.inventory@ == before.inventory@.update(i as int, self.inventory@[i as int]));
                assert forall|j: int| 0 <= j < n && j != i implies self@.items[j] == before@.items[j] by {}
                assert(self@.items[i as int] == self.inventory[i as int].model());
                assert(before@.items[i as int] == before.inventory[i as int].model());
            }
            let next = advance(self.scroll, cx, cy, reply.0, reply.1, self.left, self.top, right, bottom);
            self.x = next.0;
            self.y = next.1;
            proof {
                assert(self@.items =~= before@.items.update(i as int, self@.items[i as int]));
            }
            i += 1;
        }
    }

    /// Moves the cursor past an item that asked for `w` by `h` pixels.
    pub fn update_cursor(&mut self, w: i64, h: i64)
        ensures
            final(self)@ == (ContainerView {
                x: spec_advance(
                    old(self)@.scroll,
                    old(self)@.x,
                    old(self)@.y,
                    w as int,
                    h as int,
                    old(self)@.left,
                    old(self)@.top,
                    old(self)@.right,
                    old(self)@.bottom,
                ).0,
                y: spec_advance(
                    old(self)@.scroll,
                    old(self)@.x,
                    old(self)@.y,
                    w as int,
                    h as int,
                    old(self)@.left,
                    old(self)@.top,
                    old(self)@.right,
                    old(self)@.bottom,
                ).1,
                ..old(self)@
            }),
    {
        let next = advance(self.scroll, self.x, self.y, w, h, self.left, self.top, self.right, self.bottom);
        self.x = next.0;
        self.y = next.1;
        proof {
            assert(self@.items =~= old(self)@.items);
        }
    }

    /// Routes an event to the items, in order, if it lies inside the padded
    /// rectangle. The container itself does not handle it.
    pub fn dispatch_event(&self, ev: &mut Event)
        ensures
            final(ev).trail@ == old(ev).trail@ + self@.hits(old(ev).pos),
            final(ev).pos == old(ev).pos,
            final(ev).ev == old(ev).ev,
            final(ev).consumed == old(ev).consumed,
        decreases self,
    {
        if ev.pos.in_area(self.left, self.top, self.right, self.bottom) {
            let n = self.inventory.len();
            let mut i: usize = 0;
            assert(ev.trail@ =~= old(ev).trail@ + self@.hits_upto(old(ev).pos, 0));
            while i < n
                invariant
                    i <= n,
                    n == self.inventory.len(),
                    n == self@.items.len(),
                    ev.trail@ == old(ev).trail@ + self@.hits_upto(old(ev).pos, i as nat),
                    ev.pos == old(ev).pos,
                    ev.ev == old(ev).ev,
                    ev.consumed == old(ev).consumed,
                decreases n - i,
            {
                let ghost seen = ev.trail@;
                self.inventory[i].dispatch_event(ev);
                proof {
                    assert(self@.items[i as int] == self.inventory[i as int]@);
                    assert(ev.trail@ =~= old(ev).trail@ + self@.hits_upto(old(ev).pos, (i + 1) as nat));
                }
                i += 1;
            }
        } else {
            assert(ev.trail@ =~= old(ev).trail@ + self@.hits(old(ev).pos));
        }
    }

    /// Appends the identifiers of every node below the container.
    pub fn collect_ids(&self, out: &mut Vec<u64>)
        ensures
            final(out)@ == old(out)@ + self@.ids(),
        decreases self,
    {
        let n = self.inventory.len();
        let mut i: usize = 0;
        assert(out@ =~= old(out)@ + self@.ids_upto(0));
        while i < n
            invariant
                i <= n,
                n == self.inventory.len(),
                n == self@.items.len(),
                out@ == old(out)@ + self@.ids_upto(i as nat),
            decreases n - i,
        {
            self.inventory[i].collect_ids(out);
            proof {
                assert(self@.items[i as int] == self.inventory[i as int]@);
                assert(out@ =~= old(out)@ + self@.ids_upto((i + 1) as nat));
            }
            i += 1;
        }
    }

    /// A logical update of every item, in order: the container stays as it
    /// is, and the worlds below it that the host is to advance are appended
    /// to `due`.
    pub fn tick(&mut self, due: &mut Vec<u64>)
        ensures
            final(self)@ == old(self)@,
            final(due)@ == old(due)@ + old(self)@.due(),
        decreases *old(self),
    {
        let n = self.inventory.len();
        let mut i: usize = 0;
        assert(due@ =~= old(due)@ + old(self)@.due_upto(0));
        while i < n
            invariant
                i <= n,
                n == self.inventory.len(),
                n == old(self).inventory.len(),
                n == old(self)@.items.len(),
                forall|j: int| i <= j < n ==> #[trigger] self.inventory[j] == old(self).inventory[j],
                forall|j: int| 0 <= j < n ==> #[trigger] self@.items[j] == old(self)@.items[j],
                self@ == (ContainerView { items: self@.items, ..old(self)@ }),
                due@ == old(due)@ + old(self)@.due_upto(i as nat),
            decreases n - i,
        {
            let ghost before = *self;
            let item = &mut self.inventory[i];
            item.tick(due);
            proof {
                assert(self.inventory@ == before.inventory@.update(i as int, self.inventory@[i as int]));
                assert forall|j: int| 0 <= j < n && j != i implies self@.items[j] == before@.items[j] by {}
                assert(self@.items[i as int] == self.inventory[i as int].model());
                assert(before@.items[i as int] == before.inventory[i as int].model());
                assert(self@.items =~= before@.items.update(i as int, self@.items[i as int]));
                assert(due@ =~= old(due)@ + old(self)@.due_upto((i + 1) as nat));
            }
            i += 1;
        }
        proof {
            assert(self@.items =~= old(self)@.items);
        }
    }

    /// Appends the outline of the padded rectangle and what the items draw
    /// when containers are outlined too.
    pub fn draw(&self, out: &mut Vec<DrawCommand>)
        ensures
            steps(final(out)@) == steps(old(out)@) + self@.sketch(),
        decreases self,
    {
        self.draw_outline(out);
        let n = self.inventory.len();
        let mut i: usize = 0;
        assert(steps(out@) =~= steps(old(out)@) + self@.sketch_upto(0));
        while i < n
            invariant
                i <= n,
                n == self.inventory.len(),
                n == self@.items.len(),
                steps(out@) == steps(old(out)@) + self@.sketch_upto(i as nat),
            decreases n - i,
        {
            self.inventory[i].draw(out);
            proof {
                assert(self@.items[i as int] == self.inventory[i as int]@);
                assert(steps(out@) =~= steps(old(out)@) + self@.sketch_upto((i + 1) as nat));
            }
            i += 1;
        }
    }

    /// Appends what the items draw, in order, to the display list.
    pub fn render_tick(&self, out: &mut Vec<DrawCommand>)
        ensures
            steps(final(out)@) == steps(old(out)@) + self@.paint(),
        decreases self,
    {
        let n = self.inventory.len();
        let mut i: usize = 0;
        assert(steps(out@) =~= steps(old(out)@) + self@.paint_upto(0));
        while i < n
            invariant
                i <= n,
                n == self.inventory.len(),
                n == self@.items.len(),
                steps(out@) == steps(old(out)@) + self@.paint_upto(i as nat),
            decreases n - i,
        {
            self.inventory[i].render_tick(out);
            proof {
                assert(self@.items[i as int] == self.inventory[i as int]@);
                assert(steps(out@) =~= steps(old(out)@) + self@.paint_upto((i + 1) as nat));
            }
            i += 1;
        }
    }

    /// Hands `data` to every span below the container whose identifier is
    /// `id`.
    pub fn dispatch(&mut self, id: u64, data: &Payload)
        ensures
            final(self)@ == old(self)@.told(id, data@),
        decreases *old(self),
    {
        let n = self.inventory.len();
        let mut i: usize = 0;
        while i < n
            invariant
                i <= n,
                n == self.inventory.len(),
                n == old(self).inventory.len(),
                forall|j: int| i <= j < n ==> #[trigger] self.inventory[j] == old(self).inventory[j],
                forall|j: int| i <= j < n ==> #[trigger] self@.items[j] == old(self)@.items[j],
                forall|j: int| 0 <= j < i ==> #[trigger] self@.items[j] == old(self)@.items[j].told(id, data@),
                self@ == (ContainerView { items: self@.items, ..old(self)@ }),
            decreases n - i,
        {
            let ghost before = *self;
            let item = &mut self.inventory[i];
            item.dispatch(id, data);
            proof {
                assert(self.inventory@ == before.inventory@.update(i as int, self.inventory@[i as int]));
                assert forall|j: int| 0 <= j < n && j != i implies self@.items[j] == before@.items[j] by {}
                assert(self@.items[i as int] == self.inventory[i as int].model());
                assert(before@.items[i as int] == before.inventory[i as int].model());
                assert(self@.items =~= before@.items.update(i as int, self@.items[i as int]));
            }
            i += 1;
        }
        proof {
            assert(self@.items =~= old(self)@.told(id, data@).items);
        }
    }

    /// The padded rectangle `(left, top, right, bottom)`.
    pub fn edges(&self) -> (e: (i64, i64, i64, i64))
        ensures
            e.0 == self@.left,
            e.1 == self@.top,
            e.2 == self@.right,
            e.3 == self@.bottom,
    {
        (self.left, self.top, self.right, self.bottom)
    }

    /// The cursor `(x, y)`.
    pub fn cursor(&self) -> (c: (i64, i64))
        ensures
            c.0 == self@.x,
            c.1 == self@.y,
    {
        (self.x, self.y)
    }

    /// The number of items.
    pub fn len(&self) -> (n: usize)
        ensures
            n == self@.items.len(),
    {
        self.inventory.len()
    }

    /// The item at index `i`, if there is one.
    pub fn item(&self, i: usize) -> (found: Option<&Content>)
        ensures
            found is Some <==> i < self@.items.len(),
            found is Some ==> found->0@ == self@.items[i as int],
    {
        if i < self.inventory.len() {
            Some(&self.inventory[i])
        } else {
            None
        }
    }

    /// Appends an item.
    pub fn register(&mut self, item: Content)
        ensures
            final(self)@ == old(self)@.with_item(item@),
    {
        self.inventory.push(item);
        proof {
            assert(self@.items =~= old(self)@.items.push(item@));
        }
    }
}

impl DrawOutline for Container {
    /// The padded rectangle, in white.
    open spec fn outline(&self) -> DrawView {
        self@.frame_step()
    }

    fn draw_outline(&self, out: &mut Vec<DrawCommand>) {
        emit(
            out,
            DrawCommand::Outline {
                color: Color::White,
                x: self.left,
                y: self.top,
                w: sat_sub(self.right, self.left),
                h: sat_sub(self.bottom, self.top),
            },
        );
    }
}

impl View for Container {
    type V = ContainerView;

    open spec fn view(&self) -> ContainerView {
        self.model()
    }
}

impl ContainerView {
    /// The padded rectangle as it is stored.
    pub open spec fn area(self) -> (int, int, int, int) {
        (self.left, self.top, self.right, self.bottom)
    }
}

} // verus!
