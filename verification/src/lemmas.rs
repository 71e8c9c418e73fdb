//! What holds of every layout, dispatch and registration.

use vstd::prelude::*;
use crate::application::spec_first;
use crate::application::spec_has;
use crate::application::spec_index;
use crate::application::AppView;
use crate::component::Position;
use crate::container::spec_cursor;
use crate::container::ContainerView;
use crate::container::Scrollable;
use crate::content::ContentView;
use crate::registry::StateView;
use crate::scene::CanvasMeta;
use crate::scene::SceneView;
use crate::section::SectionView;
use crate::span::text_span::spec_font_size;
use crate::span::text_span::FONT_MAX;
use crate::span::text_span::FONT_MIN;
use crate::span::PayloadView;
use crate::span::SpanView;
use crate::units::clip;
use crate::units::lemma_portion_within;
use crate::units::spec_pad;
use crate::units::spec_portion;
use crate::units::FULL;

verus! {

/// Whether `v` is a coordinate that `i64` holds.
pub open spec fn fits(v: int) -> bool {
    i64::MIN as int <= v <= i64::MAX as int
}

/// Whether all four edges of `area` are coordinates, with the left edge not
/// right of the right edge and the top edge not below the bottom edge.
pub open spec fn proper(area: (int, int, int, int)) -> bool {
    &&& fits(area.0) && fits(area.1) && fits(area.2) && fits(area.3)
    &&& area.0 <= area.2
    &&& area.1 <= area.3
}

/// Whether the rectangle `frame`, given as `(x, y, w, h)`, has no negative
/// extent and lies inside `area`, given as `(left, top, right, bottom)`.
pub open spec fn inside(frame: (int, int, int, int), area: (int, int, int, int)) -> bool {
    &&& frame.2 >= 0 && frame.3 >= 0
    &&& area.0 <= frame.0 && frame.0 + frame.2 <= area.2
    &&& area.1 <= frame.1 && frame.1 + frame.3 <= area.3
}

/// Whether no item of `items` has a fraction above the whole.
pub open spec fn sized(items: Seq<ContentView>) -> bool {
    forall|i: int|
        0 <= i < items.len() ==> (#[trigger] items[i]).fractions().0 <= FULL && items[i].fractions().1 <= FULL
}

/// An item that is offered a proper area takes a rectangle with no negative
/// extent that lies inside the area.
pub proof fn lemma_item_takes_inside(item: ContentView, left: int, top: int, right: int, bottom: int)
    requires
        proper((left, top, right, bottom)),
        item.fractions().0 <= FULL,
        item.fractions().1 <= FULL,
    ensures
        inside(item.resized(left, top, right, bottom).frame(), (left, top, right, bottom)),
        item.reply(left, top, right, bottom).0 >= 0,
        item.reply(left, top, right, bottom).1 >= 0,
        left + item.reply(left, top, right, bottom).0 <= right,
        top + item.reply(left, top, right, bottom).1 <= bottom,
{
    lemma_portion_within(item.fractions().0, clip(right - left));
    lemma_portion_within(item.fractions().1, clip(bottom - top));
}

/// During a layout in a proper area the cursor never leaves the area.
pub proof fn lemma_cursor_stays_inside(
    items: Seq<ContentView>,
    scroll: Scrollable,
    area: (int, int, int, int),
    k: nat,
)
    requires
        proper(area),
        sized(items),
    ensures
        area.0 <= spec_cursor(items, scroll, area, k).0 <= area.2,
        area.1 <= spec_cursor(items, scroll, area, k).1 <= area.3,
    decreases k,
{
    if k == 0 || k > items.len() {
    } else {
        lemma_cursor_stays_inside(items, scroll, area, (k - 1) as nat);
        let before = spec_cursor(items, scroll, area, (k - 1) as nat);
        lemma_item_takes_inside(items[k - 1], before.0, before.1, area.2, area.3);
    }
}

/// After a layout, every item of a container whose padded rectangle is proper
/// has a rectangle with no negative extent that lies inside the padded
/// rectangle.
pub proof fn lemma_items_lie_inside(c: ContainerView, x: int, y: int, w: int, h: int, i: int)
    requires
        proper(c.padded(x, y, w, h)),
        sized(c.items),
        0 <= i < c.items.len(),
    ensures
        c.resized(x, y, w, h).area() == c.padded(x, y, w, h),
        inside(c.resized(x, y, w, h).items[i].frame(), c.padded(x, y, w, h)),
{
    let area = c.padded(x, y, w, h);
    lemma_cursor_stays_inside(c.items, c.scroll, area, i as nat);
    let at = spec_cursor(c.items, c.scroll, area, i as nat);
    lemma_item_takes_inside(c.items[i], at.0, at.1, area.2, area.3);
}

/// The padded rectangle of a container is proper and lies inside the
/// rectangle that the container is laid out in, if that rectangle has room
/// for the padding on both sides.
pub proof fn lemma_padded_lies_inside(c: ContainerView, x: int, y: int, w: int, h: int)
    requires
        fits(x) && fits(y) && fits(x + w) && fits(y + h),
        2 * spec_pad(w, c.padding.x, c.padding.min_x, c.padding.max_x) <= w,
        2 * spec_pad(w, c.padding.y, c.padding.min_y, c.padding.max_y) <= h,
        0 <= spec_pad(w, c.padding.x, c.padding.min_x, c.padding.max_x),
        0 <= spec_pad(w, c.padding.y, c.padding.min_y, c.padding.max_y),
    ensures
        proper(c.padded(x, y, w, h)),
        x <= c.padded(x, y, w, h).0,
        y <= c.padded(x, y, w, h).1,
        c.padded(x, y, w, h).2 <= x + w,
        c.padded(x, y, w, h).3 <= y + h,
{
}

/// A scene whose two margins are equal and leave room on the surface has a
/// rectangle with no negative extent that lies on the surface.
pub proof fn lemma_scene_lies_on_surface(scene: SceneView, meta: CanvasMeta)
    requires
        scene.margin_x(meta) == scene.margin_y(meta),
        0 <= scene.margin_x(meta),
        2 * scene.margin_x(meta) <= meta.w,
        2 * scene.margin_x(meta) <= meta.h,
    ensures
        inside(
            (
                scene.resized(meta).x,
                scene.resized(meta).y,
                scene.resized(meta).w,
                scene.resized(meta).h,
            ),
            (0, 0, meta.w as int, meta.h as int),
        ),
{
}

/// In a container whose padded rectangle is a single point, the cursor stays
/// on that point.
pub proof fn lemma_cursor_rests(items: Seq<ContentView>, scroll: Scrollable, area: (int, int, int, int), k: nat)
    requires
        fits(area.0) && fits(area.1),
        area.2 == area.0,
        area.3 == area.1,
    ensures
        spec_cursor(items, scroll, area, k) == (area.0, area.1),
    decreases k,
{
    if k == 0 || k > items.len() {
    } else {
        lemma_cursor_rests(items, scroll, area, (k - 1) as nat);
    }
}

/// In a container whose padded rectangle is a single point, every item is
/// laid out on that point with no width and no height.
pub proof fn lemma_no_room_gives_empty_frames(c: ContainerView, x: int, y: int, w: int, h: int, i: int)
    requires
        fits(c.padded(x, y, w, h).0) && fits(c.padded(x, y, w, h).1),
        c.padded(x, y, w, h).2 == c.padded(x, y, w, h).0,
        c.padded(x, y, w, h).3 == c.padded(x, y, w, h).1,
        0 <= i < c.items.len(),
    ensures
        c.resized(x, y, w, h).items.len() == c.items.len(),
        c.resized(x, y, w, h).items[i].frame() == (c.padded(x, y, w, h).0, c.padded(x, y, w, h).1, 0int, 0int),
{
    let area = c.padded(x, y, w, h);
    lemma_cursor_rests(c.items, c.scroll, area, i as nat);
}

/// A name that was just registered for a live section is found again, with
/// the same identifier.
pub proof fn lemma_registered_section_is_found(state: StateView, name: Seq<char>, id: u64)
    requires
        state.is_live(id),
    ensures
        state.with_section(name, id).section(name) == Some(id),
{
}

/// A name that was just registered for a live span is found again, with the
/// same identifier.
pub proof fn lemma_registered_span_is_found(state: StateView, name: Seq<char>, id: u64)
    requires
        state.is_live(id),
    ensures
        state.with_span(name, id).span(name) == Some(id),
{
}

/// Once a node is gone, no name that stands for it is found, in either table.
pub proof fn lemma_gone_is_absent(state: StateView, name: Seq<char>, id: u64)
    ensures
        state.sections.contains_key(name) && state.sections[name] == id ==> (StateView {
            dropped: state.dropped.insert(id),
            ..state
        }).section(name) is None,
        state.spans.contains_key(name) && state.spans[name] == id ==> (StateView {
            dropped: state.dropped.insert(id),
            ..state
        }).span(name) is None,
{
}

/// The size that a fitted font is cached with lies in the range of font
/// sizes.
pub proof fn lemma_font_size_in_range(best: u32)
    ensures
        FONT_MIN <= spec_font_size(best) <= FONT_MAX,
{
}

/// Once a font size is cached, a later fit leaves it as it is.
pub proof fn lemma_fit_is_kept(span: SpanView, best: u32, again: u32)
    requires
        span.font is None,
    ensures
        span.told(PayloadView::Fit(best)).told(PayloadView::Fit(again)) == span.told(PayloadView::Fit(best)),
{
}

/// Registering a scene under a path that is taken changes neither the scenes
/// nor the active path, once a scene with a path of its own is active. The
/// nodes of the scene that is left out are gone for the registry, and
/// nothing else changes.
pub proof fn lemma_taken_path_is_left_out(app: AppView, scene: SceneView)
    requires
        app.path.len() > 0,
        spec_has(app.scenes, scene.path),
    ensures
        app.registered(scene) == (AppView { state: app.state.without(scene.ids()), ..app }),
        app.registered(scene).scenes == app.scenes,
        app.registered(scene).path == app.path,
        scene.ids().len() == 0 ==> app.registered(scene) == app,
{
    assert(Seq::<u64>::empty() + scene.ids() =~= scene.ids());
    if scene.ids().len() == 0 {
        assert(scene.ids().to_set() =~= Set::<u64>::empty());
        assert(app.state.dropped.union(scene.ids().to_set()) =~= app.state.dropped);
    }
}

/// No node of a scene that was left out or discarded is found by name.
pub proof fn lemma_discarded_is_absent(state: StateView, ids: Seq<u64>, name: Seq<char>, k: int)
    requires
        0 <= k < ids.len(),
    ensures
        state.sections.contains_key(name) && state.sections[name] == ids[k] ==> state.without(ids).section(
            name,
        ) is None,
        state.spans.contains_key(name) && state.spans[name] == ids[k] ==> state.without(ids).span(name) is None,
{
    assert(ids.to_set().contains(ids[k]));
}

/// Registering a scene under a path that is free makes it the active scene.
pub proof fn lemma_new_path_becomes_active(app: AppView, scene: SceneView)
    requires
        !spec_has(app.kept(), scene.path),
    ensures
        app.registered(scene).path == scene.path,
        app.registered(scene).has_active(),
        app.registered(scene).active() == scene,
{
    let after = app.registered(scene);
    let n = app.kept().len() as int;
    assert(after.scenes[n] == scene);
    assert forall|j: int| 0 <= j < n implies (#[trigger] after.scenes[j]).path != scene.path by {
        if after.scenes[j].path == scene.path {
            lemma_some_first(app.kept(), scene.path, j);
        }
    }
    assert(spec_first(after.scenes, scene.path, n));
    let chosen = spec_index(after.scenes, after.path);
    assert(spec_first(after.scenes, after.path, chosen));
    assert(chosen == n);
}

/// An application that has an active scene has one after any registration.
pub proof fn lemma_registration_keeps_active(app: AppView, scene: SceneView)
    requires
        app.has_active(),
    ensures
        app.registered(scene).has_active(),
{
    if spec_has(app.kept(), scene.path) {
        let i = spec_index(app.scenes, app.path);
        assert(spec_first(app.scenes, app.path, i));
        if app.path.len() == 0 {
            let j = choose|j: int| spec_first(app.kept(), scene.path, j);
            assert(spec_first(app.kept(), scene.path, j));
        }
    } else {
        lemma_new_path_becomes_active(app, scene);
    }
}

/// Where a scene has the path, a first scene has it.
pub proof fn lemma_some_first(scenes: Seq<SceneView>, path: Seq<char>, i: int)
    requires
        0 <= i < scenes.len(),
        scenes[i].path == path,
    ensures
        spec_has(scenes, path),
    decreases i,
{
    if forall|j: int| 0 <= j < i ==> (#[trigger] scenes[j]).path != path {
        assert(spec_first(scenes, path, i));
    } else {
        let j = choose|j: int| 0 <= j < i && (#[trigger] scenes[j]).path == path;
        lemma_some_first(scenes, path, j);
    }
}

/// Whether the section `s`, or a section below it, has the identifier `id`
/// and a rectangle that `pos` lies inside.
pub open spec fn section_holds(s: SectionView, pos: Position, id: u64) -> bool
    decreases s,
{
    (s.id == id && pos.spec_in_rec(s.x, s.y, s.w, s.h)) || container_holds(s.container, pos, id)
}

/// Whether a section below the container `c` has the identifier `id` and a
/// rectangle that `pos` lies inside.
pub open spec fn container_holds(c: ContainerView, pos: Position, id: u64) -> bool
    decreases c,
{
    exists|i: int| 0 <= i < c.items.len() && content_holds(#[trigger] c.items[i], pos, id)
}

/// Whether the item, if it is a section, holds such a section.
pub open spec fn content_holds(item: ContentView, pos: Position, id: u64) -> bool
    decreases item,
{
    match item {
        ContentView::Section(s) => section_holds(s, pos, id),
        ContentView::Span(_) => false,
    }
}

/// Every section that handles an event lies under the pointer: its rectangle
/// contains the event's position.
pub proof fn lemma_section_hits_lie_under(s: SectionView, pos: Position, id: u64)
    requires
        s.hits(pos).contains(id),
    ensures
        section_holds(s, pos, id),
    decreases s,
{
    if s.id == id && pos.spec_in_rec(s.x, s.y, s.w, s.h) {
    } else {
        let inner = s.container.hits(pos);
        let j = choose|j: int| 0 <= j < s.hits(pos).len() && s.hits(pos)[j] == id;
        assert(s.hits(pos) == inner.push(s.id));
        assert(j < inner.len());
        assert(inner[j] == id);
        lemma_container_hits_lie_under(s.container, pos, id);
    }
}

/// Every section that handles an event routed through a container lies under
/// the pointer.
pub proof fn lemma_container_hits_lie_under(c: ContainerView, pos: Position, id: u64)
    requires
        c.hits(pos).contains(id),
    ensures
        container_holds(c, pos, id),
    decreases c, c.items.len() + 1,
{
    lemma_upto_hits_lie_under(c, pos, id, c.items.len());
}

/// Every section that handles an event among the first `k` items of a
/// container lies under the pointer.
pub proof fn lemma_upto_hits_lie_under(c: ContainerView, pos: Position, id: u64, k: nat)
    requires
        c.hits_upto(pos, k).contains(id),
    ensures
        container_holds(c, pos, id),
    decreases c, k,
{
    if k == 0 || k > c.items.len() {
        assert(c.hits_upto(pos, k).len() == 0);
    } else {
        let head = c.hits_upto(pos, (k - 1) as nat);
        let last = c.items[k - 1].hits(pos);
        let j = choose|j: int| 0 <= j < (head + last).len() && (head + last)[j] == id;
        if j < head.len() {
            assert(head[j] == id);
            lemma_upto_hits_lie_under(c, pos, id, (k - 1) as nat);
        } else {
            assert(last[j - head.len()] == id);
            match c.items[k - 1] {
                ContentView::Section(s) => {
                    lemma_section_hits_lie_under(s, pos, id);
                },
                ContentView::Span(_) => {},
            }
            assert(content_holds(c.items[k - 1], pos, id));
        }
    }
}

/// An event outside a scene reaches no section.
pub proof fn lemma_outside_scene_reaches_none(scene: SceneView, pos: Position)
    requires
        !pos.spec_in_rec(scene.x, scene.y, scene.w, scene.h),
    ensures
        scene.hits(pos) == Seq::<u64>::empty(),
{
}

/// Whether two items ask for the same size whatever they are offered: both
/// are sections or both are spans, with the same fractions.
pub open spec fn same_ask(first: ContentView, second: ContentView) -> bool {
    &&& first.fractions() == second.fractions()
    &&& (first is Section) == (second is Section)
}

/// A layout does not change what an item asks for.
pub proof fn lemma_ask_survives_resize(item: ContentView, left: int, top: int, right: int, bottom: int)
    ensures
        same_ask(item.resized(left, top, right, bottom), item),
{
}

/// The cursor depends on the items only through what they ask for.
pub proof fn lemma_cursor_same(
    first: Seq<ContentView>,
    second: Seq<ContentView>,
    scroll: Scrollable,
    area: (int, int, int, int),
    k: nat,
)
    requires
        first.len() == second.len(),
        forall|i: int| 0 <= i < first.len() ==> same_ask(#[trigger] first[i], second[i]),
    ensures
        spec_cursor(first, scroll, area, k) == spec_cursor(second, scroll, area, k),
    decreases k,
{
    if k == 0 || k > first.len() {
    } else {
        lemma_cursor_same(first, second, scroll, area, (k - 1) as nat);
        let before = spec_cursor(first, scroll, area, (k - 1) as nat);
        assert(same_ask(first[k - 1], second[k - 1]));
        assert(first[k - 1].reply(before.0, before.1, area.2, area.3) == second[k - 1].reply(
            before.0,
            before.1,
            area.2,
            area.3,
        ));
    }
}

/// The last layout wins: an item that is laid out twice is as if it had been
/// laid out the second time only.
pub proof fn lemma_item_last_resize_wins(item: ContentView, a: (int, int, int, int), b: (int, int, int, int))
    ensures
        item.resized(a.0, a.1, a.2, a.3).resized(b.0, b.1, b.2, b.3) == item.resized(b.0, b.1, b.2, b.3),
    decreases item,
{
    match item {
        ContentView::Section(s) => {
            let wa = clip(spec_portion(s.width, clip(a.2 - a.0)));
            let ha = clip(spec_portion(s.height, clip(a.3 - a.1)));
            let wb = clip(spec_portion(s.width, clip(b.2 - b.0)));
            let hb = clip(spec_portion(s.height, clip(b.3 - b.1)));
            lemma_container_last_resize_wins(s.container, (a.0, a.1, wa, ha), (b.0, b.1, wb, hb));
        },
        ContentView::Span(_) => {},
    }
}

/// The last layout wins: a container that is laid out twice is as if it had
/// been laid out the second time only.
pub proof fn lemma_container_last_resize_wins(c: ContainerView, a: (int, int, int, int), b: (int, int, int, int))
    ensures
        c.resized(a.0, a.1, a.2, a.3).resized(b.0, b.1, b.2, b.3) == c.resized(b.0, b.1, b.2, b.3),
    decreases c,
{
    let once = c.resized(a.0, a.1, a.2, a.3);
    let twice = once.resized(b.0, b.1, b.2, b.3);
    let direct = c.resized(b.0, b.1, b.2, b.3);
    let area_a = c.padded(a.0, a.1, a.2, a.3);
    let area_b = c.padded(b.0, b.1, b.2, b.3);
    assert(once.padded(b.0, b.1, b.2, b.3) == area_b);
    assert(once.items.len() == c.items.len());
    assert forall|i: int| 0 <= i < once.items.len() implies same_ask(#[trigger] once.items[i], c.items[i]) by {
        let at = spec_cursor(c.items, c.scroll, area_a, i as nat);
        lemma_ask_survives_resize(c.items[i], at.0, at.1, area_a.2, area_a.3);
    }
    lemma_cursor_same(once.items, c.items, c.scroll, area_b, c.items.len());
    assert(twice.items.len() == direct.items.len());
    assert forall|i: int| 0 <= i < c.items.len() implies twice.items[i] == direct.items[i] by {
        let at_a = spec_cursor(c.items, c.scroll, area_a, i as nat);
        let at_b = spec_cursor(c.items, c.scroll, area_b, i as nat);
        lemma_cursor_same(once.items, c.items, c.scroll, area_b, i as nat);
        lemma_item_last_resize_wins(
            c.items[i],
            (at_a.0, at_a.1, area_a.2, area_a.3),
            (at_b.0, at_b.1, area_b.2, area_b.3),
        );
    }
    assert(twice.items =~= direct.items);
}

/// Two layouts of a scene on a surface of the same size give the same scene
/// as one.
pub proof fn lemma_scene_layout_settles(scene: SceneView, meta: CanvasMeta)
    ensures
        scene.resized(meta).resized(meta) == scene.resized(meta),
{
    let mx = scene.margin_x(meta);
    let my = scene.margin_y(meta);
    let w = clip(meta.w - clip(my + my));
    let h = clip(meta.h - clip(mx + mx));
    lemma_container_last_resize_wins(scene.container, (mx, my, w, h), (mx, my, w, h));
}

/// A layout keeps the path of a scene.
pub proof fn lemma_layout_keeps_first(scenes: Seq<SceneView>, path: Seq<char>, i: int, meta: CanvasMeta)
    requires
        spec_first(scenes, path, i),
    ensures
        spec_first(scenes.update(i, scenes[i].resized(meta)), path, i),
        spec_index(scenes.update(i, scenes[i].resized(meta)), path) == i,
        spec_index(scenes, path) == i,
{
    let after = scenes.update(i, scenes[i].resized(meta));
    assert forall|j: int| 0 <= j < i implies (#[trigger] after[j]).path != path by {
        assert(after[j] == scenes[j]);
    }
    assert(spec_first(after, path, i));
    let a = spec_index(after, path);
    let b = spec_index(scenes, path);
    assert(spec_first(after, path, a));
    assert(spec_first(scenes, path, b));
}

/// Two resizes of the surface to the same size give the same application as
/// one: every rectangle of every scene is the same.
pub proof fn lemma_layout_settles(app: AppView, meta: CanvasMeta)
    ensures
        app.resized(meta).resized(meta) == app.resized(meta),
{
    if app.has_active() {
        let i = spec_index(app.scenes, app.path);
        assert(spec_first(app.scenes, app.path, i));
        lemma_layout_keeps_first(app.scenes, app.path, i, meta);
        lemma_scene_layout_settles(app.scenes[i], meta);
        let once = app.resized(meta);
        assert(once.scenes == app.scenes.update(i, app.scenes[i].resized(meta)));
        assert(once.has_active());
        assert(once.resized(meta).scenes =~= once.scenes);
    } else {
        let once = app.resized(meta);
        assert(once.scenes == app.scenes);
        assert(!once.has_active());
    }
}

/// A resize of the surface neither gives nor takes the active scene.
pub proof fn lemma_resize_keeps_active(app: AppView, meta: CanvasMeta)
    ensures
        app.resized(meta).has_active() == app.has_active(),
        app.resized(meta).path == app.path,
{
    if app.has_active() {
        let i = spec_index(app.scenes, app.path);
        assert(spec_first(app.scenes, app.path, i));
        lemma_layout_keeps_first(app.scenes, app.path, i, meta);
    }
}

/// A message to a span neither gives nor takes the active scene.
pub proof fn lemma_message_keeps_active(app: AppView, id: u64, data: PayloadView)
    ensures
        app.told(id, data).has_active() == app.has_active(),
{
    let after = app.told(id, data);
    assert forall|i: int| spec_first(app.scenes, app.path, i) == spec_first(after.scenes, after.path, i) by {
        if 0 <= i < app.scenes.len() {
            assert(after.scenes[i].path == app.scenes[i].path);
            assert forall|j: int| 0 <= j < i implies (#[trigger] after.scenes[j]).path == app.scenes[j].path by {}
            if spec_first(app.scenes, app.path, i) {
                assert(spec_first(after.scenes, after.path, i));
            }
            if spec_first(after.scenes, after.path, i) {
                assert forall|j: int| 0 <= j < i implies (#[trigger] app.scenes[j]).path != app.path by {
                    assert(after.scenes[j].path == app.scenes[j].path);
                }
                assert(spec_first(app.scenes, app.path, i));
            }
        }
    }
    if app.has_active() {
        let i = choose|i: int| spec_first(app.scenes, app.path, i);
        assert(spec_first(after.scenes, after.path, i));
    }
    if after.has_active() {
        let i = choose|i: int| spec_first(after.scenes, after.path, i);
        assert(spec_first(app.scenes, app.path, i));
    }
}

/// Whether the edges `area`, given as `(left, top, right, bottom)`, lie
/// inside the rectangle `frame`, given as `(x, y, w, h)`.
pub open spec fn within(area: (int, int, int, int), frame: (int, int, int, int)) -> bool {
    &&& frame.0 <= area.0 && area.0 <= area.2 && area.2 <= frame.0 + frame.2
    &&& frame.1 <= area.1 && area.1 <= area.3 && area.3 <= frame.1 + frame.3
}

/// Whether a layout of `c` in the rectangle with corner `(x, y)`, width `w`
/// and height `h` leaves room for the padding of `c` and of every container
/// below it, with no fraction above the whole and all corners in range.
pub open spec fn roomy(c: ContainerView, x: int, y: int, w: int, h: int) -> bool
    decreases c,
{
    let area = c.padded(x, y, w, h);
    &&& fits(x) && fits(y) && fits(x + w) && fits(y + h)
    &&& 0 <= spec_pad(w, c.padding.x, c.padding.min_x, c.padding.max_x)
    &&& 2 * spec_pad(w, c.padding.x, c.padding.min_x, c.padding.max_x) <= w
    &&& 0 <= spec_pad(w, c.padding.y, c.padding.min_y, c.padding.max_y)
    &&& 2 * spec_pad(w, c.padding.y, c.padding.min_y, c.padding.max_y) <= h
    &&& sized(c.items)
    &&& forall|i: int|
        0 <= i < c.items.len() ==> roomy_item(
            #[trigger] c.items[i],
            spec_cursor(c.items, c.scroll, area, i as nat).0,
            spec_cursor(c.items, c.scroll, area, i as nat).1,
            area.2,
            area.3,
        )
}

/// Whether a layout of `item` in the offered area leaves room for the padding
/// of every container below it.
pub open spec fn roomy_item(item: ContentView, left: int, top: int, right: int, bottom: int) -> bool
    decreases item,
{
    match item {
        ContentView::Section(s) => roomy(
            s.container,
            left,
            top,
            clip(spec_portion(s.width, clip(right - left))),
            clip(spec_portion(s.height, clip(bottom - top))),
        ),
        ContentView::Span(_) => true,
    }
}

/// Whether every rectangle below `c` has no negative extent and lies inside
/// the rectangle of its parent: the items of a container inside its padded
/// rectangle, and the padded rectangle of a section's container inside the
/// section.
pub open spec fn nested(c: ContainerView) -> bool
    decreases c,
{
    &&& proper(c.area())
    &&& forall|i: int|
        0 <= i < c.items.len() ==> inside((#[trigger] c.items[i]).frame(), c.area()) && nested_item(c.items[i])
}

/// Whether every rectangle below `item` lies inside the rectangle of its
/// parent.
pub open spec fn nested_item(item: ContentView) -> bool
    decreases item,
{
    match item {
        ContentView::Section(s) => within(s.container.area(), (s.x, s.y, s.w, s.h)) && nested(s.container),
        ContentView::Span(_) => true,
    }
}

/// After a layout that leaves room for every padding, every rectangle in the
/// tree has no negative extent and lies inside the rectangle of its parent.
pub proof fn lemma_layout_is_nested(c: ContainerView, x: int, y: int, w: int, h: int)
    requires
        roomy(c, x, y, w, h),
    ensures
        nested(c.resized(x, y, w, h)),
        within(c.resized(x, y, w, h).area(), (x, y, w, h)),
    decreases c,
{
    let area = c.padded(x, y, w, h);
    let after = c.resized(x, y, w, h);
    lemma_padded_lies_inside(c, x, y, w, h);
    assert forall|i: int| 0 <= i < after.items.len() implies inside(
        (#[trigger] after.items[i]).frame(),
        after.area(),
    ) && nested_item(after.items[i]) by {
        lemma_items_lie_inside(c, x, y, w, h, i);
        let at = spec_cursor(c.items, c.scroll, area, i as nat);
        assert(roomy_item(c.items[i], at.0, at.1, area.2, area.3));
        lemma_item_layout_is_nested(c.items[i], at.0, at.1, area.2, area.3);
    }
}

/// After a layout that leaves room for every padding, every rectangle below
/// an item lies inside the rectangle of its parent.
pub proof fn lemma_item_layout_is_nested(item: ContentView, left: int, top: int, right: int, bottom: int)
    requires
        roomy_item(item, left, top, right, bottom),
    ensures
        nested_item(item.resized(left, top, right, bottom)),
    decreases item,
{
    match item {
        ContentView::Section(s) => {
            let w = clip(spec_portion(s.width, clip(right - left)));
            let h = clip(spec_portion(s.height, clip(bottom - top)));
            lemma_layout_is_nested(s.container, left, top, w, h);
        },
        ContentView::Span(_) => {},
    }
}

/// After a layout on a surface that leaves room for the scene's margins,
/// which are equal, and for every padding, the scene lies on the surface, its
/// container inside the scene, and every rectangle below inside the rectangle
/// of its parent.
pub proof fn lemma_scene_layout_is_nested(scene: SceneView, meta: CanvasMeta)
    requires
        scene.margin_x(meta) == scene.margin_y(meta),
        0 <= scene.margin_x(meta),
        2 * scene.margin_x(meta) <= meta.w,
        2 * scene.margin_x(meta) <= meta.h,
        roomy(
            scene.container,
            scene.resized(meta).x,
            scene.resized(meta).y,
            scene.resized(meta).w,
            scene.resized(meta).h,
        ),
    ensures
        inside(
            (
                scene.resized(meta).x,
                scene.resized(meta).y,
                scene.resized(meta).w,
                scene.resized(meta).h,
            ),
            (0, 0, meta.w as int, meta.h as int),
        ),
        within(
            scene.resized(meta).container.area(),
            (
                scene.resized(meta).x,
                scene.resized(meta).y,
                scene.resized(meta).w,
                scene.resized(meta).h,
            ),
        ),
        nested(scene.resized(meta).container),
{
    let after = scene.resized(meta);
    lemma_layout_is_nested(scene.container, after.x, after.y, after.w, after.h);
}

} // verus!
