//! The application: the scenes, the active path, the registry, the keyboard
//! buffer and the frame counter, driven by the host's events.

use vstd::prelude::*;
use crate::component::Event;
use crate::component::Position;
use crate::container::Container;
use crate::counter::FpsCounterProto;
use crate::counter::FpsView;
use crate::input::InputProto;
use crate::paint::emit;
use crate::paint::steps;
use crate::paint::DrawCommand;
use crate::paint::DrawView;
use crate::registry::StateProto;
use crate::registry::StateView;
use crate::scene::spec_default_scene;
use crate::scene::CanvasMeta;
use crate::scene::Scene;
use crate::scene::SceneView;
use crate::section::Section;
use crate::span::Payload;
use crate::span::PayloadView;

verus! {

/// The number of ticks in a window of the application's frame counter.
pub const FPS_WINDOW: u8 = 10;

/// What an application can fail with.
#[derive(Clone, Copy, Debug, PartialEq, Eq, Structural)]
pub enum AppError {
    /// No scene is registered under the active path.
    NoActiveScene,
}

/// What one frame asks of the host: the worlds to advance, then the steps to
/// draw.
pub struct Frame {
    /// The identifiers of the world spans whose worlds are advanced, in order.
    pub due: Vec<u64>,
    /// The display list.
    pub list: Vec<DrawCommand>,
}

/// Whether `scenes[i]` is the first scene under `path`.
pub open spec fn spec_first(scenes: Seq<SceneView>, path: Seq<char>, i: int) -> bool {
    &&& 0 <= i < scenes.len()
    &&& scenes[i].path == path
    &&& forall|j: int| 0 <= j < i ==> (#[trigger] scenes[j]).path != path
}

/// Whether there is a scene under `path`.
pub open spec fn spec_has(scenes: Seq<SceneView>, path: Seq<char>) -> bool {
    exists|i: int| spec_first(scenes, path, i)
}

/// The index of the first scene under `path`.
pub open spec fn spec_index(scenes: Seq<SceneView>, path: Seq<char>) -> int {
    choose|i: int| spec_first(scenes, path, i)
}

/// The mathematical content of an application.
pub struct AppView {
    pub scenes: Seq<SceneView>,
    /// The path of the active scene.
    pub path: Seq<char>,
    pub meta: CanvasMeta,
    pub state: StateView,
    pub counter: FpsView,
    pub input: InputProto,
}

impl AppView {
    /// Whether a scene is registered under the active path.
    pub open spec fn has_active(self) -> bool {
        spec_has(self.scenes, self.path)
    }

    /// The active scene.
    pub open spec fn active(self) -> SceneView {
        self.scenes[spec_index(self.scenes, self.path)]
    }

    /// The application with another scene in the place of the active one.
    pub open spec fn with_active(self, scene: SceneView) -> AppView {
        if self.has_active() {
            AppView { scenes: self.scenes.update(spec_index(self.scenes, self.path), scene), ..self }
        } else {
            self
        }
    }

    /// The scenes that stay when a scene is registered: while the active path
    /// is empty, none.
    pub open spec fn kept(self) -> Seq<SceneView> {
        if self.path.len() == 0 {
            Seq::empty()
        } else {
            self.scenes
        }
    }

    /// The identifiers of every node in the first `k` scenes.
    pub open spec fn ids_upto(self, k: nat) -> Seq<u64>
        decreases k,
    {
        if k == 0 || k > self.scenes.len() {
            Seq::empty()
        } else {
            self.ids_upto((k - 1) as nat) + self.scenes[k - 1].ids()
        }
    }

    /// The identifiers of the nodes in the scenes that go when a scene is
    /// registered: while the active path is empty, those of every scene.
    pub open spec fn discarded(self) -> Seq<u64> {
        if self.path.len() == 0 {
            self.ids_upto(self.scenes.len())
        } else {
            Seq::empty()
        }
    }

    /// The application after `scene` was registered. A scene whose path is
    /// taken among the scenes that stay is left out, and the active path
    /// stays; any other scene is added and becomes the active one. The nodes
    /// of every scene that goes are gone for the registry.
    pub open spec fn registered(self, scene: SceneView) -> AppView {
        if spec_has(self.kept(), scene.path) {
            AppView { scenes: self.kept(), state: self.state.without(self.discarded() + scene.ids()), ..self }
        } else {
            AppView {
                scenes: self.kept().push(scene),
                path: scene.path,
                state: self.state.without(self.discarded()),
                ..self
            }
        }
    }

    /// The application after a resize of the surface: the size is noted and
    /// the active scene is laid out. The other scenes stay as they are.
    pub open spec fn resized(self, meta: CanvasMeta) -> AppView {
        AppView { meta, ..self }.with_active(self.active().resized(meta))
    }

    /// What a render pass draws: the cleared surface, then the active scene.
    pub open spec fn paint(self) -> Seq<DrawView> {
        seq![DrawView::Clear { x: 0, y: 0, w: self.meta.w as int, h: self.meta.h as int }]
            + self.active().paint()
    }

    /// The worlds that a logical update of the first `k` scenes advances.
    pub open spec fn due_upto(self, k: nat) -> Seq<u64>
        decreases k,
    {
        if k == 0 || k > self.scenes.len() {
            Seq::empty()
        } else {
            self.due_upto((k - 1) as nat) + self.scenes[k - 1].due()
        }
    }

    /// The worlds that a logical update advances: those of every scene, active
    /// or not, in order.
    pub open spec fn due(self) -> Seq<u64> {
        self.due_upto(self.scenes.len())
    }

    /// The application after the message `data` was handed to every span, in
    /// any scene, whose identifier is `id`.
    pub open spec fn told(self, id: u64, data: PayloadView) -> AppView {
        AppView { scenes: Seq::new(self.scenes.len(), |i: int| self.scenes[i].told(id, data)), ..self }
    }
}

pub struct Application {
    scenes: Vec<Scene>,
    path: String,
    meta: CanvasMeta,
    state: StateProto,
    input: InputProto,
    counter: FpsCounterProto,
}

impl View for Application {
    type V = AppView;

    closed spec fn view(&self) -> AppView {
        AppView {
            scenes: Seq::new(self.scenes.len() as nat, |i: int| self.scenes[i]@),
            path: self.path@,
            meta: self.meta,
            state: self.state@,
            counter: self.counter@,
            input: self.input,
        }
    }
}

impl Application {
    /// The index of the active scene, if there is one.
    fn find_active(&self) -> (found: Option<usize>)
        ensures
            found is Some <==> self@.has_active(),
            found is Some ==> found->0 as int == spec_index(self@.scenes, self@.path) && found->0
                < self.scenes.len(),
    {
        let mut i: usize = 0;
        while i < self.scenes.len()
            invariant
                i <= self.scenes.len(),
                forall|j: int| 0 <= j < i ==> (#[trigger] self@.scenes[j]).path != self@.path,
            decreases self.scenes.len() - i,
        {
            if self.scenes[i].get_path().to_owned() == self.path {
                assert(self@.scenes[i as int] == self.scenes[i as int]@);
                assert(spec_first(self@.scenes, self@.path, i as int));
                return Some(i);
            }
            assert(self@.scenes[i as int] == self.scenes[i as int]@);
            i += 1;
        }
        None
    }

    /// An application on a surface of the given size, whose frame counter
    /// starts at `now`: the default scene under the empty path, laid out; an
    /// empty registry; no key held.
    pub fn starting_at(meta: CanvasMeta, now: u128) -> (app: Application)
        ensures
            app@.scenes == seq![spec_default_scene().resized(meta)],
            app@.path == Seq::<char>::empty(),
            app@.meta == meta,
            app@.state == StateProto::spec_new(),
            app@.counter == (FpsView { ticks: 0, interval: FPS_WINDOW, start: now, fps: 0 }),
            app@.input.down() == Set::<Seq<char>>::empty(),
            app@.input.latched() == Set::<Seq<char>>::empty(),
            app@.input.up() == Set::<Seq<char>>::empty(),
            app@.has_active(),
    {
        let mut scene = Scene::default();
        scene.on_resize(&meta);
        let mut scenes: Vec<Scene> = Vec::new();
        scenes.push(scene);
        let path = String::new();
        assert(path@ =~= Seq::empty());
        let app = Application {
            scenes,
            path,
            meta,
            state: StateProto::new(),
            input: InputProto::new(),
            counter: FpsCounterProto::starting_at(FPS_WINDOW, now),
        };
        proof {
            assert(app@.scenes =~= seq![spec_default_scene().resized(meta)]);
            assert(spec_first(app@.scenes, app@.path, 0));
        }
        app
    }

    /// An application on a surface of the given size, whose frame counter
    /// starts at the time of the host's clock.
    pub fn new(meta: CanvasMeta) -> (app: Application)
        ensures
            app@.scenes == seq![spec_default_scene().resized(meta)],
            app@.path == Seq::<char>::empty(),
            app@.meta == meta,
            app@.state == StateProto::spec_new(),
            app@.counter.ticks == 0,
            app@.counter.interval == FPS_WINDOW,
            app@.counter.fps == 0,
            app@.input.down() == Set::<Seq<char>>::empty(),
            app@.input.latched() == Set::<Seq<char>>::empty(),
            app@.input.up() == Set::<Seq<char>>::empty(),
            app@.has_active(),
    {
        Application::starting_at(meta, crate::utils::now_ms())
    }

    /// Registers a scene: see [`AppView::registered`].
    pub fn register(&mut self, scene: Scene)
        ensures
            final(self)@ == old(self)@.registered(scene@),
            old(self)@.has_active() ==> final(self)@.has_active(),
    {
        proof {
            if old(self)@.has_active() {
                crate::lemmas::lemma_registration_keeps_active(old(self)@, scene@);
            }
        }
        let mut gone: Vec<u64> = Vec::new();
        if self.path.as_str().unicode_len() == 0 {
            let n = self.scenes.len();
            let mut k: usize = 0;
            assert(gone@ =~= self@.ids_upto(0));
            while k < n
                invariant
                    k <= n,
                    n == self.scenes.len(),
                    *self == *old(self),
                    gone@ == self@.ids_upto(k as nat),
                decreases n - k,
            {
                self.scenes[k].collect_ids(&mut gone);
                proof {
                    assert(self@.scenes[k as int] == self.scenes[k as int]@);
                    assert(gone@ =~= self@.ids_upto((k + 1) as nat));
                }
                k += 1;
            }
            self.scenes = Vec::new();
        }
        proof {
            assert(self@.scenes =~= old(self)@.kept());
            assert(gone@ == old(self)@.discarded());
        }
        let ghost kept = self@.scenes;
        let wanted = scene.get_path().to_owned();
        let mut i: usize = 0;
        let mut taken = false;
        while i < self.scenes.len() && !taken
            invariant
                i <= self.scenes.len(),
                self@.scenes == kept,
                wanted@ == scene@.path,
                taken ==> spec_has(kept, wanted@),
                !taken ==> forall|j: int| 0 <= j < i ==> (#[trigger] kept[j]).path != wanted@,
            decreases self.scenes.len() - i + if taken { 0int } else { 1int },
        {
            assert(kept[i as int] == self.scenes[i as int]@);
            if self.scenes[i].get_path().to_owned() == wanted {
                taken = true;
                assert(spec_first(kept, wanted@, i as int));
            } else {
                i += 1;
            }
        }
        if taken {
            scene.collect_ids(&mut gone);
        } else {
            assert(!spec_has(kept, scene@.path));
            self.path = wanted;
            self.scenes.push(scene);
            proof {
                assert(self@.scenes =~= kept.push(scene@));
            }
        }
        self.state.release_all(&gone);
    }

    /// Notes the new size of the surface and lays the active scene out.
    pub fn on_resize(&mut self, w: u32, h: u32) -> (done: Result<(), AppError>)
        ensures
            final(self)@ == old(self)@.resized(CanvasMeta { w, h }),
            done is Ok <==> old(self)@.has_active(),
            final(self)@.has_active() == old(self)@.has_active(),
    {
        proof {
            crate::lemmas::lemma_resize_keeps_active(old(self)@, CanvasMeta { w, h });
        }
        self.meta = CanvasMeta { w, h };
        let meta = self.meta;
        match self.find_active() {
            Some(i) => {
                let ghost before = *self;
                let scene = &mut self.scenes[i];
                scene.on_resize(&meta);
                proof {
                    assert(self.scenes@ == before.scenes@.update(i as int, self.scenes@[i as int]));
                    assert(before@.scenes[i as int] == before.scenes@[i as int]@);
                    assert(self@.scenes =~= before@.scenes.update(i as int, self.scenes@[i as int]@));
                }
                Ok(())
            },
            None => Err(AppError::NoActiveScene),
        }
    }

    /// The display list of a render pass: the cleared surface, then the
    /// active scene.
    pub fn render_tick(&self) -> (list: Result<Vec<DrawCommand>, AppError>)
        ensures
            list is Ok <==> self@.has_active(),
            list is Ok ==> steps(list->Ok_0@) == self@.paint(),
    {
        match self.find_active() {
            Some(i) => {
                let mut out: Vec<DrawCommand> = Vec::new();
                assert(steps(out@) =~= Seq::empty());
                emit(&mut out, DrawCommand::Clear { x: 0, y: 0, w: self.meta.w as i64, h: self.meta.h as i64 });
                self.scenes[i].render_tick(&mut out);
                proof {
                    assert(self@.scenes[i as int] == self.scenes[i as int]@);
                    assert(steps(out@) =~= self@.paint());
                }
                Ok(out)
            },
            None => Err(AppError::NoActiveScene),
        }
    }

    /// The display list of a render pass, under its short name.
    pub fn draw(&self) -> (list: Result<Vec<DrawCommand>, AppError>)
        ensures
            list is Ok <==> self@.has_active(),
            list is Ok ==> steps(list->Ok_0@) == self@.paint(),
    {
        self.render_tick()
    }

    /// A logical update of every scene: the scenes stay as they are, and the
    /// worlds that the host is to advance are returned.
    fn tick_scenes(&mut self) -> (due: Vec<u64>)
        ensures
            final(self)@ == old(self)@,
            due@ == old(self)@.due(),
    {
        let mut due: Vec<u64> = Vec::new();
        let n = self.scenes.len();
        let mut i: usize = 0;
        assert(due@ =~= old(self)@.due_upto(0));
        while i < n
            invariant
                i <= n,
                n == self.scenes.len(),
                n == old(self)@.scenes.len(),
                forall|j: int| 0 <= j < n ==> #[trigger] self@.scenes[j] == old(self)@.scenes[j],
                self@ == (AppView { scenes: self@.scenes, ..old(self)@ }),
                due@ == old(self)@.due_upto(i as nat),
            decreases n - i,
        {
            let ghost before = *self;
            let scene = &mut self.scenes[i];
            scene.tick(&mut due);
            proof {
                assert(self.scenes@ == before.scenes@.update(i as int, self.scenes@[i as int]));
                assert(before@.scenes[i as int] == before.scenes@[i as int]@);
                assert(self@.scenes =~= before@.scenes);
                assert(due@ =~= old(self)@.due_upto((i + 1) as nat));
            }
            i += 1;
        }
        proof {
            assert(self@.scenes =~= old(self)@.scenes);
        }
        due
    }

    /// One frame at `now`: every scene gets a logical update, the counter
    /// counts a tick, then the surface is drawn.
    pub fn tick_at(&mut self, now: u128) -> (frame: Result<Frame, AppError>)
        requires
            old(self)@.counter.accepts(now),
        ensures
            final(self)@ == (AppView { counter: old(self)@.counter.ticked(now), ..old(self)@ }),
            frame is Ok <==> old(self)@.has_active(),
            frame is Ok ==> frame->Ok_0.due@ == old(self)@.due() && steps(frame->Ok_0.list@) == old(
                self,
            )@.paint(),
    {
        let due = self.tick_scenes();
        self.counter.tick_at(now);
        match self.render_tick() {
            Ok(list) => Ok(Frame { due, list }),
            Err(e) => Err(e),
        }
    }

    /// One frame at the time of the host's clock. The counter counts the tick
    /// unless it would close a window at a time that is not later than the
    /// window began; the scenes are updated and the surface is drawn either
    /// way.
    pub fn tick(&mut self) -> (frame: Result<Frame, AppError>)
        ensures
            final(self)@ == old(self)@ || exists|now: u128|
                old(self)@.counter.accepts(now) && final(self)@ == (AppView {
                    counter: old(self)@.counter.ticked(now),
                    ..old(self)@
                }),
            frame is Ok <==> old(self)@.has_active(),
            frame is Ok ==> frame->Ok_0.due@ == old(self)@.due() && steps(frame->Ok_0.list@) == old(
                self,
            )@.paint(),
    {
        let due = self.tick_scenes();
        let counted = self.counter.tick();
        proof {
            if counted {
                let now = choose|now: u128|
                    old(self)@.counter.accepts(now) && self.counter@ == old(self)@.counter.ticked(now);
                assert(self@ == (AppView { counter: old(self)@.counter.ticked(now), ..old(self)@ }));
            }
        }
        match self.render_tick() {
            Ok(list) => Ok(Frame { due, list }),
            Err(e) => Err(e),
        }
    }

    /// Routes a mouse move at `(x, y)` into the active scene and returns the
    /// event as it came back.
    pub fn on_mouse_move(&self, x: i64, y: i64) -> (ev: Result<Event, AppError>)
        ensures
            ev is Ok <==> self@.has_active(),
            ev is Ok ==> {
                &&& ev->Ok_0.trail@ == self@.active().hits(Position(x, y))
                &&& ev->Ok_0.pos == Position(x, y)
                &&& !ev->Ok_0.consumed
            },
    {
        match self.find_active() {
            Some(i) => {
                let mut ev = Event::mouse_move(x, y);
                self.scenes[i].dispatch_event(&mut ev);
                proof {
                    assert(self@.scenes[i as int] == self.scenes[i as int]@);
                    assert(ev.trail@ =~= self@.active().hits(Position(x, y)));
                }
                Ok(ev)
            },
            None => Err(AppError::NoActiveScene),
        }
    }

    pub fn on_keydown(&mut self, key: &str)
        ensures
            final(self)@.input.down() == old(self)@.input.down().insert(key@),
            final(self)@.input.latched() == old(self)@.input.latched(),
            final(self)@.input.up() == old(self)@.input.up(),
            final(self)@ == (AppView { input: final(self)@.input, ..old(self)@ }),
    {
        self.input.on_keydown(key);
    }

    pub fn on_keyup(&mut self, key: &str)
        ensures
            final(self)@.input.down() == old(self)@.input.down().remove(key@),
            final(self)@.input.latched() == if old(self)@.input.down().contains(key@) {
                old(self)@.input.latched().insert(key@)
            } else {
                old(self)@.input.latched()
            },
            final(self)@.input.up() == old(self)@.input.up(),
            final(self)@ == (AppView { input: final(self)@.input, ..old(self)@ }),
    {
        self.input.on_keyup(key);
    }

    /// Polls `key` in the keyboard buffer.
    pub fn keydown(&mut self, key: &str) -> (pressed: bool)
        ensures
            pressed == old(self)@.input.sees(key@),
            old(self)@.input.polled(&final(self)@.input, key@),
            final(self)@ == (AppView { input: final(self)@.input, ..old(self)@ }),
    {
        self.input.keydown(key)
    }

    /// One axis from two keys of the keyboard buffer: see
    /// [`InputProto::axis`].
    pub fn axis(&mut self, pos: &str, neg: &str) -> (value: i8)
        ensures
            value == if old(self)@.input.sees(pos@) == old(self)@.input.sees_after(pos@, neg@) {
                0i8
            } else if old(self)@.input.sees(pos@) {
                1i8
            } else {
                -1i8
            },
            final(self)@.input.down() == old(self)@.input.down(),
            final(self)@.input.up() == old(self)@.input.up(),
            final(self)@.input.latched() == old(self)@.input.latched().difference(
                set![pos@, neg@].difference(old(self)@.input.down()),
            ),
            final(self)@ == (AppView { input: final(self)@.input, ..old(self)@ }),
    {
        self.input.axis(pos, neg)
    }

    /// The keyboard buffer.
    pub fn get_input(&self) -> (input: &InputProto)
        ensures
            *input == self@.input,
    {
        &self.input
    }

    /// Whether a frame at `now` can be counted: see [`FpsView::accepts`].
    pub fn accepts(&self, now: u128) -> (ok: bool)
        ensures
            ok == self@.counter.accepts(now),
    {
        self.counter.accepts(now)
    }

    /// A section bound to this application's registry: see [`Section::new`].
    pub fn new_section(&mut self, name: &str, width: u32, height: u32, padding: u32) -> (section: Section)
        requires
            old(self)@.state.next < u64::MAX,
        ensures
            final(self)@ == (AppView {
                state: StateView { next: (old(self)@.state.next + 1) as u64, ..old(self)@.state },
                ..old(self)@
            }),
            section@ == Section::spec_new(old(self)@.state.next, name@, width, height, padding),
    {
        Section::new(&mut self.state, name, width, height, padding)
    }

    /// A section bound to this application's registry, around `container`:
    /// see [`Section::new_with_container`].
    pub fn new_section_with_container(
        &mut self,
        name: &str,
        width: u32,
        height: u32,
        container: Container,
    ) -> (section: Section)
        requires
            old(self)@.state.next < u64::MAX,
        ensures
            final(self)@ == (AppView {
                state: StateView { next: (old(self)@.state.next + 1) as u64, ..old(self)@.state },
                ..old(self)@
            }),
            section@ == Section::spec_around(old(self)@.state.next, name@, width, height, container@),
    {
        Section::new_with_container(&mut self.state, name, width, height, container)
    }

    /// The active scene, if there is one.
    pub fn active_scene(&self) -> (scene: Option<&Scene>)
        ensures
            scene is Some <==> self@.has_active(),
            scene is Some ==> scene->0@ == self@.active(),
    {
        match self.find_active() {
            Some(i) => {
                assert(self@.scenes[i as int] == self.scenes[i as int]@);
                Some(&self.scenes[i])
            },
            None => None,
        }
    }

    /// The number of scenes.
    pub fn scene_count(&self) -> (n: usize)
        ensures
            n == self@.scenes.len(),
    {
        self.scenes.len()
    }

    /// The registry.
    pub fn get_state(&self) -> (state: &StateProto)
        ensures
            state@ == self@.state,
    {
        &self.state
    }

    /// The registry, to register and release names in.
    pub fn get_state_mut(&mut self) -> (state: &mut StateProto)
        ensures
            state@ == old(self)@.state,
            final(self)@ == (AppView { state: final(state)@, ..old(self)@ }),
    {
        &mut self.state
    }

    /// The rate of the last closed window of the frame counter.
    pub fn get_fps(&self) -> (fps: u32)
        ensures
            fps == self@.counter.fps,
    {
        self.counter.get()
    }

    /// The size of the surface as it was last noted.
    pub fn get_meta(&self) -> (meta: CanvasMeta)
        ensures
            meta == self@.meta,
    {
        self.meta
    }

    /// Hands `data` to every span, in any scene, whose identifier is `id`.
    pub fn dispatch(&mut self, id: u64, data: &Payload)
        ensures
            final(self)@ == old(self)@.told(id, data@),
            final(self)@.has_active() == old(self)@.has_active(),
    {
        proof {
            crate::lemmas::lemma_message_keeps_active(old(self)@, id, data@);
        }
        let n = self.scenes.len();
        let mut i: usize = 0;
        while i < n
            invariant
                i <= n,
                n == self.scenes.len(),
                n == old(self)@.scenes.len(),
                forall|j: int| i <= j < n ==> #[trigger] self@.scenes[j] == old(self)@.scenes[j],
                forall|j: int| 0 <= j < i ==> #[trigger] self@.scenes[j] == old(self)@.scenes[j].told(id, data@),
                self@ == (AppView { scenes: self@.scenes, ..old(self)@ }),
            decreases n - i,
        {
            let ghost before = *self;
            let scene = &mut self.scenes[i];
            scene.dispatch(id, data);
            proof {
                assert(self.scenes@ == before.scenes@.update(i as int, self.scenes@[i as int]));
                assert(before@.scenes[i as int] == before.scenes@[i as int]@);
                assert(self@.scenes =~= before@.scenes.update(i as int, self.scenes@[i as int]@));
            }
            i += 1;
        }
        proof {
            assert(self@.scenes =~= old(self)@.told(id, data@).scenes);
        }
    }

    /// Hands `data` to the live span registered under `name`, in whatever
    /// scene it is, and says whether there is such a span in the registry.
    pub fn dispatch_span(&mut self, name: &str, data: &Payload) -> (known: bool)
        ensures
            known == old(self)@.state.span(name@) is Some,
            known ==> final(self)@ == old(self)@.told(old(self)@.state.span(name@)->0, data@),
            !known ==> final(self)@ == old(self)@,
            final(self)@.has_active() == old(self)@.has_active(),
    {
        match self.state.fetch_span(name) {
            Some(id) => {
                self.dispatch(id, data);
                true
            },
            None => false,
        }
    }
}

} // verus!
