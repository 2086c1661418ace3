//! The session: which key is held, which screen is active, and how the
//! events of the maps are booked into the player's account and the galaxy.

use vstd::prelude::*;
use std::time::Instant;
use crate::clock::{elapsed_nanos, now};
use crate::components::galaxy_map::{GalacticMap, GalacticMapView};
use crate::components::star_map::{StarMap, StarMapView, needs_planet};
use crate::input::Key;
use crate::objects::{SolarSystemView, clone_planets};
use crate::storage::{Storage, StorageView, clone_systems, users_updated};
use crate::user::{User, UserView};
use crate::util::{Event, EventView, ItemDiff, events_view, events_wf};

verus! {

/// A screen of the game, in the order of the menu.
#[derive(Clone, Copy, Debug, PartialEq, Eq, Structural)]
pub enum MenuItem {
    GalacticMap,
    StarMap,
    Crew,
}

impl MenuItem {
    /// The place of the item in the menu, counted from zero.
    pub open spec fn spec_index(self) -> int {
        match self {
            MenuItem::GalacticMap => 0,
            MenuItem::StarMap => 1,
            MenuItem::Crew => 2,
        }
    }

    /// The item at place `index` of the menu, if there is one.
    pub open spec fn spec_from_index(index: int) -> Option<MenuItem> {
        if index == 0 {
            Some(MenuItem::GalacticMap)
        } else if index == 1 {
            Some(MenuItem::StarMap)
        } else if index == 2 {
            Some(MenuItem::Crew)
        } else {
            None
        }
    }

    /// The item that the cursor lands on `offset` places further down: the
    /// last item from one place above the first, and the first item from
    /// anywhere else off the menu.
    pub open spec fn moved_by(self, offset: int) -> MenuItem {
        let next = self.spec_index() + offset;
        if next == -1 {
            MenuItem::Crew
        } else {
            match MenuItem::spec_from_index(next) {
                Some(item) => item,
                None => MenuItem::GalacticMap,
            }
        }
    }

    /// The place of the item in the menu, counted from zero.
    pub fn index(self) -> (index: i8)
        ensures
            index == self.spec_index(),
    {
        match self {
            MenuItem::GalacticMap => 0,
            MenuItem::StarMap => 1,
            MenuItem::Crew => 2,
        }
    }

    /// The item at place `index` of the menu, if there is one.
    pub fn from_index(index: i8) -> (item: Option<MenuItem>)
        ensures
            item == MenuItem::spec_from_index(index as int),
    {
        if index == 0 {
            Some(MenuItem::GalacticMap)
        } else if index == 1 {
            Some(MenuItem::StarMap)
        } else if index == 2 {
            Some(MenuItem::Crew)
        } else {
            None
        }
    }
}

/// The menu: the item under the cursor and the item whose screen is shown.
#[derive(Clone, Copy, Debug, PartialEq, Eq, Structural)]
pub struct MenuState {
    pub selected: MenuItem,
    pub active: MenuItem,
}

impl MenuState {
    /// Moves the cursor by `offset` places.
    pub fn select(&mut self, offset: i8)
        requires
            i8::MIN <= old(self).selected.spec_index() + offset <= i8::MAX,
        ensures
            final(self).selected == old(self).selected.moved_by(offset as int),
            final(self).active == old(self).active,
    {
        let current: i8 = self.selected.index();
        let next: i8 = current + offset;
        if next == -1 {
            self.selected = MenuItem::Crew
        } else {
            self.selected = match MenuItem::from_index(next) {
                Some(item) => item,
                None => MenuItem::GalacticMap,
            };
        }
    }

    /// Shows the screen of the item under the cursor.
    pub fn activate(&mut self)
        ensures
            final(self).active == old(self).selected,
            final(self).selected == old(self).selected,
    {
        self.active = self.selected;
    }
}

/// A running session of one player.
pub struct App {
    exit: bool,
    last_key_pressed: Option<Key>,
    last_press_time: Instant,
    storage: Storage,
    user: User,
    menu: MenuState,
    starmap: Option<StarMap>,
    galaxy: GalacticMap,
    event: bool,
}

/// The model of an [`App`]. The moment at which the held key went down is
/// no part of it.
pub struct AppView {
    pub exit: bool,
    pub last_key_pressed: Option<Key>,
    pub storage: StorageView,
    pub user: UserView,
    pub menu: MenuState,
    pub starmap: Option<StarMapView>,
    pub galaxy: GalacticMapView,
    pub event: bool,
}

impl AppView {
    /// The maps are well formed.
    pub open spec fn wf(self) -> bool {
        &&& self.galaxy.wf()
        &&& self.starmap matches Some(map) ==> map.wf()
    }

    /// The session as it starts from the saved state: the ship where the
    /// player left it, the arrival rule applied there, and the star map of
    /// the system found, if any.
    pub open spec fn start(storage: StorageView, user: UserView) -> AppView {
        let galaxy = (GalacticMapView {
            solar_systems: storage.map,
            current_system: None,
            current_pos: (user.pos_x, user.pos_y),
            selected_pos: (user.pos_x, user.pos_y),
            warp_progress: 0,
            warped: false,
        }).arrived();
        AppView {
            exit: false,
            last_key_pressed: None,
            storage,
            user,
            menu: MenuState { selected: MenuItem::GalacticMap, active: MenuItem::GalacticMap },
            starmap: match galaxy.current_system {
                Some(i) => Some(StarMapView::start(galaxy.solar_systems[i].planets)),
                None => None,
            },
            galaxy,
            event: false,
        }
    }

    /// Booking `diff` keeps the player's resources and the shared component
    /// count within `i32`.
    pub open spec fn absorbs(self, diff: ItemDiff) -> bool {
        &&& self.user.absorbs(diff)
        &&& i32::MIN <= self.storage.components + diff.components <= i32::MAX
    }

    /// The event can be applied: a diff can be booked, and a planet update
    /// for the current system finds a star map to copy from.
    pub open spec fn can_apply(self, event: EventView) -> bool {
        match event {
            EventView::Item(diff) => self.absorbs(diff),
            EventView::PlanetUpdate => self.galaxy.current_system is Some ==> self.starmap is Some,
            _ => true,
        }
    }

    /// The session after one event.
    ///
    /// A diff is booked to the player, its components also to the shared
    /// count. A new system opens a star map of its planets, and leaving all
    /// systems closes the star map. A planet update copies the star map's
    /// planets into the current system. A random event raises the alert.
    pub open spec fn applied(self, event: EventView) -> AppView {
        match event {
            EventView::Item(diff) => AppView {
                user: self.user.booked(diff),
                storage: StorageView {
                    components: (self.storage.components + diff.components) as i32,
                    ..self.storage
                },
                ..self
            },
            EventView::NewSystem(Some(system)) => AppView {
                starmap: Some(StarMapView::start(system.planets)),
                ..self
            },
            EventView::NewSystem(None) => AppView { starmap: None, ..self },
            EventView::PlanetUpdate => match (self.galaxy.current_system, self.starmap) {
                (Some(i), Some(map)) => AppView {
                    galaxy: GalacticMapView {
                        solar_systems: self.galaxy.solar_systems.update(
                            i,
                            SolarSystemView {
                                planets: map.planets,
                                ..self.galaxy.solar_systems[i]
                            },
                        ),
                        ..self.galaxy
                    },
                    ..self
                },
                _ => self,
            },
            EventView::RandomEvent => AppView { event: true, ..self },
        }
    }

    /// The events can be applied one after the other.
    pub open spec fn can_apply_all(self, events: Seq<EventView>) -> bool
        decreases events.len(),
    {
        if events.len() == 0 {
            true
        } else {
            &&& self.can_apply_all(events.drop_last())
            &&& self.applied_all(events.drop_last()).can_apply(events.last())
        }
    }

    /// The session after the events, applied in order.
    pub open spec fn applied_all(self, events: Seq<EventView>) -> AppView
        decreases events.len(),
    {
        if events.len() == 0 {
            self
        } else {
            self.applied_all(events.drop_last()).applied(events.last())
        }
    }

    /// The session after the keys that every screen listens to: escape ends
    /// the session, up and down move the menu cursor, confirm shows the
    /// selected screen, and `q` acknowledges the alert.
    pub open spec fn menu_keyed(self, key: Key) -> AppView {
        match key {
            Key::Esc => AppView { exit: true, ..self },
            Key::Up => AppView {
                menu: MenuState { selected: self.menu.selected.moved_by(-1), ..self.menu },
                ..self
            },
            Key::Down => AppView {
                menu: MenuState { selected: self.menu.selected.moved_by(1), ..self.menu },
                ..self
            },
            Key::Enter => AppView {
                menu: MenuState { active: self.menu.selected, ..self.menu },
                ..self
            },
            Key::Char(c) => if c == 'q' {
                AppView { event: false, ..self }
            } else {
                self
            },
            _ => self,
        }
    }

    /// The session once `key` is on record as the held key and the menu has
    /// seen it: the state in which the active screen receives the key.
    pub open spec fn noted(self, key: Key) -> AppView {
        (AppView { last_key_pressed: Some(key), ..self }).menu_keyed(key)
    }

    /// The active screen can take `key`: a star map that is to move its
    /// cursor or explore has a planet, and what exploring yields can be
    /// booked.
    pub open spec fn ready_for(self, key: Key) -> bool {
        let noted = self.noted(key);
        noted.menu.active == MenuItem::StarMap ==> (noted.starmap matches Some(map) ==> {
            &&& needs_planet(key) ==> map.planets.len() > 0
            &&& key == Key::Char('e') ==> noted.absorbs(map.planets[map.current_location].harvest())
        })
    }

    /// The events that the active screen reports for `key`, held for
    /// `elapsed` nanoseconds.
    pub open spec fn reported(self, key: Key, elapsed: int) -> Seq<EventView> {
        let noted = self.noted(key);
        match noted.menu.active {
            MenuItem::GalacticMap => noted.galaxy.emitted(
                key,
                Some(key),
                elapsed,
                noted.user.fuel > 0,
            ),
            MenuItem::StarMap => match noted.starmap {
                Some(map) => map.emitted(key),
                None => Seq::empty(),
            },
            MenuItem::Crew => Seq::empty(),
        }
    }

    /// The session after the active screen has taken `key`, before the
    /// events are applied.
    pub open spec fn dispatched(self, key: Key, elapsed: int) -> AppView {
        let noted = self.noted(key);
        match noted.menu.active {
            MenuItem::GalacticMap => AppView {
                galaxy: noted.galaxy.step(key, Some(key), elapsed, noted.user.fuel > 0),
                ..noted
            },
            MenuItem::StarMap => match noted.starmap {
                Some(map) => AppView {
                    starmap: Some(map.step(key, Some(key), elapsed, noted.user.username)),
                    ..noted
                },
                None => noted,
            },
            MenuItem::Crew => noted,
        }
    }

    /// The session after the press of `key`, held for `elapsed` nanoseconds:
    /// the key is on record, the menu and the active screen have taken it,
    /// and the events are applied.
    pub open spec fn keyed(self, key: Key, elapsed: int) -> AppView {
        self.dispatched(key, elapsed).applied_all(self.reported(key, elapsed))
    }

    /// The session after a poll that brought no key: no key is held.
    pub open spec fn idled(self) -> AppView {
        AppView { last_key_pressed: None, ..self }
    }
}

impl View for App {
    type V = AppView;

    closed spec fn view(&self) -> AppView {
        AppView {
            exit: self.exit,
            last_key_pressed: self.last_key_pressed,
            storage: self.storage@,
            user: self.user@,
            menu: self.menu,
            starmap: match self.starmap {
                Some(map) => Some(map@),
                None => None,
            },
            galaxy: self.galaxy@,
            event: self.event,
        }
    }
}

impl App {
    /// The maps and what they hold are well formed.
    pub closed spec fn parts_wf(&self) -> bool {
        &&& self.galaxy.wf()
        &&& self.starmap matches Some(map) ==> map.wf()
    }

    /// The model is well formed and so are the parts.
    pub open spec fn wf(&self) -> bool {
        &&& self@.wf()
        &&& self.parts_wf()
    }

    /// The moment at which the held key went down.
    pub closed spec fn pressed_at(&self) -> Instant {
        self.last_press_time
    }

    /// A session of `user` on the saved state `storage`.
    pub fn new(storage: Storage, user: User) -> (app: App)
        requires
            storage.wf(),
        ensures
            app.wf(),
            app@ == AppView::start(storage@, user@),
    {
        let pos = (user.pos_x, user.pos_y);
        let solar_systems = clone_systems(&storage.map);
        let mut galaxy = GalacticMap::new(solar_systems, pos);
        galaxy.update_system();
        let starmap = match galaxy.get_current_system() {
            Some(system) => Some(system.to_star_map()),
            None => None,
        };
        App {
            exit: false,
            last_key_pressed: None,
            last_press_time: now(),
            storage,
            user,
            menu: MenuState { selected: MenuItem::GalacticMap, active: MenuItem::GalacticMap },
            starmap,
            galaxy,
            event: false,
        }
    }

    /// Whether the player has asked to end the session.
    pub fn exit(&self) -> (exit: bool)
        ensures
            exit == self@.exit,
    {
        self.exit
    }

    /// Whether an alert waits for the player's acknowledgement.
    pub fn event(&self) -> (event: bool)
        ensures
            event == self@.event,
    {
        self.event
    }

    /// The key that is held, if any.
    pub fn last_key_pressed(&self) -> (key: Option<Key>)
        ensures
            key == self@.last_key_pressed,
    {
        self.last_key_pressed
    }

    /// The player.
    pub fn user(&self) -> (user: &User)
        ensures
            user@ == self@.user,
    {
        &self.user
    }

    /// The saved state, with the shared component count of this session.
    pub fn storage(&self) -> (storage: &Storage)
        ensures
            storage@ == self@.storage,
    {
        &self.storage
    }

    /// The menu.
    pub fn menu(&self) -> (menu: MenuState)
        ensures
            menu == self@.menu,
    {
        self.menu
    }

    /// The galactic map.
    pub fn galaxy(&self) -> (galaxy: &GalacticMap)
        ensures
            galaxy@ == self@.galaxy,
            self.wf() ==> galaxy.wf(),
    {
        &self.galaxy
    }

    /// The star map of the system that the ship is in, if it is in one.
    pub fn starmap(&self) -> (starmap: Option<&StarMap>)
        ensures
            match starmap {
                Some(map) => self@.starmap == Some(map@) && (self.wf() ==> map.wf()),
                None => self@.starmap is None,
            },
    {
        match &self.starmap {
            Some(map) => Some(map),
            None => None,
        }
    }

    /// The keys that every screen listens to.
    pub fn handle_press_event(&mut self, key_event: Key)
        ensures
            final(self)@ == old(self)@.menu_keyed(key_event),
            final(self).parts_wf() == old(self).parts_wf(),
            final(self).pressed_at() == old(self).pressed_at(),
    {
        match key_event {
            Key::Esc => {
                self.exit = true;
            },
            Key::Up => {
                self.menu.select(-1);
            },
            Key::Down => {
                self.menu.select(1);
            },
            Key::Enter => {
                self.menu.activate();
            },
            Key::Char(c) => {
                if c == 'q' {
                    self.event = false;
                }
            },
            _ => {},
        }
    }

    /// Applies one event of a map to the session.
    pub fn apply_event(&mut self, event: &Event)
        requires
            old(self).wf(),
            old(self)@.can_apply(event@),
            event matches Event::NewSystem(Some(system)) ==> system.wf(),
        ensures
            final(self).wf(),
            final(self)@ == old(self)@.applied(event@),
            final(self).pressed_at() == old(self).pressed_at(),
    {
        match event {
            Event::Item(diff) => {
                self.user.book(*diff);
                self.storage.components = self.storage.components + diff.components;
            },
            Event::NewSystem(Some(system)) => {
                self.starmap = Some(system.to_star_map());
            },
            Event::NewSystem(None) => {
                self.starmap = None;
            },
            Event::PlanetUpdate => {
                if let Some(system) = self.galaxy.get_current_system_mut() {
                    if let Some(map) = &self.starmap {
                        system.planets = clone_planets(map.planets());
                    }
                }
            },
            Event::RandomEvent => {
                self.event = true;
            },
        }
    }

    /// Applies the events of a map to the session, in order.
    pub fn apply_events(&mut self, events: &Vec<Event>)
        requires
            old(self).wf(),
            old(self)@.can_apply_all(events_view(events@)),
            events_wf(events@),
        ensures
            final(self).wf(),
            final(self)@ == old(self)@.applied_all(events_view(events@)),
            final(self).pressed_at() == old(self).pressed_at(),
    {
        let ghost all = events_view(events@);
        let mut i: usize = 0;
        while i < events.len()
            invariant
                i <= events.len(),
                all == events_view(events@),
                events_wf(events@),
                self.wf(),
                self@ == old(self)@.applied_all(all.take(i as int)),
                old(self)@.can_apply_all(all),
                self.pressed_at() == old(self).pressed_at(),
            decreases events.len() - i,
        {
            proof {
                assert(all.take(i + 1).drop_last() =~= all.take(i as int));
                assert(all.take(i + 1).last() == events@[i as int]@);
                lemma_can_apply_prefix(old(self)@, all, i + 1);
            }
            self.apply_event(&events[i]);
            i += 1;
        }
        assert(all.take(i as int) =~= all);
    }

    /// The press of `key`, held for `elapsed` nanoseconds: puts the key on
    /// record, lets the menu and the active screen take it, and applies the
    /// events that the screen reports.
    pub fn handle_key(&mut self, key: Key, elapsed: u128)
        requires
            old(self).wf(),
            old(self)@.ready_for(key),
        ensures
            final(self).wf(),
            final(self)@ == old(self)@.keyed(key, elapsed as int),
            final(self).pressed_at() == old(self).pressed_at(),
    {
        self.last_key_pressed = Some(key);
        self.handle_press_event(key);
        let ghost noted = self@;
        let events = match self.menu.active {
            MenuItem::GalacticMap => {
                let can_warp = self.user.fuel > 0;
                let events = self.galaxy.handle_input(key, self.last_key_pressed, elapsed, can_warp);
                proof {
                    lemma_warp_can_be_applied(self@, noted.galaxy, key, Some(key), elapsed as int);
                }
                events
            },
            MenuItem::StarMap => {
                if let Some(map) = &mut self.starmap {
                    let username = self.user.username.clone();
                    let events = map.handle_input(key, self.last_key_pressed, elapsed, username);
                    proof {
                        lemma_visit_can_be_applied(noted, key, elapsed as int);
                    }
                    events
                } else {
                    Vec::new()
                }
            },
            MenuItem::Crew => Vec::new(),
        };
        assert(events_view(events@) =~= old(self)@.reported(key, elapsed as int));
        self.apply_events(&events);
    }

    /// One poll of the input: `Some` key that was pressed, or `None` when the
    /// poll timed out. A key that differs from the held key starts a new
    /// hold at the present moment. The time held is read from the clock, so
    /// the outcome of a press is that of [`App::handle_key`] for some elapsed
    /// time. A timeout leaves no key held.
    pub fn handle_events(&mut self, polled: Option<Key>)
        requires
            old(self).wf(),
            polled matches Some(key) ==> old(self)@.ready_for(key),
        ensures
            final(self).wf(),
            match polled {
                Some(key) => {
                    &&& exists|elapsed: u128|
                        final(self)@ == #[trigger] old(self)@.keyed(key, elapsed as int)
                    &&& old(self)@.last_key_pressed == Some(key) ==> final(self).pressed_at() == old(
                        self,
                    ).pressed_at()
                },
                None => final(self)@ == old(self)@.idled() && final(self).pressed_at() == old(
                    self,
                ).pressed_at(),
            },
    {
        match polled {
            Some(key) => {
                if self.last_key_pressed != Some(key) {
                    self.last_press_time = now();
                }
                let elapsed: u128 = elapsed_nanos(&self.last_press_time);
                self.handle_key(key, elapsed);
            },
            None => {
                self.last_key_pressed = None;
            },
        }
    }

    /// Ends the session: notes the ship's position on the player's account
    /// and returns the state to save, with the account and the galaxy of
    /// this session in it.
    pub fn close(&mut self) -> (saved: Storage)
        requires
            old(self).wf(),
        ensures
            final(self).wf(),
            final(self)@ == (AppView {
                user: UserView {
                    pos_x: old(self)@.galaxy.current_pos.0,
                    pos_y: old(self)@.galaxy.current_pos.1,
                    ..old(self)@.user
                },
                ..old(self)@
            }),
            saved@ == (StorageView {
                users: users_updated(old(self)@.storage.users, final(self)@.user),
                map: old(self)@.galaxy.solar_systems,
                ..old(self)@.storage
            }),
            saved.wf(),
    {
        let pos = self.galaxy.current_pos();
        self.user.pos_x = pos.0;
        self.user.pos_y = pos.1;
        let mut copy = self.storage.clone();
        copy.update_user(&self.user);
        copy.map = clone_systems(self.galaxy.solar_systems());
        copy
    }
}

/// The player's resources and the shared component count change only by
/// the diffs of the events: the taking of a key by the menu and the active
/// screen leaves them alone, and so does every event that is no diff.
pub proof fn lemma_resources_change_only_by_diffs(
    app: AppView,
    key: Key,
    elapsed: int,
    event: EventView,
)
    ensures
        app.dispatched(key, elapsed).user == app.user,
        app.dispatched(key, elapsed).storage == app.storage,
        !(event is Item) ==> app.applied(event).user == app.user && app.applied(event).storage
            == app.storage,
        event matches EventView::Item(diff) ==> app.applied(event).user == app.user.booked(diff),
{
}

/// A warp costs one unit of fuel and nothing else. With the galactic map
/// selected in the menu, a confirm press that completes a warp takes one unit
/// of fuel off the player's account and moves the ship to the cursor; any
/// other confirm press leaves the account and the ship as they are.
pub proof fn lemma_warp_costs_one_fuel(app: AppView, elapsed: int)
    requires
        app.menu.selected == MenuItem::GalacticMap,
    ensures
        ({
            let next = app.keyed(Key::Enter, elapsed);
            if app.galaxy.commits(Some(Key::Enter), elapsed, app.user.fuel > 0) {
                &&& next.user == (UserView { fuel: (app.user.fuel - 1) as i32, ..app.user })
                &&& next.storage == app.storage
                &&& next.galaxy.current_pos == app.galaxy.selected_pos
            } else {
                &&& next.user == app.user
                &&& next.storage == app.storage
                &&& next.galaxy.current_pos == app.galaxy.current_pos
                &&& next.starmap == app.starmap
            }
        }),
{
    let key = Key::Enter;
    let dispatched = app.dispatched(key, elapsed);
    let events = app.reported(key, elapsed);
    if app.galaxy.commits(Some(key), elapsed, app.user.fuel > 0) {
        let first = seq![events[0]];
        assert(first.drop_last() =~= Seq::<EventView>::empty());
        assert(dispatched.applied_all(first.drop_last()) == dispatched);
        assert(dispatched.applied_all(first) == dispatched.applied(events[0]));
        if events.len() == 2 {
            assert(events.drop_last() =~= first);
            assert(dispatched.applied_all(events) == dispatched.applied(events[0]).applied(
                events[1],
            ));
        } else {
            assert(events =~= first);
        }
    } else {
        assert(events =~= Seq::<EventView>::empty());
    }
}

/// Exploring books the harvest. On the star map screen, the explore key
/// books what the planet under the ship yields to the player's account, its
/// components also to the shared count, raises the alert if an event was
/// pending, and leaves the planet drained on the star map and in the
/// galaxy's entry of the current system.
pub proof fn lemma_explore_books_the_harvest(app: AppView, elapsed: int)
    requires
        app.menu.active == MenuItem::StarMap,
        app.starmap is Some,
        app.starmap->0.wf(),
        app.starmap->0.planets.len() > 0,
        app.galaxy.wf(),
        app.absorbs(app.starmap->0.planets[app.starmap->0.current_location].harvest()),
    ensures
        ({
            let map = app.starmap->0;
            let planet = map.planets[map.current_location];
            let next = app.keyed(Key::Char('e'), elapsed);
            &&& next.user == app.user.booked(planet.harvest())
            &&& next.storage.components == (app.storage.components
                + planet.harvest().components) as i32
            &&& next.event == (app.event || planet.has_event)
            &&& next.starmap == Some(map.explored(app.user.username))
            &&& next.starmap->0.planets[map.current_location].is_drained()
            &&& next.galaxy.solar_systems.len() == app.galaxy.solar_systems.len()
            &&& app.galaxy.current_system matches Some(i) ==> next.galaxy.solar_systems[i].planets
                == next.starmap->0.planets
            &&& next.galaxy.current_pos == app.galaxy.current_pos
        }),
{
    let key = Key::Char('e');
    let map = app.starmap->0;
    let planet = map.planets[map.current_location];
    let dispatched = app.dispatched(key, elapsed);
    let events = app.reported(key, elapsed);
    assert(events == planet.visit_events());
    let item = EventView::Item(planet.harvest());
    if planet.has_event {
        let one = seq![EventView::RandomEvent];
        let two = seq![EventView::RandomEvent, item];
        assert(one.drop_last() =~= Seq::<EventView>::empty());
        assert(dispatched.applied_all(one.drop_last()) == dispatched);
        assert(dispatched.applied_all(one) == dispatched.applied(EventView::RandomEvent));
        assert(two.drop_last() =~= one);
        assert(dispatched.applied_all(two) == dispatched.applied_all(one).applied(item));
        assert(events.drop_last() =~= two);
        assert(dispatched.applied_all(events) == dispatched.applied_all(two).applied(
            EventView::PlanetUpdate,
        ));
    } else {
        let one = seq![item];
        assert(one.drop_last() =~= Seq::<EventView>::empty());
        assert(dispatched.applied_all(one.drop_last()) == dispatched);
        assert(dispatched.applied_all(one) == dispatched.applied(item));
        assert(events.drop_last() =~= one);
        assert(dispatched.applied_all(events) == dispatched.applied_all(one).applied(
            EventView::PlanetUpdate,
        ));
    }
}

/// If all events can be applied, so can every prefix of them, and the event
/// after a prefix can be applied to what the prefix leaves.
pub proof fn lemma_can_apply_prefix(app: AppView, events: Seq<EventView>, n: int)
    requires
        app.can_apply_all(events),
        0 <= n <= events.len(),
    ensures
        app.can_apply_all(events.take(n)),
    decreases events.len(),
{
    if n == events.len() {
        assert(events.take(n) =~= events);
    } else {
        lemma_can_apply_prefix(app, events.drop_last(), n);
        assert(events.drop_last().take(n) =~= events.take(n));
    }
}

/// The events of a warp can always be applied: the warp needs fuel, so the
/// charge of one unit can be booked.
pub proof fn lemma_warp_can_be_applied(
    app: AppView,
    map: GalacticMapView,
    key: Key,
    held: Option<Key>,
    elapsed: int,
)
    ensures
        app.can_apply_all(map.emitted(key, held, elapsed, app.user.fuel > 0)),
{
    let events = map.emitted(key, held, elapsed, app.user.fuel > 0);
    if events.len() > 0 {
        let first = seq![events[0]];
        assert(first.drop_last() =~= Seq::<EventView>::empty());
        assert(app.can_apply_all(first.drop_last()));
        assert(app.can_apply_all(first));
        if events.len() == 2 {
            assert(events.drop_last() =~= first);
        } else {
            assert(events =~= first);
        }
    }
}

/// The events of a star map can be applied whenever the session is ready for
/// the key.
pub proof fn lemma_visit_can_be_applied(noted: AppView, key: Key, elapsed: int)
    requires
        noted.starmap is Some,
        key == Key::Char('e') ==> noted.absorbs(
            noted.starmap->0.planets[noted.starmap->0.current_location].harvest(),
        ),
    ensures
        (AppView {
            starmap: Some(noted.starmap->0.step(key, Some(key), elapsed, noted.user.username)),
            ..noted
        }).can_apply_all(noted.starmap->0.emitted(key)),
{
    let map = noted.starmap->0;
    let after = AppView {
        starmap: Some(map.step(key, Some(key), elapsed, noted.user.username)),
        ..noted
    };
    let events = map.emitted(key);
    if events.len() > 0 {
        let planet = map.planets[map.current_location];
        if planet.has_event {
            let one = seq![EventView::RandomEvent];
            let two = seq![EventView::RandomEvent, EventView::Item(planet.harvest())];
            assert(one.drop_last() =~= Seq::<EventView>::empty());
            assert(after.can_apply_all(one.drop_last()));
            assert(after.can_apply_all(one));
            assert(two.drop_last() =~= one);
            assert(after.applied_all(one.drop_last()) == after);
            assert(after.can_apply_all(two));
            assert(events.drop_last() =~= two);
        } else {
            let one = seq![EventView::Item(planet.harvest())];
            assert(one.drop_last() =~= Seq::<EventView>::empty());
            assert(after.can_apply_all(one.drop_last()));
            assert(after.can_apply_all(one));
            assert(events.drop_last() =~= one);
        }
    }
}

} // verus!
