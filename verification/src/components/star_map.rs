//! The map of one solar system: a cursor over its planets, the warp between
//! them, and the exploration of the planet the ship is at.

use vstd::prelude::*;
use vstd::arithmetic::div_mod::{lemma_mod_add_multiples_vanish, lemma_mod_self_0, lemma_small_mod};
use std::time::Instant;
use crate::clock::elapsed_nanos;
use crate::input::Key;
use crate::objects::{Planet, PlanetView, planets_view, planets_wf};
use crate::util::{
    Event, EventView, WARP_HOLD_NANOS, events_view, events_wf, hold_complete, hold_progress,
};

verus! {

/// The planets of one system with the player's cursor and ship among them.
pub struct StarMap {
    planets: Vec<Planet>,
    selected_location: usize,
    current_location: usize,
    warp_progress: u64,
}

/// The model of a [`StarMap`]. `warp_progress` counts the nanoseconds of the
/// hold that have been credited.
pub struct StarMapView {
    pub planets: Seq<PlanetView>,
    pub selected_location: int,
    pub current_location: int,
    pub warp_progress: int,
}

impl StarMapView {
    /// A map of `planets` with cursor and ship at the first of them.
    pub open spec fn start(planets: Seq<PlanetView>) -> StarMapView {
        StarMapView { planets, selected_location: 0, current_location: 0, warp_progress: 0 }
    }

    /// Both locations are planets of the map, or the map is empty and both are
    /// zero; the progress does not exceed the hold duration.
    pub open spec fn wf(self) -> bool {
        &&& 0 <= self.warp_progress <= WARP_HOLD_NANOS
        &&& if self.planets.len() == 0 {
            self.selected_location == 0 && self.current_location == 0
        } else {
            &&& 0 <= self.selected_location < self.planets.len()
            &&& 0 <= self.current_location < self.planets.len()
        }
    }

    /// The location one step to the left of `i` on the circle of planets.
    pub open spec fn left_of(self, i: int) -> int {
        (i + self.planets.len() - 1) % (self.planets.len() as int)
    }

    /// The location one step to the right of `i` on the circle of planets.
    pub open spec fn right_of(self, i: int) -> int {
        (i + self.planets.len() + 1) % (self.planets.len() as int)
    }

    /// The map after the confirm key `key`, when `held` was the key held
    /// before and the hold has lasted `elapsed` nanoseconds.
    ///
    /// Nothing happens unless a key was held and the cursor is away from the
    /// ship. A press that differs from the held key credits the elapsed time
    /// as progress. Once the hold is complete the ship moves to the cursor and
    /// the progress starts over.
    pub open spec fn confirmed(self, key: Key, held: Option<Key>, elapsed: int) -> StarMapView {
        if held is Some && self.current_location != self.selected_location {
            if hold_complete(elapsed) {
                StarMapView {
                    current_location: self.selected_location,
                    warp_progress: 0,
                    ..self
                }
            } else if held != Some(key) {
                StarMapView { warp_progress: hold_progress(elapsed), ..self }
            } else {
                self
            }
        } else {
            self
        }
    }

    /// The map after the planet at the ship's location was visited by
    /// `player`.
    pub open spec fn explored(self, player: Seq<char>) -> StarMapView {
        StarMapView {
            planets: self.planets.update(
                self.current_location,
                self.planets[self.current_location].visited(player),
            ),
            ..self
        }
    }

    /// The map after one key press.
    pub open spec fn step(
        self,
        key: Key,
        held: Option<Key>,
        elapsed: int,
        player: Seq<char>,
    ) -> StarMapView {
        match key {
            Key::Left => StarMapView {
                selected_location: self.left_of(self.selected_location),
                ..self
            },
            Key::Right => StarMapView {
                selected_location: self.right_of(self.selected_location),
                ..self
            },
            Key::Enter => self.confirmed(key, held, elapsed),
            Key::Char(c) => if c == 'e' {
                self.explored(player)
            } else {
                self
            },
            _ => self,
        }
    }

    /// The events of one key press: those of the visit for the explore key,
    /// none for any other.
    pub open spec fn emitted(self, key: Key) -> Seq<EventView> {
        if key == Key::Char('e') {
            self.planets[self.current_location].visit_events()
        } else {
            Seq::empty()
        }
    }
}

/// The key moves the cursor or explores, so it needs a planet to act on.
pub open spec fn needs_planet(key: Key) -> bool {
    key == Key::Left || key == Key::Right || key == Key::Char('e')
}

/// On a circle of `n` places, the step left of `i` is `i - 1`, or the last
/// place when `i` is the first; the step right is `i + 1`, or the first place
/// when `i` is the last.
pub proof fn lemma_circle_steps(i: int, n: int)
    requires
        0 <= i < n,
    ensures
        (i + n - 1) % n == if i == 0 { n - 1 } else { i - 1 },
        (i + n + 1) % n == if i == n - 1 { 0 } else { i + 1 },
{
    if i == 0 {
        lemma_small_mod((n - 1) as nat, n as nat);
    } else {
        lemma_mod_add_multiples_vanish(i - 1, n);
        lemma_small_mod((i - 1) as nat, n as nat);
    }
    if i == n - 1 {
        lemma_mod_add_multiples_vanish(n, n);
        lemma_mod_self_0(n);
    } else {
        lemma_mod_add_multiples_vanish(i + 1, n);
        lemma_small_mod((i + 1) as nat, n as nat);
    }
}

impl View for StarMap {
    type V = StarMapView;

    closed spec fn view(&self) -> StarMapView {
        StarMapView {
            planets: planets_view(self.planets@),
            selected_location: self.selected_location as int,
            current_location: self.current_location as int,
            warp_progress: self.warp_progress as int,
        }
    }
}

impl StarMap {
    /// Every planet of the map is well formed.
    pub closed spec fn planets_wf(&self) -> bool {
        planets_wf(self.planets@)
    }

    /// The model is well formed and so is every planet.
    pub open spec fn wf(&self) -> bool {
        &&& self@.wf()
        &&& self.planets_wf()
    }

    /// A map of `locations` with cursor and ship at the first of them.
    pub fn new(locations: Vec<Planet>) -> (map: StarMap)
        ensures
            map@ == StarMapView::start(planets_view(locations@)),
            planets_wf(locations@) ==> map.wf(),
    {
        StarMap { planets: locations, selected_location: 0, current_location: 0, warp_progress: 0 }
    }

    /// The planets of the map, in order.
    pub fn planets(&self) -> (planets: &Vec<Planet>)
        ensures
            planets_view(planets@) == self@.planets,
            self.wf() ==> planets_wf(planets@),
    {
        &self.planets
    }

    /// The location that the cursor is on.
    pub fn selected_location(&self) -> (i: usize)
        ensures
            i == self@.selected_location,
    {
        self.selected_location
    }

    /// The location that the ship is at.
    pub fn current_location(&self) -> (i: usize)
        ensures
            i == self@.current_location,
    {
        self.current_location
    }

    /// The nanoseconds of the hold that have been credited.
    pub fn warp_progress(&self) -> (nanos: u64)
        ensures
            nanos == self@.warp_progress,
    {
        self.warp_progress
    }

    /// One key press, with the key `held` before it and the nanoseconds
    /// `elapsed` since that key went down.
    pub fn handle_input(
        &mut self,
        key: Key,
        held: Option<Key>,
        elapsed: u128,
        username: String,
    ) -> (events: Vec<Event>)
        requires
            old(self).wf(),
            needs_planet(key) ==> old(self)@.planets.len() > 0,
        ensures
            final(self).wf(),
            final(self)@ == old(self)@.step(key, held, elapsed as int, username@),
            events_view(events@) == old(self)@.emitted(key),
            events_wf(events@),
    {
        match key {
            Key::Left => {
                proof {
                    lemma_circle_steps(self.selected_location as int, self.planets.len() as int);
                }
                self.selected_location = if self.selected_location == 0 {
                    self.planets.len() - 1
                } else {
                    self.selected_location - 1
                };
            },
            Key::Right => {
                proof {
                    lemma_circle_steps(self.selected_location as int, self.planets.len() as int);
                }
                self.selected_location = if self.selected_location == self.planets.len() - 1 {
                    0
                } else {
                    self.selected_location + 1
                };
            },
            Key::Enter => {
                if let Some(key_held) = held {
                    if self.current_location != self.selected_location {
                        if elapsed > WARP_HOLD_NANOS as u128 {
                            self.current_location = self.selected_location;
                            self.warp_progress = 0;
                        } else if key_held != key {
                            self.warp_progress = elapsed as u64;
                        }
                    }
                }
            },
            Key::Char(c) => {
                if c == 'e' {
                    let ghost before = self.planets@;
                    let events = self.planets[self.current_location].visit(username);
                    assert(planets_view(self.planets@) =~= planets_view(before).update(
                        self.current_location as int,
                        before[self.current_location as int]@.visited(username@),
                    ));
                    return events;
                }
            },
            _ => {},
        }
        let events: Vec<Event> = Vec::new();
        assert(events_view(events@) =~= Seq::empty());
        events
    }

    /// One key press, with the key held before it and the moment at which
    /// that key went down. The time held is read from the clock, so the
    /// outcome is that of [`StarMap::handle_input`] for some elapsed time.
    pub fn handle_press_event(
        &mut self,
        key_event: Key,
        last_key_pressed: Option<Key>,
        last_press_time: Instant,
        username: String,
    ) -> (events: Vec<Event>)
        requires
            old(self).wf(),
            needs_planet(key_event) ==> old(self)@.planets.len() > 0,
        ensures
            final(self).wf(),
            exists|elapsed: u128|
                final(self)@ == #[trigger] old(self)@.step(
                    key_event,
                    last_key_pressed,
                    elapsed as int,
                    username@,
                ),
            events_view(events@) == old(self)@.emitted(key_event),
            events_wf(events@),
    {
        let elapsed: u128 = elapsed_nanos(&last_press_time);
        self.handle_input(key_event, last_key_pressed, elapsed, username)
    }
}

} // verus!
