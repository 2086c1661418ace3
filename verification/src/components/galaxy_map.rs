//! The galactic map: the ship's position among the solar systems, the cursor
//! that the player steers, and the hold-to-warp gesture that moves the ship
//! to the cursor.

use vstd::prelude::*;
use std::time::Instant;
use crate::clock::elapsed_nanos;
use crate::input::Key;
use crate::objects::{SolarSystem, SolarSystemView};
use crate::util::{
    Event, EventView, ItemDiff, WARP_HOLD_NANOS, distance_squared, events_view, events_wf,
    hold_complete, hold_progress, in_radius, within_radius,
};

verus! {

/// Steps that one press of a steering key moves the cursor: a tenth of a unit.
pub const MOVE_DISTANCE: i32 = 100;

/// How close to a system the ship must be to have arrived there: a quarter of
/// a unit.
pub const STAR_DISTANCE: i32 = 250;

/// How far from the ship the cursor may be for a warp: three units.
pub const WARP_DISTANCE: i32 = 3000;

/// The galaxy with the ship and the cursor on it.
pub struct GalacticMap {
    solar_systems: Vec<SolarSystem>,
    current_system: Option<usize>,
    current_pos: (i32, i32),
    selected_pos: (i32, i32),
    warp_progress: u64,
    warped: bool,
}

/// The model of a [`GalacticMap`]. `warp_progress` counts the nanoseconds of
/// the hold that have been credited; `warped` says that the present hold has
/// been charged for already.
pub struct GalacticMapView {
    pub solar_systems: Seq<SolarSystemView>,
    pub current_system: Option<int>,
    pub current_pos: (i32, i32),
    pub selected_pos: (i32, i32),
    pub warp_progress: int,
    pub warped: bool,
}

/// The models of a list of systems, in order.
pub open spec fn systems_view(systems: Seq<SolarSystem>) -> Seq<SolarSystemView> {
    systems.map_values(|s: SolarSystem| s@)
}

/// Every system of the list is well formed.
pub open spec fn systems_wf(systems: Seq<SolarSystem>) -> bool {
    forall|i: int| 0 <= i < systems.len() ==> (#[trigger] systems[i]).wf()
}

/// The model of an optional index.
pub open spec fn index_view(index: Option<usize>) -> Option<int> {
    match index {
        Some(i) => Some(i as int),
        None => None,
    }
}

/// A coordinate moved by `by` steps. The plane ends where `i32` ends: a move
/// past the edge stops at the edge.
pub open spec fn shifted(coordinate: i32, by: int) -> i32 {
    if coordinate + by > i32::MAX {
        i32::MAX
    } else if coordinate + by < i32::MIN {
        i32::MIN
    } else {
        (coordinate + by) as i32
    }
}

/// The cursor after a key press: `a` and `d` move it left and right, `s` and
/// `w` down and up, each by [`MOVE_DISTANCE`]; other keys leave it.
pub open spec fn steered(pos: (i32, i32), key: Key) -> (i32, i32) {
    if key == Key::Char('a') {
        (shifted(pos.0, -MOVE_DISTANCE), pos.1)
    } else if key == Key::Char('d') {
        (shifted(pos.0, MOVE_DISTANCE as int), pos.1)
    } else if key == Key::Char('w') {
        (pos.0, shifted(pos.1, MOVE_DISTANCE as int))
    } else if key == Key::Char('s') {
        (pos.0, shifted(pos.1, -MOVE_DISTANCE))
    } else {
        pos
    }
}

/// The charge for one warp: a unit of fuel.
pub open spec fn warp_cost() -> ItemDiff {
    ItemDiff { crystals: 0, fuel: -1i32, components: 0 }
}

impl GalacticMapView {
    /// The current system is a system of the map and the progress does not
    /// exceed the hold duration.
    pub open spec fn wf(self) -> bool {
        &&& 0 <= self.warp_progress <= WARP_HOLD_NANOS
        &&& self.current_system matches Some(i) ==> 0 <= i < self.solar_systems.len()
    }

    /// System `i` lies within [`STAR_DISTANCE`] of the ship.
    pub open spec fn in_range(self, i: int) -> bool {
        &&& 0 <= i < self.solar_systems.len()
        &&& in_radius(self.current_pos, self.solar_systems[i].pos, STAR_DISTANCE as int)
    }

    /// Some system lies within [`STAR_DISTANCE`] of the ship.
    pub open spec fn any_in_range(self) -> bool {
        exists|i: int| self.in_range(i)
    }

    /// System `i` is one to arrive at: it is in range, and there is no current
    /// system or its name differs from the current system's.
    pub open spec fn is_arrival(self, i: int) -> bool {
        &&& self.in_range(i)
        &&& self.current_system matches Some(current) ==> self.solar_systems[i].name
            != self.solar_systems[current].name
    }

    /// The first system at or after `from` to arrive at, if there is one.
    pub open spec fn first_arrival(self, from: int) -> Option<int>
        decreases self.solar_systems.len() - from,
    {
        if from < 0 || from >= self.solar_systems.len() {
            None
        } else if self.is_arrival(from) {
            Some(from)
        } else {
            self.first_arrival(from + 1)
        }
    }

    /// What the arrival rule finds at the ship's position: `Some` with the
    /// system that becomes current (the first to arrive at, or none when no
    /// system is in range at all), or `None` when the current system stays.
    pub open spec fn detected(self) -> Option<Option<int>> {
        match self.first_arrival(0) {
            Some(i) => Some(Some(i)),
            None => if self.any_in_range() {
                None
            } else {
                Some(None)
            },
        }
    }

    /// The map after the arrival rule was applied.
    pub open spec fn arrived(self) -> GalacticMapView {
        match self.detected() {
            Some(target) => GalacticMapView { current_system: target, ..self },
            None => self,
        }
    }

    /// The cursor is within [`WARP_DISTANCE`] of the ship.
    pub open spec fn can_reach(self) -> bool {
        in_radius(self.selected_pos, self.current_pos, WARP_DISTANCE as int)
    }

    /// The confirm press completes a warp: a key was held, the cursor is in
    /// reach, warping is allowed, the hold is complete and has not been charged
    /// for.
    pub open spec fn commits(self, held: Option<Key>, elapsed: int, can_warp: bool) -> bool {
        &&& held is Some
        &&& self.can_reach()
        &&& can_warp
        &&& hold_complete(elapsed)
        &&& !self.warped
    }

    /// The map with the ship moved to the cursor, before the arrival rule.
    pub open spec fn moved(self) -> GalacticMapView {
        GalacticMapView {
            current_pos: self.selected_pos,
            warp_progress: 0,
            warped: true,
            ..self
        }
    }

    /// The events of a completed warp: the fuel charge, then the new system
    /// if the arrival rule finds one that differs from the current system.
    pub open spec fn warp_events(self) -> Seq<EventView> {
        match self.moved().detected() {
            Some(Some(i)) => seq![
                EventView::Item(warp_cost()),
                EventView::NewSystem(Some(self.solar_systems[i])),
            ],
            Some(None) => if self.current_system is Some {
                seq![EventView::Item(warp_cost()), EventView::NewSystem(None)]
            } else {
                seq![EventView::Item(warp_cost())]
            },
            None => seq![EventView::Item(warp_cost())],
        }
    }

    /// The map after the confirm key `key`, when `held` was the key held
    /// before, the hold has lasted `elapsed` nanoseconds and `can_warp` says
    /// whether there is fuel.
    ///
    /// Nothing happens unless a key was held, the cursor is in reach and
    /// warping is allowed. Then a complete hold starts the progress over and,
    /// if it has not been charged for, moves the ship to the cursor and
    /// applies the arrival rule; short of that, a press that differs from the
    /// held key credits the elapsed time as progress.
    pub open spec fn confirmed(
        self,
        key: Key,
        held: Option<Key>,
        elapsed: int,
        can_warp: bool,
    ) -> GalacticMapView {
        if held is Some && self.can_reach() && can_warp {
            if hold_complete(elapsed) {
                if self.warped {
                    GalacticMapView { warp_progress: 0, ..self }
                } else {
                    self.moved().arrived()
                }
            } else if held != Some(key) {
                GalacticMapView { warp_progress: hold_progress(elapsed), ..self }
            } else {
                self
            }
        } else {
            self
        }
    }

    /// The map after one key press. Any key but confirm ends the present hold
    /// and steers the cursor if it is a steering key.
    pub open spec fn step(
        self,
        key: Key,
        held: Option<Key>,
        elapsed: int,
        can_warp: bool,
    ) -> GalacticMapView {
        if key == Key::Enter {
            self.confirmed(key, held, elapsed, can_warp)
        } else {
            GalacticMapView {
                selected_pos: steered(self.selected_pos, key),
                warped: false,
                ..self
            }
        }
    }

    /// The events of one key press: those of a warp if the press completes
    /// one, none otherwise.
    pub open spec fn emitted(
        self,
        key: Key,
        held: Option<Key>,
        elapsed: int,
        can_warp: bool,
    ) -> Seq<EventView> {
        if key == Key::Enter && self.commits(held, elapsed, can_warp) {
            self.warp_events()
        } else {
            Seq::empty()
        }
    }
}

impl View for GalacticMap {
    type V = GalacticMapView;

    closed spec fn view(&self) -> GalacticMapView {
        GalacticMapView {
            solar_systems: systems_view(self.solar_systems@),
            current_system: index_view(self.current_system),
            current_pos: self.current_pos,
            selected_pos: self.selected_pos,
            warp_progress: self.warp_progress as int,
            warped: self.warped,
        }
    }
}

/// A coordinate moved by `by` steps, stopping at the edge of the plane.
fn shift(coordinate: i32, by: i32) -> (moved: i32)
    ensures
        moved == shifted(coordinate, by as int),
{
    let sum: i64 = coordinate as i64 + by as i64;
    if sum > i32::MAX as i64 {
        i32::MAX
    } else if sum < i32::MIN as i64 {
        i32::MIN
    } else {
        sum as i32
    }
}

impl GalacticMap {
    /// Every system of the map is well formed.
    pub closed spec fn systems_wf(&self) -> bool {
        systems_wf(self.solar_systems@)
    }

    /// The model is well formed and so is every system.
    pub open spec fn wf(&self) -> bool {
        &&& self@.wf()
        &&& self.systems_wf()
    }

    /// A map of `solar_systems` with ship and cursor at `pos`, in no system
    /// yet.
    pub fn new(solar_systems: Vec<SolarSystem>, pos: (i32, i32)) -> (map: GalacticMap)
        ensures
            map@ == (GalacticMapView {
                solar_systems: systems_view(solar_systems@),
                current_system: None,
                current_pos: pos,
                selected_pos: pos,
                warp_progress: 0,
                warped: false,
            }),
            systems_wf(solar_systems@) ==> map.wf(),
    {
        GalacticMap {
            solar_systems,
            current_system: None,
            current_pos: pos,
            selected_pos: pos,
            warp_progress: 0,
            warped: false,
        }
    }

    /// The systems of the map, in order.
    pub fn solar_systems(&self) -> (systems: &Vec<SolarSystem>)
        ensures
            systems_view(systems@) == self@.solar_systems,
            self.wf() ==> systems_wf(systems@),
    {
        &self.solar_systems
    }

    /// The index of the system that the ship is in.
    pub fn current_system(&self) -> (index: Option<usize>)
        ensures
            index_view(index) == self@.current_system,
    {
        self.current_system
    }

    /// Where the ship is.
    pub fn current_pos(&self) -> (pos: (i32, i32))
        ensures
            pos == self@.current_pos,
    {
        self.current_pos
    }

    /// Where the cursor is.
    pub fn selected_pos(&self) -> (pos: (i32, i32))
        ensures
            pos == self@.selected_pos,
    {
        self.selected_pos
    }

    /// The nanoseconds of the hold that have been credited.
    pub fn warp_progress(&self) -> (nanos: u64)
        ensures
            nanos == self@.warp_progress,
    {
        self.warp_progress
    }

    /// Whether the present hold has been charged for.
    pub fn warped(&self) -> (warped: bool)
        ensures
            warped == self@.warped,
    {
        self.warped
    }

    /// The system that the ship is in.
    pub fn get_current_system(&self) -> (system: Option<&SolarSystem>)
        requires
            self@.wf(),
        ensures
            match system {
                Some(s) => self@.current_system matches Some(i) && s@ == self@.solar_systems[i]
                    && (self.wf() ==> s.wf()),
                None => self@.current_system is None,
            },
    {
        if let Some(current) = self.current_system {
            Some(&self.solar_systems[current])
        } else {
            None
        }
    }

    /// The system that the ship is in, to be changed in place. Whatever the
    /// caller leaves there takes the system's place in the map.
    pub fn get_current_system_mut(&mut self) -> (system: Option<&mut SolarSystem>)
        requires
            old(self)@.wf(),
        ensures
            match system {
                Some(s) => {
                    &&& old(self)@.current_system matches Some(i)
                    &&& s@ == old(self)@.solar_systems[i]
                    &&& (old(self).wf() ==> s.wf())
                    &&& final(self)@ == (GalacticMapView {
                        solar_systems: old(self)@.solar_systems.update(i, final(s)@),
                        ..old(self)@
                    })
                    &&& (old(self).wf() && final(s).wf() ==> final(self).wf())
                },
                None => old(self)@.current_system is None && *final(self) == *old(self),
            },
    {
        if let Some(current) = self.current_system {
            proof {
                let systems = self.solar_systems@;
                assert forall|s: SolarSystem| #[trigger]
                    systems_view(systems.update(current as int, s)) == systems_view(
                        systems,
                    ).update(current as int, s@) by {
                    assert(systems_view(systems.update(current as int, s)) =~= systems_view(
                        systems,
                    ).update(current as int, s@));
                }
            }
            Some(&mut self.solar_systems[current])
        } else {
            None
        }
    }

    /// Applies the arrival rule at the ship's position and reports what it
    /// finds: `Some` with the system that becomes current, or `None` when the
    /// current system stays.
    pub fn check_for_systems(&self) -> (found: Option<Option<usize>>)
        requires
            self@.wf(),
        ensures
            match found {
                Some(target) => self@.detected() == Some(index_view(target)),
                None => self@.detected() is None,
            },
            found matches Some(Some(i)) ==> i < self@.solar_systems.len(),
    {
        let mut none_in_range = true;
        let mut i: usize = 0;
        while i < self.solar_systems.len()
            invariant
                i <= self.solar_systems.len(),
                self@.wf(),
                self@.first_arrival(0) == self@.first_arrival(i as int),
                none_in_range == forall|j: int| 0 <= j < i ==> !self@.in_range(j),
            decreases self.solar_systems.len() - i,
        {
            let system = &self.solar_systems[i];
            assert(system@ == self@.solar_systems[i as int]);
            if within_radius(self.current_pos, system.pos, STAR_DISTANCE) {
                assert(self@.in_range(i as int));
                none_in_range = false;
                if let Some(current) = self.get_current_system() {
                    if !(system.name == current.name) {
                        return Some(Some(i));
                    }
                } else {
                    return Some(Some(i));
                }
            }
            i += 1;
        }
        if none_in_range {
            assert(!self@.any_in_range());
            Some(None)
        } else {
            None
        }
    }

    /// Applies the arrival rule at the ship's position.
    pub fn update_system(&mut self)
        requires
            old(self).wf(),
        ensures
            final(self).wf(),
            final(self)@ == old(self)@.arrived(),
    {
        if let Some(system) = self.check_for_systems() {
            self.current_system = system;
        }
    }

    /// One key press, with the key `held` before it, the nanoseconds
    /// `elapsed` since that key went down, and whether there is fuel to warp.
    pub fn handle_input(&mut self, key: Key, held: Option<Key>, elapsed: u128, can_warp: bool) -> (events:
        Vec<Event>)
        requires
            old(self).wf(),
        ensures
            final(self).wf(),
            final(self)@ == old(self)@.step(key, held, elapsed as int, can_warp),
            events_view(events@) == old(self)@.emitted(key, held, elapsed as int, can_warp),
            events_wf(events@),
    {
        let mut events: Vec<Event> = Vec::new();
        assert(events_view(events@) =~= Seq::empty());
        match key {
            Key::Enter => {
                if let Some(key_held) = held {
                    if within_radius(self.selected_pos, self.current_pos, WARP_DISTANCE) && can_warp {
                        if elapsed > WARP_HOLD_NANOS as u128 {
                            self.warp_progress = 0;
                            if !self.warped {
                                self.warped = true;
                                self.current_pos = self.selected_pos;
                                events.push(Event::Item(ItemDiff { crystals: 0, fuel: -1, components: 0 }));
                                match self.check_for_systems() {
                                    Some(Some(i)) => {
                                        self.current_system = Some(i);
                                        events.push(Event::NewSystem(Some(self.solar_systems[i].clone())));
                                    },
                                    Some(None) => {
                                        if self.current_system.is_some() {
                                            events.push(Event::NewSystem(None));
                                        }
                                        self.current_system = None;
                                    },
                                    None => {},
                                }
                                assert(events_view(events@) =~= old(self)@.warp_events());
                            }
                        } else if key_held != key {
                            self.warp_progress = elapsed as u64;
                        }
                    }
                }
            },
            Key::Char(c) => {
                self.warped = false;
                if c == 'a' {
                    self.selected_pos.0 = shift(self.selected_pos.0, -MOVE_DISTANCE);
                } else if c == 'd' {
                    self.selected_pos.0 = shift(self.selected_pos.0, MOVE_DISTANCE);
                } else if c == 'w' {
                    self.selected_pos.1 = shift(self.selected_pos.1, MOVE_DISTANCE);
                } else if c == 's' {
                    self.selected_pos.1 = shift(self.selected_pos.1, -MOVE_DISTANCE);
                }
            },
            _ => {
                self.warped = false;
            },
        }
        events
    }

    /// One key press, with the key held before it, the moment at which that
    /// key went down, and whether there is fuel to warp. The time held is read
    /// from the clock, so the outcome is that of [`GalacticMap::handle_input`]
    /// for some elapsed time.
    pub fn handle_press_event(
        &mut self,
        key_event: Key,
        last_key_pressed: Option<Key>,
        last_press_time: Instant,
        can_warp: bool,
    ) -> (events: Vec<Event>)
        requires
            old(self).wf(),
        ensures
            final(self).wf(),
            exists|elapsed: u128|
                {
                    &&& final(self)@ == #[trigger] old(self)@.step(
                        key_event,
                        last_key_pressed,
                        elapsed as int,
                        can_warp,
                    )
                    &&& events_view(events@) == old(self)@.emitted(
                        key_event,
                        last_key_pressed,
                        elapsed as int,
                        can_warp,
                    )
                },
            events_wf(events@),
    {
        let elapsed: u128 = elapsed_nanos(&last_press_time);
        self.handle_input(key_event, last_key_pressed, elapsed, can_warp)
    }
}

impl GalacticMapView {
    /// What [`GalacticMapView::first_arrival`] finds is a system to arrive
    /// at, at or after `from`, with none before it; it finds nothing only if
    /// there is none.
    pub proof fn lemma_first_arrival(self, from: int)
        requires
            0 <= from,
        ensures
            match self.first_arrival(from) {
                Some(i) => from <= i < self.solar_systems.len() && self.is_arrival(i) && forall|j: int|
                    from <= j < i ==> !self.is_arrival(j),
                None => forall|j: int| from <= j ==> !self.is_arrival(j),
            },
        decreases self.solar_systems.len() - from,
    {
        if from < self.solar_systems.len() && !self.is_arrival(from) {
            self.lemma_first_arrival(from + 1);
        }
    }

    /// The arrival rule, case by case: it finds the first system to arrive
    /// at if there is one; failing that it finds that the ship is in no
    /// system if none is in range, and that the current system stays
    /// otherwise.
    pub proof fn lemma_detected(self)
        ensures
            match self.detected() {
                Some(Some(i)) => self.is_arrival(i) && forall|j: int| 0 <= j < i ==> !self.is_arrival(j),
                Some(None) => forall|j: int| !self.in_range(j),
                None => self.any_in_range() && forall|j: int| !self.is_arrival(j),
            },
    {
        self.lemma_first_arrival(0);
    }

    /// The rim of a system counts: a ship exactly [`STAR_DISTANCE`] away from
    /// a system is in range of it.
    pub proof fn lemma_rim_is_in_range(self, i: int)
        requires
            0 <= i < self.solar_systems.len(),
            distance_squared(self.current_pos, self.solar_systems[i].pos) == STAR_DISTANCE
                * STAR_DISTANCE,
        ensures
            self.in_range(i),
    {
    }

    /// Of several systems in range, the first in the order of the map wins:
    /// with no current system, and no system before `i` in range, the arrival
    /// rule finds system `i` whatever else is in range, at whatever distance.
    pub proof fn lemma_first_in_range_wins(self, i: int)
        requires
            self.current_system is None,
            self.in_range(i),
            forall|j: int| 0 <= j < i ==> !self.in_range(j),
        ensures
            self.detected() == Some(Some(i)),
    {
        self.lemma_first_arrival(0);
        assert(self.is_arrival(i));
        match self.first_arrival(0) {
            Some(k) => {
                if k < i {
                    assert(self.in_range(k));
                }
            },
            None => {},
        }
    }
}

} // verus!
