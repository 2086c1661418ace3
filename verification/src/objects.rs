//! Planets and the solar systems that hold them.

use vstd::prelude::*;
use crate::components::star_map::{StarMap, StarMapView};
use crate::util::{Event, EventView, ItemDiff, events_view, events_wf};

verus! {

/// A planet of a solar system: where it is drawn, and what a visit yields.
///
/// The yield can be collected once: the first visit by anyone drains it.
#[derive(Debug, PartialEq, Eq)]
pub struct Planet {
    name: String,
    x: i32,
    y: i32,
    radius: i32,
    has_event: bool,
    has_component: bool,
    crystals: i32,
    fuel: i32,
    visited_by: Vec<String>,
}

/// The model of a [`Planet`]. The visitors form a set of names.
pub struct PlanetView {
    pub name: Seq<char>,
    pub x: i32,
    pub y: i32,
    pub radius: i32,
    pub has_event: bool,
    pub has_component: bool,
    pub crystals: i32,
    pub fuel: i32,
    pub visited_by: Set<Seq<char>>,
}

/// The character sequences of a list of strings, in order.
pub open spec fn names(strings: Seq<String>) -> Seq<Seq<char>> {
    strings.map_values(|s: String| s@)
}

impl PlanetView {
    /// What a visit collects: all crystals, all fuel, and the component if
    /// there is one.
    pub open spec fn harvest(self) -> ItemDiff {
        ItemDiff {
            crystals: self.crystals,
            fuel: self.fuel,
            components: if self.has_component { 1 } else { 0 },
        }
    }

    /// The planet after a visit by `player`: the visitor is on record and
    /// nothing is left to collect.
    pub open spec fn visited(self, player: Seq<char>) -> PlanetView {
        PlanetView {
            has_event: false,
            has_component: false,
            crystals: 0,
            fuel: 0,
            visited_by: self.visited_by.insert(player),
            ..self
        }
    }

    /// The events of a visit: the random event if one is pending, then the
    /// harvest, then the request to write the planet back.
    pub open spec fn visit_events(self) -> Seq<EventView> {
        if self.has_event {
            seq![EventView::RandomEvent, EventView::Item(self.harvest()), EventView::PlanetUpdate]
        } else {
            seq![EventView::Item(self.harvest()), EventView::PlanetUpdate]
        }
    }

    /// Nothing is left to collect and no event is pending.
    pub open spec fn is_drained(self) -> bool {
        &&& !self.has_event
        &&& !self.has_component
        &&& self.crystals == 0
        &&& self.fuel == 0
    }

    /// Nobody has visited the planet.
    pub open spec fn is_unvisited(self) -> bool {
        forall|player: Seq<char>| !self.visited_by.contains(player)
    }

    /// The yields are not negative, and a planet that has been visited is
    /// drained.
    pub open spec fn wf(self) -> bool {
        &&& 0 <= self.crystals
        &&& 0 <= self.fuel
        &&& self.is_unvisited() || self.is_drained()
    }
}

/// A planet yields once: after a visit by anyone, a further visit by the same
/// or another player collects nothing, reports no random event, and leaves
/// the planet as it is but for the visitor's name on record.
pub proof fn lemma_second_visit_yields_nothing(
    planet: PlanetView,
    first: Seq<char>,
    second: Seq<char>,
)
    ensures
        planet.visited(first).is_drained(),
        planet.visited(first).harvest() == ItemDiff::zero(),
        planet.visited(first).visit_events() == seq![
            EventView::Item(ItemDiff::zero()),
            EventView::PlanetUpdate,
        ],
        planet.visited(first).visited(second) == (PlanetView {
            visited_by: planet.visited_by.insert(first).insert(second),
            ..planet.visited(first)
        }),
        planet.visited(first).visited(first) == planet.visited(first),
{
    assert(planet.visited_by.insert(first).insert(first) =~= planet.visited_by.insert(first));
}

/// A planet that anyone has visited yields nothing, whoever visits next.
pub proof fn lemma_visited_planet_yields_nothing(
    planet: PlanetView,
    visitor: Seq<char>,
    player: Seq<char>,
)
    requires
        planet.wf(),
        planet.visited_by.contains(visitor),
    ensures
        planet.harvest() == ItemDiff::zero(),
        planet.visit_events() == seq![EventView::Item(ItemDiff::zero()), EventView::PlanetUpdate],
        planet.visited(player).wf(),
{
}

/// A visit leaves a well-formed planet, drained and with the visitor on
/// record.
pub proof fn lemma_visit_keeps_wf(planet: PlanetView, player: Seq<char>)
    ensures
        planet.visited(player).wf(),
        planet.visited(player).is_drained(),
        planet.visited(player).visited_by.contains(player),
{
}

impl View for Planet {
    type V = PlanetView;

    closed spec fn view(&self) -> PlanetView {
        PlanetView {
            name: self.name@,
            x: self.x,
            y: self.y,
            radius: self.radius,
            has_event: self.has_event,
            has_component: self.has_component,
            crystals: self.crystals,
            fuel: self.fuel,
            visited_by: names(self.visited_by@).to_set(),
        }
    }
}

impl Planet {
    /// No visitor is on record twice.
    pub closed spec fn visitors_listed_once(&self) -> bool {
        names(self.visited_by@).no_duplicates()
    }

    /// The model is well formed and no visitor is on record twice.
    pub open spec fn wf(&self) -> bool {
        &&& self@.wf()
        &&& self.visitors_listed_once()
    }

    /// A planet that nobody has visited yet.
    pub fn new(
        name: String,
        x: i32,
        y: i32,
        radius: i32,
        has_event: bool,
        has_component: bool,
        crystals: i32,
        fuel: i32,
    ) -> (planet: Planet)
        requires
            0 <= crystals,
            0 <= fuel,
        ensures
            planet.wf(),
            planet@ == (PlanetView {
                name: name@,
                x,
                y,
                radius,
                has_event,
                has_component,
                crystals,
                fuel,
                visited_by: Set::empty(),
            }),
    {
        let planet = Planet {
            name,
            x,
            y,
            radius,
            has_event,
            has_component,
            crystals,
            fuel,
            visited_by: Vec::new(),
        };
        assert(names(planet.visited_by@) =~= Seq::empty());
        assert(names(planet.visited_by@).to_set() =~= Set::empty());
        planet
    }

    /// The planet's name.
    pub fn name(&self) -> (name: &String)
        ensures
            name@ == self@.name,
    {
        &self.name
    }

    /// Where the planet is drawn, left to right.
    pub fn x(&self) -> (x: i32)
        ensures
            x == self@.x,
    {
        self.x
    }

    /// Where the planet is drawn, bottom to top.
    pub fn y(&self) -> (y: i32)
        ensures
            y == self@.y,
    {
        self.y
    }

    /// The radius that the planet is drawn with.
    pub fn radius(&self) -> (radius: i32)
        ensures
            radius == self@.radius,
    {
        self.radius
    }

    /// The crystals that a visit would collect.
    pub fn crystals(&self) -> (crystals: i32)
        ensures
            crystals == self@.crystals,
    {
        self.crystals
    }

    /// The fuel that a visit would collect.
    pub fn fuel(&self) -> (fuel: i32)
        ensures
            fuel == self@.fuel,
    {
        self.fuel
    }

    /// The players that have visited the planet, each once, in the order of
    /// their first visits.
    pub fn visited_by(&self) -> (visitors: &Vec<String>)
        ensures
            names(visitors@).to_set() == self@.visited_by,
            self.wf() ==> names(visitors@).no_duplicates(),
    {
        &self.visited_by
    }

    /// Whether an event is pending on the planet.
    pub fn has_event(&self) -> (pending: bool)
        ensures
            pending == self@.has_event,
    {
        self.has_event
    }

    /// Whether the planet still holds a component.
    pub fn has_component(&self) -> (present: bool)
        ensures
            present == self@.has_component,
    {
        self.has_component
    }

    /// Whether `name` is on record as a visitor.
    pub fn was_visited_by(&self, name: &String) -> (found: bool)
        ensures
            found == self@.visited_by.contains(name@),
    {
        let mut i: usize = 0;
        while i < self.visited_by.len()
            invariant
                i <= self.visited_by.len(),
                forall|j: int| 0 <= j < i ==> names(self.visited_by@)[j] != name@,
            decreases self.visited_by.len() - i,
        {
            if self.visited_by[i] == *name {
                assert(names(self.visited_by@)[i as int] == name@);
                return true;
            }
            i += 1;
        }
        false
    }

    /// Puts `name` on the list of visitors unless it is there.
    fn list_visitor(&mut self, name: String)
        requires
            old(self).visitors_listed_once(),
        ensures
            final(self).visitors_listed_once(),
            final(self)@ == (PlanetView {
                visited_by: old(self)@.visited_by.insert(name@),
                ..old(self)@
            }),
    {
        if !self.was_visited_by(&name) {
            let ghost before = names(self.visited_by@);
            self.visited_by.push(name);
            assert(names(self.visited_by@) =~= before.push(name@));
            assert(before.push(name@).to_set() =~= before.to_set().insert(name@)) by {
                assert forall|s: Seq<char>|
                    before.to_set().insert(name@).contains(s) implies before.push(name@).contains(
                    s,
                ) by {
                    if s == name@ {
                        assert(before.push(name@)[before.len() as int] == s);
                    } else {
                        let j = choose|j: int| 0 <= j < before.len() && before[j] == s;
                        assert(before.push(name@)[j] == s);
                    }
                }
            }
        } else {
            assert(self@.visited_by.insert(name@) =~= self@.visited_by);
        }
    }

    /// Puts `name` on record as a visitor of a planet that is drained: the
    /// way to build a planet that was visited earlier.
    pub fn record_visitor(&mut self, name: String)
        requires
            old(self).wf(),
            old(self)@.is_drained(),
        ensures
            final(self).wf(),
            final(self)@ == (PlanetView {
                visited_by: old(self)@.visited_by.insert(name@),
                ..old(self)@
            }),
    {
        self.list_visitor(name);
    }

    /// A visit by the player `name`: collects whatever the planet still
    /// yields and reports it.
    pub fn visit(&mut self, name: String) -> (events: Vec<Event>)
        requires
            old(self).wf(),
        ensures
            final(self).wf(),
            final(self)@ == old(self)@.visited(name@),
            events_view(events@) == old(self)@.visit_events(),
            events_wf(events@),
    {
        self.list_visitor(name);
        let mut events: Vec<Event> = Vec::new();
        let mut diff = ItemDiff { crystals: self.crystals, fuel: self.fuel, components: 0 };
        self.crystals = 0;
        self.fuel = 0;
        if self.has_event {
            self.has_event = false;
            events.push(Event::RandomEvent);
        }
        if self.has_component {
            self.has_component = false;
            diff.components += 1;
        }
        events.push(Event::Item(diff));
        events.push(Event::PlanetUpdate);
        assert(events_view(events@) =~= old(self)@.visit_events());
        events
    }
}

impl Clone for Planet {
    /// A copy with the same model.
    fn clone(&self) -> (copy: Planet)
        ensures
            copy@ == self@,
            self.wf() ==> copy.wf(),
    {
        let mut visited_by: Vec<String> = Vec::new();
        let mut i: usize = 0;
        while i < self.visited_by.len()
            invariant
                i <= self.visited_by.len(),
                names(visited_by@) == names(self.visited_by@).take(i as int),
            decreases self.visited_by.len() - i,
        {
            let ghost before = names(visited_by@);
            let visitor = self.visited_by[i].clone();
            visited_by.push(visitor);
            assert(names(visited_by@) =~= before.push(visitor@));
            assert(names(self.visited_by@)[i as int] == visitor@);
            assert(names(visited_by@) =~= names(self.visited_by@).take(i + 1));
            i += 1;
        }
        assert(names(self.visited_by@).take(i as int) =~= names(self.visited_by@));
        Planet {
            name: self.name.clone(),
            x: self.x,
            y: self.y,
            radius: self.radius,
            has_event: self.has_event,
            has_component: self.has_component,
            crystals: self.crystals,
            fuel: self.fuel,
            visited_by,
        }
    }
}

/// A star with its planets, at a point of the galactic map.
#[derive(Debug, PartialEq, Eq)]
pub struct SolarSystem {
    pub name: String,
    pub pos: (i32, i32),
    pub planets: Vec<Planet>,
}

/// The model of a [`SolarSystem`].
pub struct SolarSystemView {
    pub name: Seq<char>,
    pub pos: (i32, i32),
    pub planets: Seq<PlanetView>,
}

/// The models of a list of planets, in order.
pub open spec fn planets_view(planets: Seq<Planet>) -> Seq<PlanetView> {
    planets.map_values(|p: Planet| p@)
}

/// Every planet of the list is well formed.
pub open spec fn planets_wf(planets: Seq<Planet>) -> bool {
    forall|i: int| 0 <= i < planets.len() ==> (#[trigger] planets[i]).wf()
}

/// A copy of a list of planets, planet by planet.
pub fn clone_planets(planets: &Vec<Planet>) -> (copy: Vec<Planet>)
    ensures
        planets_view(copy@) == planets_view(planets@),
        planets_wf(planets@) ==> planets_wf(copy@),
{
    let mut copy: Vec<Planet> = Vec::new();
    let mut i: usize = 0;
    while i < planets.len()
        invariant
            i <= planets.len(),
            copy.len() == i,
            forall|j: int| 0 <= j < i ==> (#[trigger] copy@[j])@ == planets@[j]@,
            planets_wf(planets@) ==> planets_wf(copy@),
        decreases planets.len() - i,
    {
        copy.push(planets[i].clone());
        i += 1;
    }
    assert(planets_view(copy@) =~= planets_view(planets@));
    copy
}

impl SolarSystemView {
    /// Some planet of the system still holds a component.
    pub open spec fn has_component(self) -> bool {
        exists|i: int| 0 <= i < self.planets.len() && (#[trigger] self.planets[i]).has_component
    }

    /// Some planet of the system still has an event pending.
    pub open spec fn has_event(self) -> bool {
        exists|i: int| 0 <= i < self.planets.len() && (#[trigger] self.planets[i]).has_event
    }
}

impl View for SolarSystem {
    type V = SolarSystemView;

    open spec fn view(&self) -> SolarSystemView {
        SolarSystemView { name: self.name@, pos: self.pos, planets: planets_view(self.planets@) }
    }
}

impl SolarSystem {
    /// Every planet of the system is well formed.
    pub open spec fn wf(&self) -> bool {
        planets_wf(self.planets@)
    }

    /// A star map of the system, on a copy of its planets.
    pub fn to_star_map(&self) -> (map: StarMap)
        ensures
            map@ == StarMapView::start(self@.planets),
            self.wf() ==> map.wf(),
    {
        StarMap::new(clone_planets(&self.planets))
    }

    /// Whether some planet of the system still holds a component.
    pub fn has_component(&self) -> (found: bool)
        ensures
            found == self@.has_component(),
    {
        let mut i: usize = 0;
        while i < self.planets.len()
            invariant
                i <= self.planets.len(),
                forall|j: int| 0 <= j < i ==> !(#[trigger] self@.planets[j]).has_component,
            decreases self.planets.len() - i,
        {
            if self.planets[i].has_component() {
                assert(self@.planets[i as int].has_component);
                return true;
            }
            i += 1;
        }
        false
    }

    /// Whether some planet of the system still has an event pending.
    pub fn has_event(&self) -> (found: bool)
        ensures
            found == self@.has_event(),
    {
        let mut i: usize = 0;
        while i < self.planets.len()
            invariant
                i <= self.planets.len(),
                forall|j: int| 0 <= j < i ==> !(#[trigger] self@.planets[j]).has_event,
            decreases self.planets.len() - i,
        {
            if self.planets[i].has_event() {
                assert(self@.planets[i as int].has_event);
                return true;
            }
            i += 1;
        }
        false
    }
}

impl Clone for SolarSystem {
    /// A copy with the same model.
    fn clone(&self) -> (copy: SolarSystem)
        ensures
            copy@ == self@,
            self.wf() ==> copy.wf(),
    {
        SolarSystem {
            name: self.name.clone(),
            pos: self.pos,
            planets: clone_planets(&self.planets),
        }
    }
}

} // verus!
