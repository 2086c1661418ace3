//! Runs of key presses on the maps, and what holds of whole gestures: steering
//! never moves the ship, a short hold changes nothing, and one hold is charged
//! for once however long it lasts.

use vstd::prelude::*;
use crate::components::galaxy_map::{GalacticMapView, MOVE_DISTANCE, steered, warp_cost};
use crate::components::star_map::StarMapView;
use crate::input::Key;
use crate::util::{EventView, hold_complete};

verus! {

/// One key press as a map receives it: the key, the key held before it, the
/// nanoseconds since that key went down, and whether there is fuel to warp.
pub ghost struct Press {
    pub key: Key,
    pub held: Option<Key>,
    pub elapsed: int,
    pub can_warp: bool,
}

impl Press {
    /// The press is one of the four steering keys of the galactic map.
    pub open spec fn steers(self) -> bool {
        ||| self.key == Key::Char('a')
        ||| self.key == Key::Char('d')
        ||| self.key == Key::Char('w')
        ||| self.key == Key::Char('s')
    }

    /// The press is of the confirm key.
    pub open spec fn confirms(self) -> bool {
        self.key == Key::Enter
    }

    /// A key was held, there is fuel, and the hold is complete.
    pub open spec fn completes(self) -> bool {
        &&& self.held is Some
        &&& self.can_warp
        &&& hold_complete(self.elapsed)
    }
}

/// The number of presses to the right, less those to the left.
pub open spec fn net_right(presses: Seq<Press>) -> int
    decreases presses.len(),
{
    if presses.len() == 0 {
        0
    } else {
        net_right(presses.drop_last()) + if presses.last().key == Key::Char('d') {
            1int
        } else if presses.last().key == Key::Char('a') {
            -1int
        } else {
            0int
        }
    }
}

/// The number of presses upwards, less those downwards.
pub open spec fn net_up(presses: Seq<Press>) -> int
    decreases presses.len(),
{
    if presses.len() == 0 {
        0
    } else {
        net_up(presses.drop_last()) + if presses.last().key == Key::Char('w') {
            1int
        } else if presses.last().key == Key::Char('s') {
            -1int
        } else {
            0int
        }
    }
}

/// The point that lies the net movement of `presses` away from `pos`, if the
/// plane had no edge.
pub open spec fn steered_to(pos: (i32, i32), presses: Seq<Press>) -> (int, int) {
    (pos.0 + MOVE_DISTANCE * net_right(presses), pos.1 + MOVE_DISTANCE * net_up(presses))
}

/// The point is on the plane.
pub open spec fn on_plane(pos: (int, int)) -> bool {
    &&& i32::MIN <= pos.0 <= i32::MAX
    &&& i32::MIN <= pos.1 <= i32::MAX
}

/// The number of events that charge fuel.
pub open spec fn fuel_charges(events: Seq<EventView>) -> nat
    decreases events.len(),
{
    if events.len() == 0 {
        0
    } else {
        fuel_charges(events.drop_last()) + if events.last() matches EventView::Item(diff) && diff.fuel
            < 0 {
            1nat
        } else {
            0nat
        }
    }
}

impl GalacticMapView {
    /// The map after a run of key presses.
    pub open spec fn after(self, presses: Seq<Press>) -> GalacticMapView
        decreases presses.len(),
    {
        if presses.len() == 0 {
            self
        } else {
            let p = presses.last();
            self.after(presses.drop_last()).step(p.key, p.held, p.elapsed, p.can_warp)
        }
    }

    /// The events of a run of key presses, in order.
    pub open spec fn events_of(self, presses: Seq<Press>) -> Seq<EventView>
        decreases presses.len(),
    {
        if presses.len() == 0 {
            Seq::empty()
        } else {
            let p = presses.last();
            self.events_of(presses.drop_last()) + self.after(presses.drop_last()).emitted(
                p.key,
                p.held,
                p.elapsed,
                p.can_warp,
            )
        }
    }
}

impl StarMapView {
    /// The map after a run of key presses by `player`.
    pub open spec fn after(self, presses: Seq<Press>, player: Seq<char>) -> StarMapView
        decreases presses.len(),
    {
        if presses.len() == 0 {
            self
        } else {
            let p = presses.last();
            self.after(presses.drop_last(), player).step(p.key, p.held, p.elapsed, player)
        }
    }
}

/// The charges of two lists of events add up.
pub proof fn lemma_fuel_charges_add(first: Seq<EventView>, second: Seq<EventView>)
    ensures
        fuel_charges(first + second) == fuel_charges(first) + fuel_charges(second),
    decreases second.len(),
{
    if second.len() == 0 {
        assert(first + second =~= first);
    } else {
        lemma_fuel_charges_add(first, second.drop_last());
        assert((first + second).drop_last() =~= first + second.drop_last());
    }
}

/// A completed warp charges fuel once.
pub proof fn lemma_warp_charges_once(map: GalacticMapView)
    ensures
        fuel_charges(map.warp_events()) == 1,
        map.warp_events().len() >= 1,
        map.warp_events()[0] == EventView::Item(warp_cost()),
{
    let events = map.warp_events();
    let first = seq![EventView::Item(warp_cost())];
    assert(first.drop_last() =~= Seq::empty());
    assert(fuel_charges(first.drop_last()) == 0);
    assert(fuel_charges(first) == 1);
    if events.len() == 2 {
        assert(events.drop_last() =~= first);
    } else {
        assert(events =~= first);
    }
}

/// The ship moves only when a warp completes: after any one key press the
/// ship is where it was and in the system it was in, unless the press is a
/// confirm that completes a warp.
pub proof fn lemma_ship_moves_only_by_warp(map: GalacticMapView, press: Press)
    ensures
        ({
            let next = map.step(press.key, press.held, press.elapsed, press.can_warp);
            let events = map.emitted(press.key, press.held, press.elapsed, press.can_warp);
            if press.confirms() && map.commits(press.held, press.elapsed, press.can_warp) {
                &&& next.current_pos == map.selected_pos
                &&& events.len() >= 1
                &&& events[0] == EventView::Item(warp_cost())
            } else {
                &&& next.current_pos == map.current_pos
                &&& next.current_system == map.current_system
                &&& events == Seq::<EventView>::empty()
            }
        }),
        map.step(press.key, press.held, press.elapsed, press.can_warp).solar_systems
            == map.solar_systems,
{
    lemma_warp_charges_once(map);
}

/// One press of a steering key moves the cursor by exactly one step along the
/// key's axis, as far as the plane reaches; the ship stays and nothing is
/// reported.
pub proof fn lemma_steering_press(map: GalacticMapView, press: Press)
    requires
        press.steers(),
        on_plane(steered_to(map.selected_pos, seq![press])),
    ensures
        ({
            let next = map.step(press.key, press.held, press.elapsed, press.can_warp);
            &&& next.current_pos == map.current_pos
            &&& next.current_system == map.current_system
            &&& (next.selected_pos.0 as int, next.selected_pos.1 as int) == steered_to(
                map.selected_pos,
                seq![press],
            )
            &&& press.key == Key::Char('a') ==> next.selected_pos == (
                (map.selected_pos.0 - MOVE_DISTANCE) as i32,
                map.selected_pos.1,
            )
            &&& press.key == Key::Char('d') ==> next.selected_pos == (
                (map.selected_pos.0 + MOVE_DISTANCE) as i32,
                map.selected_pos.1,
            )
            &&& press.key == Key::Char('w') ==> next.selected_pos == (
                map.selected_pos.0,
                (map.selected_pos.1 + MOVE_DISTANCE) as i32,
            )
            &&& press.key == Key::Char('s') ==> next.selected_pos == (
                map.selected_pos.0,
                (map.selected_pos.1 - MOVE_DISTANCE) as i32,
            )
        }),
        map.emitted(press.key, press.held, press.elapsed, press.can_warp) == Seq::<EventView>::empty(),
{
    let one = seq![press];
    assert(one.drop_last() =~= Seq::<Press>::empty());
    assert(net_right(one.drop_last()) == 0);
    assert(net_up(one.drop_last()) == 0);
}

/// Steering alone, however long, never moves the ship and reports nothing;
/// the cursor ends the net movement of the presses away from where it
/// started, provided that no press on the way ran into the edge of the plane.
pub proof fn lemma_steering_run(map: GalacticMapView, presses: Seq<Press>)
    requires
        forall|i: int| 0 <= i < presses.len() ==> (#[trigger] presses[i]).steers(),
        forall|k: int|
            0 <= k <= presses.len() ==> on_plane(
                #[trigger] steered_to(map.selected_pos, presses.take(k)),
            ),
    ensures
        map.after(presses).current_pos == map.current_pos,
        map.after(presses).current_system == map.current_system,
        map.events_of(presses) == Seq::<EventView>::empty(),
        (map.after(presses).selected_pos.0 as int, map.after(presses).selected_pos.1 as int)
            == steered_to(map.selected_pos, presses),
    decreases presses.len(),
{
    if presses.len() > 0 {
        let front = presses.drop_last();
        assert forall|k: int| 0 <= k <= front.len() implies on_plane(
            #[trigger] steered_to(map.selected_pos, front.take(k)),
        ) by {
            assert(front.take(k) =~= presses.take(k));
        }
        lemma_steering_run(map, front);
        assert(presses.take(presses.len() as int) =~= presses);
        assert(on_plane(steered_to(map.selected_pos, presses)));
        assert(presses.last().steers());
        assert(map.events_of(presses) =~= Seq::<EventView>::empty());
    }
}

/// A confirm press with the cursor out of reach, or without fuel, or with no
/// key held, changes nothing and reports nothing, however long the hold.
pub proof fn lemma_confirm_out_of_reach_is_idle(map: GalacticMapView, press: Press)
    requires
        press.confirms(),
        !map.can_reach() || !press.can_warp || press.held is None,
    ensures
        map.step(press.key, press.held, press.elapsed, press.can_warp) == map,
        map.emitted(press.key, press.held, press.elapsed, press.can_warp) == Seq::<
            EventView,
        >::empty(),
{
}

/// The cursor moves at most one step per press: after a run of presses of
/// any keys, the cursor is no further from where it started than
/// [`MOVE_DISTANCE`] times the number of presses, along either axis.
pub proof fn lemma_cursor_moves_a_step_at_most(map: GalacticMapView, presses: Seq<Press>)
    ensures
        ({
            let end = map.after(presses).selected_pos;
            let reach = MOVE_DISTANCE * presses.len();
            &&& -reach <= end.0 - map.selected_pos.0 <= reach
            &&& -reach <= end.1 - map.selected_pos.1 <= reach
        }),
    decreases presses.len(),
{
    if presses.len() > 0 {
        lemma_cursor_moves_a_step_at_most(map, presses.drop_last());
        assert(MOVE_DISTANCE * presses.len() == MOVE_DISTANCE * presses.drop_last().len()
            + MOVE_DISTANCE) by (nonlinear_arith)
            requires
                presses.len() == presses.drop_last().len() + 1,
        ;
    }
}

/// A run of confirm presses that are all short of the hold duration never
/// moves the ship of the galactic map and reports nothing.
pub proof fn lemma_short_hold_galaxy(map: GalacticMapView, presses: Seq<Press>)
    requires
        forall|i: int|
            0 <= i < presses.len() ==> (#[trigger] presses[i]).confirms() && !hold_complete(
                presses[i].elapsed,
            ),
    ensures
        map.after(presses).current_pos == map.current_pos,
        map.after(presses).current_system == map.current_system,
        map.after(presses).selected_pos == map.selected_pos,
        map.after(presses).warped == map.warped,
        map.events_of(presses) == Seq::<EventView>::empty(),
    decreases presses.len(),
{
    if presses.len() > 0 {
        lemma_short_hold_galaxy(map, presses.drop_last());
        assert(presses.last().confirms());
        assert(map.events_of(presses) =~= Seq::<EventView>::empty());
    }
}

/// A run of confirm presses that are all short of the hold duration never
/// moves the ship of the star map.
pub proof fn lemma_short_hold_star(map: StarMapView, presses: Seq<Press>, player: Seq<char>)
    requires
        forall|i: int|
            0 <= i < presses.len() ==> (#[trigger] presses[i]).confirms() && !hold_complete(
                presses[i].elapsed,
            ),
    ensures
        map.after(presses, player).current_location == map.current_location,
        map.after(presses, player).selected_location == map.selected_location,
        map.after(presses, player).planets == map.planets,
    decreases presses.len(),
{
    if presses.len() > 0 {
        lemma_short_hold_star(map, presses.drop_last(), player);
        assert(presses.last().confirms());
    }
}

/// On the star map the ship moves only when a hold completes: after any one
/// key press the ship is at the planet it was at, unless the press is a
/// confirm after a complete hold, which takes it to the cursor.
pub proof fn lemma_star_ship_moves_only_by_warp(
    map: StarMapView,
    press: Press,
    player: Seq<char>,
)
    ensures
        ({
            let next = map.step(press.key, press.held, press.elapsed, player);
            if press.confirms() && press.held is Some && hold_complete(press.elapsed) {
                next.current_location == map.selected_location
            } else {
                next.current_location == map.current_location
            }
        }),
{
}

/// One hold is charged for at most once. A run of confirm presses, however
/// many and however long the key is held, charges fuel once if the hold was
/// not charged for before, the cursor is in reach and some press completes
/// the hold: the ship is then at the cursor. Otherwise it charges nothing and
/// the ship stays.
pub proof fn lemma_one_charge_per_hold(map: GalacticMapView, presses: Seq<Press>)
    requires
        forall|i: int| 0 <= i < presses.len() ==> (#[trigger] presses[i]).confirms(),
    ensures
        map.after(presses).selected_pos == map.selected_pos,
        map.after(presses).solar_systems == map.solar_systems,
        if !map.warped && map.can_reach() && exists|i: int|
            0 <= i < presses.len() && (#[trigger] presses[i]).completes() {
            &&& fuel_charges(map.events_of(presses)) == 1
            &&& map.after(presses).current_pos == map.selected_pos
            &&& map.after(presses).warped
        } else {
            &&& fuel_charges(map.events_of(presses)) == 0
            &&& map.events_of(presses) == Seq::<EventView>::empty()
            &&& map.after(presses).current_pos == map.current_pos
            &&& map.after(presses).current_system == map.current_system
            &&& map.after(presses).warped == map.warped
        },
    decreases presses.len(),
{
    if presses.len() > 0 {
        let front = presses.drop_last();
        let p = presses.last();
        let before = map.after(front);
        lemma_one_charge_per_hold(map, front);
        assert(p.confirms());
        let earlier = exists|i: int| 0 <= i < front.len() && (#[trigger] front[i]).completes();
        let any = exists|i: int| 0 <= i < presses.len() && (#[trigger] presses[i]).completes();
        if earlier {
            let i = choose|i: int| 0 <= i < front.len() && (#[trigger] front[i]).completes();
            assert(presses[i].completes());
        }
        if any && !earlier {
            let i = choose|i: int| 0 <= i < presses.len() && (#[trigger] presses[i]).completes();
            if i < front.len() {
                assert(front[i].completes());
            }
            assert(p.completes());
        }
        if p.completes() {
            assert(presses[presses.len() - 1].completes());
        }
        let tail = before.emitted(p.key, p.held, p.elapsed, p.can_warp);
        lemma_fuel_charges_add(map.events_of(front), tail);
        if before.commits(p.held, p.elapsed, p.can_warp) {
            lemma_warp_charges_once(before);
            lemma_reach_is_mutual_at_rest(before);
        } else {
            assert(tail =~= Seq::<EventView>::empty());
            assert(map.events_of(presses) =~= map.events_of(front));
        }
    }
}

/// With the cursor on the ship, the cursor is in reach.
pub proof fn lemma_reach_is_mutual_at_rest(map: GalacticMapView)
    ensures
        map.moved().can_reach(),
        map.moved().arrived().can_reach(),
{
    crate::util::lemma_distance_squared_bounds(map.selected_pos, map.selected_pos);
}

/// Any key but confirm ends the hold, so the next hold is charged for anew:
/// after such a key, a run of confirm presses charges fuel once if the cursor
/// is in reach and some press completes the hold, whether or not the hold
/// before was charged for.
pub proof fn lemma_other_key_starts_new_hold(map: GalacticMapView, other: Press, presses: Seq<Press>)
    requires
        !other.confirms(),
        forall|i: int| 0 <= i < presses.len() ==> (#[trigger] presses[i]).confirms(),
        exists|i: int| 0 <= i < presses.len() && (#[trigger] presses[i]).completes(),
        map.step(other.key, other.held, other.elapsed, other.can_warp).can_reach(),
    ensures
        !map.step(other.key, other.held, other.elapsed, other.can_warp).warped,
        fuel_charges(map.events_of(seq![other] + presses)) == 1,
        map.after(seq![other] + presses).current_pos == steered(map.selected_pos, other.key),
{
    let rearmed = map.step(other.key, other.held, other.elapsed, other.can_warp);
    lemma_one_charge_per_hold(rearmed, presses);
    lemma_run_splits(map, other, presses);
    assert(map.emitted(other.key, other.held, other.elapsed, other.can_warp) =~= Seq::<
        EventView,
    >::empty());
    assert(map.events_of(seq![other] + presses) =~= rearmed.events_of(presses));
}

/// A run is its first press followed by the run of the rest.
pub proof fn lemma_run_splits(map: GalacticMapView, first: Press, rest: Seq<Press>)
    ensures
        map.after(seq![first] + rest) == map.step(
            first.key,
            first.held,
            first.elapsed,
            first.can_warp,
        ).after(rest),
        map.events_of(seq![first] + rest) == map.emitted(
            first.key,
            first.held,
            first.elapsed,
            first.can_warp,
        ) + map.step(first.key, first.held, first.elapsed, first.can_warp).events_of(rest),
    decreases rest.len(),
{
    let all = seq![first] + rest;
    let next = map.step(first.key, first.held, first.elapsed, first.can_warp);
    if rest.len() == 0 {
        assert(all.drop_last() =~= Seq::<Press>::empty());
        assert(all.last() == first);
        assert(map.after(all.drop_last()) == map);
        assert(map.events_of(all.drop_last()) =~= Seq::<EventView>::empty());
        assert(map.events_of(all) =~= map.emitted(
            first.key,
            first.held,
            first.elapsed,
            first.can_warp,
        ) + next.events_of(rest));
    } else {
        lemma_run_splits(map, first, rest.drop_last());
        assert(all.drop_last() =~= seq![first] + rest.drop_last());
        assert(all.last() == rest.last());
        let p = rest.last();
        assert(map.events_of(all) =~= map.emitted(
            first.key,
            first.held,
            first.elapsed,
            first.can_warp,
        ) + next.events_of(rest));
    }
}

} // verus!
