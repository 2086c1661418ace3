use std::time::{Duration, Instant};

use galaxy_nav::app::{App, MenuItem, MenuState};
use galaxy_nav::input::Key;
use galaxy_nav::objects::{Planet, SolarSystem};
use galaxy_nav::storage::Storage;
use galaxy_nav::user::User;
use galaxy_nav::util::{Event, ItemDiff};

const LONG: u128 = 1_500_000_000;

fn user(name: &str, pos: (i32, i32), fuel: i32) -> User {
    User {
        username: String::from(name),
        password_start: String::from("abc"),
        password_attempts: 0,
        password_attempts_max: 3,
        password: String::from("abc-123"),
        pos_x: pos.0,
        pos_y: pos.1,
        fuel,
        crystals: 10,
        reputation: 0,
    }
}

fn sol() -> SolarSystem {
    SolarSystem {
        name: String::from("Sol"),
        pos: (1_000, 0),
        planets: vec![
            Planet::new(String::from("I"), 20_000, 50_000, 3_000, false, true, 5, 2),
            Planet::new(String::from("II"), 60_000, 50_000, 5_000, true, false, 1, 0),
        ],
    }
}

fn storage(users: Vec<User>) -> Storage {
    Storage { path: String::from("save.json"), users, map: vec![sol()], components: 4 }
}

fn session(pos: (i32, i32), fuel: i32) -> App {
    let alice = user("alice", pos, fuel);
    App::new(storage(vec![user("bob", (0, 0), 1), alice.clone()]), alice)
}

fn press(app: &mut App, key: Key, times: usize) {
    for _ in 0..times {
        app.handle_key(key, 0);
    }
}

#[test]
fn menu_cursor_moves_down_and_falls_back_to_the_first_item() {
    let mut menu = MenuState { selected: MenuItem::GalacticMap, active: MenuItem::GalacticMap };
    menu.select(1);
    assert_eq!(menu.selected, MenuItem::StarMap);
    menu.select(1);
    assert_eq!(menu.selected, MenuItem::Crew);
    menu.select(1);
    assert_eq!(menu.selected, MenuItem::GalacticMap);
    assert_eq!(menu.active, MenuItem::GalacticMap);
}

#[test]
fn menu_cursor_moves_up_and_wraps_to_the_last_item() {
    let mut menu = MenuState { selected: MenuItem::GalacticMap, active: MenuItem::GalacticMap };
    menu.select(-1);
    assert_eq!(menu.selected, MenuItem::Crew);
    menu.select(-1);
    assert_eq!(menu.selected, MenuItem::StarMap);
    menu.select(-1);
    assert_eq!(menu.selected, MenuItem::GalacticMap);
}

#[test]
fn menu_cursor_off_the_menu_lands_on_the_first_item() {
    let mut menu = MenuState { selected: MenuItem::Crew, active: MenuItem::StarMap };
    menu.select(5);
    assert_eq!(menu.selected, MenuItem::GalacticMap);
    menu.selected = MenuItem::StarMap;
    menu.select(-2);
    assert_eq!(menu.selected, MenuItem::Crew);
    menu.selected = MenuItem::StarMap;
    menu.select(-100);
    assert_eq!(menu.selected, MenuItem::GalacticMap);
    assert_eq!(menu.active, MenuItem::StarMap);
}

#[test]
fn menu_activate_shows_the_selected_screen() {
    let mut menu = MenuState { selected: MenuItem::Crew, active: MenuItem::GalacticMap };
    menu.activate();
    assert_eq!(menu, MenuState { selected: MenuItem::Crew, active: MenuItem::Crew });
}

#[test]
fn menu_items_are_numbered_in_order() {
    assert_eq!(MenuItem::GalacticMap.index(), 0);
    assert_eq!(MenuItem::StarMap.index(), 1);
    assert_eq!(MenuItem::Crew.index(), 2);
    assert_eq!(MenuItem::from_index(0), Some(MenuItem::GalacticMap));
    assert_eq!(MenuItem::from_index(1), Some(MenuItem::StarMap));
    assert_eq!(MenuItem::from_index(2), Some(MenuItem::Crew));
    assert_eq!(MenuItem::from_index(3), None);
    assert_eq!(MenuItem::from_index(-1), None);
}

#[test]
fn session_starts_where_the_player_left() {
    let app = session((5_000, 5_000), 3);
    assert_eq!(app.galaxy().current_pos(), (5_000, 5_000));
    assert_eq!(app.galaxy().selected_pos(), (5_000, 5_000));
    assert_eq!(app.galaxy().current_system(), None);
    assert!(app.starmap().is_none());
    assert!(!app.exit());
    assert!(!app.event());
    assert_eq!(app.last_key_pressed(), None);
    assert_eq!(app.menu(), MenuState { selected: MenuItem::GalacticMap, active: MenuItem::GalacticMap });
    assert_eq!(app.user().username, "alice");
    assert_eq!(app.storage().components, 4);
}

#[test]
fn session_that_starts_in_a_system_opens_its_star_map() {
    let app = session((1_000, 200), 3);
    assert_eq!(app.galaxy().current_system(), Some(0));
    let map = app.starmap().expect("the ship is in a system");
    assert_eq!(map.planets(), &sol().planets);
}

#[test]
fn escape_ends_the_session() {
    let mut app = session((0, 0), 3);
    app.handle_key(Key::Esc, 0);
    assert!(app.exit());
    assert_eq!(app.last_key_pressed(), Some(Key::Esc));
}

#[test]
fn timeout_forgets_the_held_key() {
    let mut app = session((0, 0), 3);
    app.handle_key(Key::Char('d'), 0);
    assert_eq!(app.last_key_pressed(), Some(Key::Char('d')));
    app.handle_events(None);
    assert_eq!(app.last_key_pressed(), None);
    assert_eq!(app.galaxy().selected_pos(), (100, 0));
}

#[test]
fn polled_key_is_handled_with_the_time_on_the_clock() {
    let mut app = session((0, 0), 3);
    app.handle_events(Some(Key::Char('d')));
    app.handle_events(Some(Key::Char('d')));
    assert_eq!(app.galaxy().selected_pos(), (200, 0));
    // a confirm that was pressed this instant has not been held for a second
    app.handle_events(Some(Key::Enter));
    assert_eq!(app.galaxy().current_pos(), (0, 0));
    assert_eq!(app.user().fuel, 3);
    assert_eq!(app.last_key_pressed(), Some(Key::Enter));
}

#[test]
fn confirm_held_for_over_a_second_warps_once() {
    let mut app = session((0, 0), 3);
    app.handle_events(Some(Key::Char('d')));
    app.handle_events(Some(Key::Enter));
    assert_eq!(app.galaxy().current_pos(), (0, 0));
    let pressed = Instant::now();
    while pressed.elapsed() < Duration::from_millis(1100) {
        std::hint::spin_loop();
    }
    app.handle_events(Some(Key::Enter));
    assert_eq!(app.galaxy().current_pos(), (100, 0));
    assert_eq!(app.user().fuel, 2);
    app.handle_events(Some(Key::Enter));
    assert_eq!(app.user().fuel, 2);
}

#[test]
fn timeout_starts_the_hold_over() {
    let mut app = session((0, 0), 3);
    app.handle_events(Some(Key::Char('d')));
    app.handle_events(Some(Key::Enter));
    let pressed = Instant::now();
    while pressed.elapsed() < Duration::from_millis(600) {
        std::hint::spin_loop();
    }
    // the key was let go: the next press starts a new hold
    app.handle_events(None);
    app.handle_events(Some(Key::Enter));
    let pressed_again = Instant::now();
    while pressed_again.elapsed() < Duration::from_millis(600) {
        std::hint::spin_loop();
    }
    app.handle_events(Some(Key::Enter));
    assert_eq!(app.galaxy().current_pos(), (0, 0));
    assert_eq!(app.user().fuel, 3);
}

#[test]
fn warp_costs_one_fuel_and_opens_the_star_map() {
    let mut app = session((0, 0), 3);
    press(&mut app, Key::Char('d'), 10);
    app.handle_key(Key::Enter, LONG);
    assert_eq!(app.galaxy().current_pos(), (1_000, 0));
    assert_eq!(app.galaxy().current_system(), Some(0));
    assert_eq!(app.user().fuel, 2);
    assert_eq!(app.user().crystals, 10);
    assert_eq!(app.user().reputation, 0);
    assert_eq!(app.storage().components, 4);
    assert_eq!(app.starmap().expect("the ship arrived").planets(), &sol().planets);
    // holding on costs nothing more
    app.handle_key(Key::Enter, LONG + 1_000_000_000);
    assert_eq!(app.user().fuel, 2);
}

#[test]
fn last_unit_of_fuel_can_be_spent_and_then_no_more() {
    let mut app = session((0, 0), 1);
    press(&mut app, Key::Char('w'), 1);
    app.handle_key(Key::Enter, LONG);
    assert_eq!(app.user().fuel, 0);
    assert_eq!(app.galaxy().current_pos(), (0, 100));
    press(&mut app, Key::Char('w'), 1);
    app.handle_key(Key::Enter, LONG);
    assert_eq!(app.user().fuel, 0);
    assert_eq!(app.galaxy().current_pos(), (0, 100));
}

#[test]
fn leaving_the_system_closes_the_star_map() {
    let mut app = session((1_000, 0), 3);
    assert!(app.starmap().is_some());
    press(&mut app, Key::Char('w'), 5);
    app.handle_key(Key::Enter, LONG);
    assert_eq!(app.galaxy().current_system(), None);
    assert!(app.starmap().is_none());
    assert_eq!(app.user().fuel, 2);
}

#[test]
fn menu_keys_reach_the_menu_on_every_screen() {
    let mut app = session((1_000, 0), 3);
    app.handle_key(Key::Down, 0);
    assert_eq!(app.menu().selected, MenuItem::StarMap);
    assert_eq!(app.menu().active, MenuItem::GalacticMap);
    app.handle_key(Key::Enter, 0);
    assert_eq!(app.menu().active, MenuItem::StarMap);
    app.handle_key(Key::Up, 0);
    app.handle_key(Key::Up, 0);
    assert_eq!(app.menu().selected, MenuItem::Crew);
    app.handle_key(Key::Enter, 0);
    assert_eq!(app.menu().active, MenuItem::Crew);
    // the crew screen takes no keys
    app.handle_key(Key::Char('e'), 0);
    app.handle_key(Key::Char('d'), 0);
    assert_eq!(app.galaxy().selected_pos(), (1_000, 0));
    assert_eq!(app.user().crystals, 10);
}

#[test]
fn exploring_books_the_harvest_and_writes_the_planet_back() {
    let mut app = session((1_000, 0), 3);
    app.handle_key(Key::Down, 0);
    app.handle_key(Key::Enter, 0);
    app.handle_key(Key::Char('e'), 0);
    assert_eq!(app.user().crystals, 15);
    assert_eq!(app.user().fuel, 5);
    assert_eq!(app.user().reputation, 1);
    assert_eq!(app.storage().components, 5);
    assert!(!app.event());
    let written = &app.galaxy().solar_systems()[0].planets[0];
    assert_eq!(written.crystals(), 0);
    assert_eq!(written.fuel(), 0);
    assert!(!written.has_component());
    assert_eq!(written.visited_by(), &vec![String::from("alice")]);
    // a second visit books nothing
    app.handle_key(Key::Char('e'), 0);
    assert_eq!(app.user().crystals, 15);
    assert_eq!(app.user().fuel, 5);
    assert_eq!(app.user().reputation, 1);
    assert_eq!(app.storage().components, 5);
}

#[test]
fn random_event_raises_the_alert_until_acknowledged() {
    let mut app = session((1_000, 0), 3);
    app.handle_key(Key::Down, 0);
    app.handle_key(Key::Enter, 0);
    app.handle_key(Key::Right, 0);
    app.handle_key(Key::Enter, LONG);
    assert_eq!(app.starmap().expect("in a system").current_location(), 1);
    app.handle_key(Key::Char('e'), 0);
    assert!(app.event());
    assert_eq!(app.user().crystals, 11);
    app.handle_key(Key::Char('x'), 0);
    assert!(app.event());
    app.handle_key(Key::Char('q'), 0);
    assert!(!app.event());
}

#[test]
fn star_map_screen_without_a_system_takes_keys_idly() {
    let mut app = session((0, 0), 3);
    app.handle_key(Key::Down, 0);
    app.handle_key(Key::Enter, 0);
    assert_eq!(app.menu().active, MenuItem::StarMap);
    app.handle_key(Key::Char('e'), 0);
    app.handle_key(Key::Left, 0);
    app.handle_key(Key::Enter, LONG);
    assert!(app.starmap().is_none());
    assert_eq!(app.user().crystals, 10);
    assert_eq!(app.user().fuel, 3);
}

#[test]
fn events_are_applied_in_order() {
    let mut app = session((1_000, 0), 3);
    let other = SolarSystem { name: String::from("Far"), pos: (9_000, 9_000), planets: vec![] };
    app.apply_events(&vec![
        Event::Item(ItemDiff { crystals: 2, fuel: -1, components: 3 }),
        Event::RandomEvent,
        Event::NewSystem(None),
        Event::NewSystem(Some(other)),
        Event::Item(ItemDiff { crystals: -12, fuel: 0, components: 0 }),
    ]);
    assert_eq!(app.user().crystals, 0);
    assert_eq!(app.user().fuel, 2);
    assert_eq!(app.user().reputation, 3);
    assert_eq!(app.storage().components, 7);
    assert!(app.event());
    assert!(app.starmap().expect("the last system stays").planets().is_empty());
}

#[test]
fn planet_update_copies_the_star_map_into_the_current_system() {
    let mut app = session((1_000, 0), 3);
    let replaced = SolarSystem {
        name: String::from("Sol"),
        pos: (1_000, 0),
        planets: vec![Planet::new(String::from("Only"), 1, 2, 3, false, false, 0, 0)],
    };
    app.apply_event(&Event::NewSystem(Some(replaced.clone())));
    assert_eq!(app.galaxy().solar_systems()[0].planets.len(), 2);
    app.apply_event(&Event::PlanetUpdate);
    assert_eq!(app.galaxy().solar_systems()[0].planets, replaced.planets);
    assert_eq!(app.galaxy().solar_systems()[0].name, "Sol");
}

#[test]
fn planet_update_outside_every_system_changes_nothing() {
    let mut app = session((0, 0), 3);
    app.apply_event(&Event::PlanetUpdate);
    assert_eq!(app.galaxy().solar_systems()[0], sol());
}

#[test]
fn closing_notes_the_position_and_returns_the_state_to_save() {
    let mut app = session((0, 0), 3);
    press(&mut app, Key::Char('d'), 10);
    app.handle_key(Key::Enter, LONG);
    app.handle_key(Key::Down, 0);
    app.handle_key(Key::Enter, 0);
    app.handle_key(Key::Char('e'), 0);
    let saved = app.close();
    assert_eq!(app.user().pos_x, 1_000);
    assert_eq!(app.user().pos_y, 0);
    assert_eq!(saved.path, "save.json");
    assert_eq!(saved.components, 5);
    assert_eq!(saved.users.len(), 2);
    assert_eq!(saved.users[0], user("bob", (0, 0), 1));
    assert_eq!(saved.users[1], *app.user());
    assert_eq!(saved.users[1].fuel, 4);
    assert_eq!(saved.users[1].crystals, 15);
    assert_eq!(saved.map, *app.galaxy().solar_systems());
    assert_eq!(saved.map[0].planets[0].crystals(), 0);
    assert_eq!(saved.map[0].planets[1].crystals(), 1);
}

#[test]
fn storage_starts_empty() {
    let storage = Storage::new(String::from("fallback.json"));
    assert_eq!(storage.path, "fallback.json");
    assert!(storage.users.is_empty());
    assert!(storage.map.is_empty());
    assert_eq!(storage.components, 0);
}

#[test]
fn update_user_replaces_every_account_of_that_name() {
    let mut storage = storage(vec![user("alice", (0, 0), 1), user("bob", (0, 0), 1), user("alice", (5, 5), 9)]);
    let fresh = user("alice", (7, 8), 42);
    storage.update_user(&fresh);
    assert_eq!(storage.users, vec![fresh.clone(), user("bob", (0, 0), 1), fresh]);
    let stranger = user("carol", (1, 1), 1);
    let before = storage.clone();
    storage.update_user(&stranger);
    assert_eq!(storage, before);
}

#[test]
fn booking_a_diff_changes_the_three_resources() {
    let mut alice = user("alice", (0, 0), 3);
    alice.book(ItemDiff { crystals: 5, fuel: 2, components: 1 });
    assert_eq!((alice.crystals, alice.fuel, alice.reputation), (15, 5, 1));
    alice.book(ItemDiff { crystals: 0, fuel: -6, components: 0 });
    assert_eq!((alice.crystals, alice.fuel, alice.reputation), (15, -1, 1));
    assert_eq!((alice.pos_x, alice.pos_y), (0, 0));
}
