use galaxy_nav::input::Key;
use galaxy_nav::login::{first_part_is, LoginScreen};
use galaxy_nav::user::User;

fn account(name: &str, start: &str, attempts: u8, max: u8, password: &str) -> User {
    User {
        username: String::from(name),
        password_start: String::from(start),
        password_attempts: attempts,
        password_attempts_max: max,
        password: String::from(password),
        pos_x: 0,
        pos_y: 0,
        fuel: 10,
        crystals: 0,
        reputation: 0,
    }
}

fn type_text(screen: &mut LoginScreen, text: &str) {
    for c in text.chars() {
        screen.handle_press_event(Key::Char(c));
    }
}

#[test]
fn first_part_ends_at_the_first_dash() {
    assert!(first_part_is(&String::from("abc-123"), &String::from("abc")));
    assert!(first_part_is(&String::from("abc-123-xyz"), &String::from("abc")));
    assert!(first_part_is(&String::from("abc"), &String::from("abc")));
    assert!(first_part_is(&String::from("abc-"), &String::from("abc")));
    assert!(!first_part_is(&String::from("abc-123"), &String::from("abc-123")));
    assert!(!first_part_is(&String::from("abc-123"), &String::from("ab")));
    assert!(!first_part_is(&String::from("abc-123"), &String::from("abcd")));
    assert!(!first_part_is(&String::from("abc-123"), &String::from("abd")));
    assert!(!first_part_is(&String::from("ab"), &String::from("abc")));
}

#[test]
fn first_part_of_an_empty_or_dashed_password_is_empty() {
    assert!(first_part_is(&String::from(""), &String::from("")));
    assert!(first_part_is(&String::from("-abc"), &String::from("")));
    assert!(!first_part_is(&String::from(""), &String::from("a")));
    assert!(!first_part_is(&String::from("a"), &String::from("")));
}

#[test]
fn first_part_compares_whole_characters() {
    assert!(first_part_is(&String::from("succès-1"), &String::from("succès")));
    assert!(!first_part_is(&String::from("succès-1"), &String::from("succes")));
}

#[test]
fn new_login_screen_is_empty() {
    let screen = LoginScreen::new(vec![account("alice", "abc", 0, 2, "")]);
    assert_eq!(screen.username(), "");
    assert_eq!(screen.password(), "");
    assert!(!screen.password_selected());
    assert!(!screen.exit());
    assert!(screen.user().is_none());
    assert_eq!(screen.user_list().len(), 1);
}

#[test]
fn typing_goes_to_the_selected_field() {
    let mut screen = LoginScreen::new(vec![]);
    type_text(&mut screen, "alice");
    screen.handle_press_event(Key::Tab);
    assert!(screen.password_selected());
    type_text(&mut screen, "s3cret");
    assert_eq!(screen.username(), "alice");
    assert_eq!(screen.password(), "s3cret");
    screen.handle_press_event(Key::Tab);
    assert!(!screen.password_selected());
    type_text(&mut screen, "!");
    assert_eq!(screen.username(), "alice!");
}

#[test]
fn backspace_takes_the_last_character_of_the_selected_field() {
    let mut screen = LoginScreen::new(vec![]);
    type_text(&mut screen, "ab");
    screen.handle_press_event(Key::Backspace);
    assert_eq!(screen.username(), "a");
    screen.handle_press_event(Key::Backspace);
    screen.handle_press_event(Key::Backspace);
    assert_eq!(screen.username(), "");
    screen.handle_press_event(Key::Tab);
    type_text(&mut screen, "xyz");
    screen.handle_press_event(Key::Backspace);
    assert_eq!(screen.password(), "xy");
    assert_eq!(screen.username(), "");
}

#[test]
fn escape_ends_the_login_screen_without_a_user() {
    let mut screen = LoginScreen::new(vec![account("alice", "abc", 0, 0, "pw")]);
    screen.handle_press_event(Key::Esc);
    assert!(screen.exit());
    assert!(screen.user().is_none());
}

#[test]
fn keys_without_meaning_leave_the_login_screen() {
    let mut screen = LoginScreen::new(vec![]);
    type_text(&mut screen, "a");
    for key in [Key::Up, Key::Down, Key::Left, Key::Right, Key::Other] {
        screen.handle_press_event(key);
    }
    assert_eq!(screen.username(), "a");
    assert_eq!(screen.password(), "");
    assert!(!screen.password_selected());
    assert!(!screen.exit());
}

#[test]
fn right_name_and_password_log_in() {
    let alice = account("alice", "abc", 0, 2, "abc-123");
    let mut screen = LoginScreen::new(vec![account("bob", "xyz", 0, 2, "xyz-1"), alice.clone()]);
    type_text(&mut screen, "alice");
    screen.handle_press_event(Key::Tab);
    type_text(&mut screen, "abc-123");
    screen.handle_press_event(Key::Enter);
    assert!(screen.exit());
    assert_eq!(screen.user(), Some(&alice));
}

#[test]
fn wrong_password_clears_the_fields() {
    let mut screen = LoginScreen::new(vec![account("alice", "abc", 0, 2, "abc-123")]);
    type_text(&mut screen, "alice");
    screen.handle_press_event(Key::Tab);
    type_text(&mut screen, "abc-124");
    screen.handle_press_event(Key::Enter);
    assert!(!screen.exit());
    assert!(screen.user().is_none());
    assert_eq!(screen.username(), "");
    assert_eq!(screen.password(), "");
    assert!(!screen.password_selected());
}

#[test]
fn account_without_password_takes_it_after_the_attempts_are_used_up() {
    let mut screen = LoginScreen::new(vec![account("alice", "abc", 0, 2, "")]);
    assert!(screen.try_login(String::from("alice"), String::from("abc-777")).is_none());
    assert_eq!(screen.user_list()[0].password_attempts, 1);
    assert!(screen.try_login(String::from("alice"), String::from("abc-888")).is_none());
    assert_eq!(screen.user_list()[0].password_attempts, 2);
    assert_eq!(screen.user_list()[0].password, "");
    let user = screen.try_login(String::from("alice"), String::from("abc-999")).expect("the password is taken");
    assert_eq!(user, account("alice", "abc", 2, 2, "abc-999"));
    assert_eq!(screen.user_list()[0], user);
    // from now on only that password opens the account
    assert!(screen.try_login(String::from("alice"), String::from("abc-777")).is_none());
    assert_eq!(screen.user_list()[0].password_attempts, 2);
    assert!(screen.try_login(String::from("alice"), String::from("abc-999")).is_some());
}

#[test]
fn password_with_another_start_is_no_attempt() {
    let mut screen = LoginScreen::new(vec![account("alice", "abc", 0, 0, "")]);
    assert!(screen.try_login(String::from("alice"), String::from("abd-1")).is_none());
    assert_eq!(screen.user_list()[0], account("alice", "abc", 0, 0, ""));
    // with no attempts to use up, the first matching password is taken
    let user = screen.try_login(String::from("alice"), String::from("abc")).expect("taken at once");
    assert_eq!(user.password, "abc");
}

#[test]
fn attempt_counts_on_every_account_up_to_the_one_found() {
    let mut screen = LoginScreen::new(vec![
        account("early", "abc", 0, 5, ""),
        account("alice", "abc", 0, 5, "abc-1"),
        account("late", "abc", 0, 5, ""),
    ]);
    let user = screen.try_login(String::from("alice"), String::from("abc-1")).expect("alice is found");
    assert_eq!(user.username, "alice");
    assert_eq!(screen.user_list()[0].password_attempts, 1);
    assert_eq!(screen.user_list()[1].password_attempts, 0);
    assert_eq!(screen.user_list()[2].password_attempts, 0);
    // a login that finds nobody reaches all of them
    assert!(screen.try_login(String::from("nobody"), String::from("abc-2")).is_none());
    assert_eq!(screen.user_list()[0].password_attempts, 2);
    assert_eq!(screen.user_list()[1].password_attempts, 0);
    assert_eq!(screen.user_list()[2].password_attempts, 1);
}

#[test]
fn first_of_two_accounts_with_the_same_login_is_opened() {
    let mut first = account("alice", "abc", 0, 0, "pw");
    first.fuel = 1;
    let mut second = account("alice", "abc", 0, 0, "pw");
    second.fuel = 2;
    let mut screen = LoginScreen::new(vec![first.clone(), second]);
    assert_eq!(screen.try_login(String::from("alice"), String::from("pw")), Some(first));
}

#[test]
fn clear_empties_both_fields() {
    let mut screen = LoginScreen::new(vec![]);
    type_text(&mut screen, "alice");
    screen.handle_press_event(Key::Tab);
    type_text(&mut screen, "pw");
    screen.clear();
    assert_eq!(screen.username(), "");
    assert_eq!(screen.password(), "");
    assert!(!screen.password_selected());
}
