//! The login screen: two text fields, and the rule by which a typed name
//! and password find their account.

use vstd::prelude::*;
use std::str::Chars;
use vstd::std_specs::iter::IteratorSpec;
use crate::input::Key;
use crate::storage::users_view;
use crate::user::{User, UserView};

verus! {

/// `String::push` appends the character to the end of the string.
pub assume_specification[ String::push ](s: &mut String, ch: char)
    ensures
        final(s)@ == old(s)@.push(ch),
;

/// `String::pop` removes the last character and returns it, or returns
/// `None` and leaves the string if the string is empty.
pub assume_specification[ String::pop ](s: &mut String) -> (last: Option<char>)
    ensures
        old(s)@.len() == 0 ==> last is None && final(s)@ == old(s)@,
        old(s)@.len() > 0 ==> last == Some(old(s)@.last()) && final(s)@ == old(s)@.drop_last(),
;

/// The part of a password before its first dash: the whole of it if it has
/// none.
pub open spec fn first_part(password: Seq<char>) -> Seq<char>
    decreases password.len(),
{
    if password.len() == 0 || password[0] == '-' {
        Seq::empty()
    } else {
        seq![password[0]] + first_part(password.drop_first())
    }
}

impl UserView {
    /// The account after `password` was tried on it. An account without a
    /// password whose start the password's first part matches counts the
    /// attempt, and takes the password as its own once the attempts are used
    /// up. Any other account stays as it is.
    pub open spec fn attempted(self, password: Seq<char>) -> UserView {
        if self.password.len() == 0 && first_part(password) == self.password_start {
            if self.password_attempts >= self.password_attempts_max {
                UserView { password, ..self }
            } else {
                UserView { password_attempts: (self.password_attempts + 1) as u8, ..self }
            }
        } else {
            self
        }
    }

    /// The account, after the attempt, bears this name and password.
    pub open spec fn admits(self, username: Seq<char>, password: Seq<char>) -> bool {
        &&& self.attempted(password).username == username
        &&& self.attempted(password).password == password
    }
}

/// The accounts after a login was tried that reached the first `n` of them.
pub open spec fn attempted_upto(users: Seq<UserView>, password: Seq<char>, n: int) -> Seq<
    UserView,
> {
    Seq::new(
        users.len(),
        |i: int|
            if i < n {
                users[i].attempted(password)
            } else {
                users[i]
            },
    )
}

/// Whether the part of `password` before its first dash is `start`.
pub fn first_part_is(password: &String, start: &String) -> (same: bool)
    ensures
        same == (first_part(password@) == start@),
{
    broadcast use vstd::string::group_string_axioms;

    let mut typed: Chars = password.as_str().chars();
    let mut wanted: Chars = start.as_str().chars();
    let ghost mut done: Seq<char> = Seq::empty();
    loop
        invariant
            typed.obeys_prophetic_iter_laws(),
            wanted.obeys_prophetic_iter_laws(),
            typed.decrease() is Some,
            first_part(password@) == done + first_part(typed.remaining()),
            start@ == done + wanted.remaining(),
        decreases typed.decrease()->0,
    {
        let ghost typed_before = typed;
        let ghost wanted_before = wanted;
        let next_typed = typed.next();
        let next_wanted = wanted.next();
        proof {
            vstd::string::next_postcondition(&typed_before, &typed, next_typed);
            vstd::string::next_postcondition(&wanted_before, &wanted, next_wanted);
        }
        let part_ends = match next_typed {
            Some(c) => c == '-',
            None => true,
        };
        if part_ends {
            assert(first_part(typed_before.remaining()) =~= Seq::<char>::empty());
            assert(done + Seq::<char>::empty() =~= done);
            proof {
                if next_wanted is None {
                    assert(done + wanted_before.remaining() =~= done);
                } else {
                    assert((done + wanted_before.remaining()).len() > done.len());
                }
            }
            return next_wanted.is_none();
        }
        let c = next_typed.unwrap();
        let ghost rest = first_part(typed.remaining());
        assert(first_part(typed_before.remaining()) == seq![c] + rest);
        match next_wanted {
            Some(d) => {
                if c != d {
                    assert((done + (seq![c] + rest))[done.len() as int] == c);
                    assert((done + wanted_before.remaining())[done.len() as int] == d);
                    return false;
                }
            },
            None => {
                assert(done + wanted_before.remaining() =~= done);
                assert((done + (seq![c] + rest)).len() > done.len());
                return false;
            },
        }
        proof {
            assert(done + (seq![c] + rest) =~= done.push(c) + rest);
            assert(done + wanted_before.remaining() =~= done.push(c) + wanted.remaining());
            done = done.push(c);
        }
    }
}

/// The login screen with what has been typed so far.
pub struct LoginScreen {
    exit: bool,
    username: String,
    password: String,
    password_selected: bool,
    user_list: Vec<User>,
    user: Option<User>,
}

/// The model of a [`LoginScreen`].
pub struct LoginScreenView {
    pub exit: bool,
    pub username: Seq<char>,
    pub password: Seq<char>,
    pub password_selected: bool,
    pub user_list: Seq<UserView>,
    pub user: Option<UserView>,
}

impl LoginScreenView {
    /// The first account that admits the name and password, if any does.
    pub open spec fn found(self, username: Seq<char>, password: Seq<char>, from: int) -> Option<int>
        decreases self.user_list.len() - from,
    {
        if from < 0 || from >= self.user_list.len() {
            None
        } else if self.user_list[from].admits(username, password) {
            Some(from)
        } else {
            self.found(username, password, from + 1)
        }
    }

    /// The accounts after a login with `password` was tried: every account up
    /// to and including the one that was found has seen the attempt, all of
    /// them if none was found.
    pub open spec fn tried(self, username: Seq<char>, password: Seq<char>) -> Seq<UserView> {
        match self.found(username, password, 0) {
            Some(i) => attempted_upto(self.user_list, password, i + 1),
            None => attempted_upto(self.user_list, password, self.user_list.len() as int),
        }
    }

    /// The account that a login with this name and password opens.
    pub open spec fn opened(self, username: Seq<char>, password: Seq<char>) -> Option<UserView> {
        match self.found(username, password, 0) {
            Some(i) => Some(self.user_list[i].attempted(password)),
            None => None,
        }
    }

    /// The screen with both fields empty and the name field selected.
    pub open spec fn cleared(self) -> LoginScreenView {
        LoginScreenView {
            username: Seq::empty(),
            password: Seq::empty(),
            password_selected: false,
            ..self
        }
    }

    /// The screen after the confirm key: the login is tried with what was
    /// typed; the account that it opens ends the screen, and a failure clears
    /// the fields.
    pub open spec fn confirmed(self) -> LoginScreenView {
        let tried = LoginScreenView {
            user_list: self.tried(self.username, self.password),
            user: self.opened(self.username, self.password),
            ..self
        };
        if tried.user is None {
            tried.cleared()
        } else {
            LoginScreenView { exit: true, ..tried }
        }
    }

    /// The screen after one key press. Characters go to the selected field
    /// and backspace takes its last one away, tab selects the other field,
    /// escape ends the screen, and confirm tries the login.
    pub open spec fn step(self, key: Key) -> LoginScreenView {
        match key {
            Key::Esc => LoginScreenView { exit: true, ..self },
            Key::Char(c) => if self.password_selected {
                LoginScreenView { password: self.password.push(c), ..self }
            } else {
                LoginScreenView { username: self.username.push(c), ..self }
            },
            Key::Backspace => if self.password_selected {
                LoginScreenView {
                    password: if self.password.len() > 0 {
                        self.password.drop_last()
                    } else {
                        self.password
                    },
                    ..self
                }
            } else {
                LoginScreenView {
                    username: if self.username.len() > 0 {
                        self.username.drop_last()
                    } else {
                        self.username
                    },
                    ..self
                }
            },
            Key::Tab => LoginScreenView { password_selected: !self.password_selected, ..self },
            Key::Enter => self.confirmed(),
            _ => self,
        }
    }
}

impl View for LoginScreen {
    type V = LoginScreenView;

    closed spec fn view(&self) -> LoginScreenView {
        LoginScreenView {
            exit: self.exit,
            username: self.username@,
            password: self.password@,
            password_selected: self.password_selected,
            user_list: users_view(self.user_list@),
            user: match self.user {
                Some(user) => Some(user@),
                None => None,
            },
        }
    }
}

impl LoginScreen {
    /// A screen with empty fields for the accounts of `user_list`.
    pub fn new(user_list: Vec<User>) -> (screen: LoginScreen)
        ensures
            screen@ == (LoginScreenView {
                exit: false,
                username: Seq::empty(),
                password: Seq::empty(),
                password_selected: false,
                user_list: users_view(user_list@),
                user: None,
            }),
    {
        LoginScreen {
            exit: false,
            username: String::new(),
            password: String::new(),
            password_selected: false,
            user_list,
            user: None,
        }
    }

    /// Whether the screen has ended.
    pub fn exit(&self) -> (exit: bool)
        ensures
            exit == self@.exit,
    {
        self.exit
    }

    /// The name typed so far.
    pub fn username(&self) -> (username: &String)
        ensures
            username@ == self@.username,
    {
        &self.username
    }

    /// The password typed so far.
    pub fn password(&self) -> (password: &String)
        ensures
            password@ == self@.password,
    {
        &self.password
    }

    /// Whether typing goes to the password field.
    pub fn password_selected(&self) -> (selected: bool)
        ensures
            selected == self@.password_selected,
    {
        self.password_selected
    }

    /// The accounts, with the attempts that logins have left on them.
    pub fn user_list(&self) -> (users: &Vec<User>)
        ensures
            users_view(users@) == self@.user_list,
    {
        &self.user_list
    }

    /// The account that was logged into, if any.
    pub fn user(&self) -> (user: Option<&User>)
        ensures
            match user {
                Some(u) => self@.user == Some(u@),
                None => self@.user is None,
            },
    {
        match &self.user {
            Some(user) => Some(user),
            None => None,
        }
    }

    /// One key press.
    pub fn handle_press_event(&mut self, key_event: Key)
        ensures
            final(self)@ == old(self)@.step(key_event),
    {
        match key_event {
            Key::Esc => {
                self.exit = true;
            },
            Key::Char(c) => {
                if self.password_selected {
                    self.password.push(c);
                } else {
                    self.username.push(c);
                }
            },
            Key::Backspace => {
                if self.password_selected {
                    self.password.pop();
                } else {
                    self.username.pop();
                }
            },
            Key::Tab => {
                self.password_selected = !self.password_selected;
            },
            Key::Enter => {
                let username = self.username.clone();
                let password = self.password.clone();
                self.user = self.try_login(username, password);
                if self.user.is_none() {
                    self.clear();
                } else {
                    self.exit = true;
                }
            },
            _ => {},
        }
    }

    /// Tries `password` on the accounts in order, up to the first that then
    /// bears `username` and `password`, and returns that account.
    pub fn try_login(&mut self, username: String, password: String) -> (user: Option<User>)
        ensures
            final(self)@ == (LoginScreenView {
                user_list: old(self)@.tried(username@, password@),
                ..old(self)@
            }),
            match user {
                Some(u) => old(self)@.opened(username@, password@) == Some(u@),
                None => old(self)@.opened(username@, password@) is None,
            },
    {
        let ghost before = self@;
        let mut i: usize = 0;
        assert(before.user_list =~= attempted_upto(before.user_list, password@, 0));
        while i < self.user_list.len()
            invariant
                i <= self.user_list.len(),
                self.user_list.len() == before.user_list.len(),
                before == old(self)@,
                self@ == (LoginScreenView {
                    user_list: attempted_upto(before.user_list, password@, i as int),
                    ..before
                }),
                before.found(username@, password@, 0) == before.found(username@, password@, i as int),
            decreases self.user_list.len() - i,
        {
            let ghost list_before = self.user_list@;
            assert(users_view(list_before)[i as int] == before.user_list[i as int]);
            if self.user_list[i].password.as_str().is_empty() {
                if first_part_is(&password, &self.user_list[i].password_start) {
                    if self.user_list[i].password_attempts >= self.user_list[i].password_attempts_max {
                        self.user_list[i].password = password.clone();
                    } else {
                        self.user_list[i].password_attempts = self.user_list[i].password_attempts + 1;
                    }
                }
            }
            assert(self.user_list@[i as int]@ == before.user_list[i as int].attempted(password@));
            assert forall|j: int| 0 <= j < list_before.len() implies users_view(
                self.user_list@,
            )[j] == attempted_upto(before.user_list, password@, i + 1)[j] by {
                if j != i {
                    assert(self.user_list@[j] == list_before[j]);
                    assert(users_view(list_before)[j] == attempted_upto(
                        before.user_list,
                        password@,
                        i as int,
                    )[j]);
                }
            }
            assert(users_view(self.user_list@) =~= attempted_upto(
                before.user_list,
                password@,
                i + 1,
            ));
            if self.user_list[i].username == username && self.user_list[i].password == password {
                return Some(self.user_list[i].clone());
            }
            i += 1;
        }
        None
    }

    /// Empties both fields and selects the name field.
    pub fn clear(&mut self)
        ensures
            final(self)@ == old(self)@.cleared(),
    {
        self.username = String::new();
        self.password = String::new();
        self.password_selected = false;
    }
}

} // verus!
