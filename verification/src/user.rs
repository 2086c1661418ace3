//! A player's account: the login data, where the ship was left, and the
//! resources on hand.

use vstd::prelude::*;
use crate::util::ItemDiff;

verus! {

/// A player. Fuel, crystals and reputation change only by booking an
/// [`ItemDiff`].
#[derive(Debug, PartialEq, Eq)]
pub struct User {
    pub username: String,
    pub password_start: String,
    pub password_attempts: u8,
    pub password_attempts_max: u8,
    pub password: String,
    pub pos_x: i32,
    pub pos_y: i32,
    pub fuel: i32,
    pub crystals: i32,
    pub reputation: i32,
}

/// The model of a [`User`].
pub struct UserView {
    pub username: Seq<char>,
    pub password_start: Seq<char>,
    pub password_attempts: u8,
    pub password_attempts_max: u8,
    pub password: Seq<char>,
    pub pos_x: i32,
    pub pos_y: i32,
    pub fuel: i32,
    pub crystals: i32,
    pub reputation: i32,
}

impl UserView {
    /// Booking `diff` keeps crystals, fuel and reputation within `i32`.
    pub open spec fn absorbs(self, diff: ItemDiff) -> bool {
        &&& i32::MIN <= self.crystals + diff.crystals <= i32::MAX
        &&& i32::MIN <= self.fuel + diff.fuel <= i32::MAX
        &&& i32::MIN <= self.reputation + diff.components <= i32::MAX
    }

    /// The player after `diff` was booked: crystals and fuel change by their
    /// amounts, and each component earns one point of reputation.
    pub open spec fn booked(self, diff: ItemDiff) -> UserView {
        UserView {
            crystals: (self.crystals + diff.crystals) as i32,
            fuel: (self.fuel + diff.fuel) as i32,
            reputation: (self.reputation + diff.components) as i32,
            ..self
        }
    }
}

impl View for User {
    type V = UserView;

    open spec fn view(&self) -> UserView {
        UserView {
            username: self.username@,
            password_start: self.password_start@,
            password_attempts: self.password_attempts,
            password_attempts_max: self.password_attempts_max,
            password: self.password@,
            pos_x: self.pos_x,
            pos_y: self.pos_y,
            fuel: self.fuel,
            crystals: self.crystals,
            reputation: self.reputation,
        }
    }
}

impl User {
    /// Books `diff` to the player's resources.
    pub fn book(&mut self, diff: ItemDiff)
        requires
            old(self)@.absorbs(diff),
        ensures
            final(self)@ == old(self)@.booked(diff),
    {
        self.crystals = self.crystals + diff.crystals;
        self.fuel = self.fuel + diff.fuel;
        self.reputation = self.reputation + diff.components;
    }
}

impl Clone for User {
    /// A copy with the same model.
    fn clone(&self) -> (copy: User)
        ensures
            copy@ == self@,
    {
        User {
            username: self.username.clone(),
            password_start: self.password_start.clone(),
            password_attempts: self.password_attempts,
            password_attempts_max: self.password_attempts_max,
            password: self.password.clone(),
            pos_x: self.pos_x,
            pos_y: self.pos_y,
            fuel: self.fuel,
            crystals: self.crystals,
            reputation: self.reputation,
        }
    }
}

} // verus!
