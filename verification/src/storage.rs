//! What is kept between sessions: the players, the galaxy, and the
//! components that all players have found together.

use vstd::prelude::*;
use crate::components::galaxy_map::{systems_view, systems_wf};
use crate::objects::{SolarSystem, SolarSystemView};
use crate::user::{User, UserView};

verus! {

/// The saved state of the game.
#[derive(Debug, PartialEq, Eq)]
pub struct Storage {
    pub path: String,
    pub users: Vec<User>,
    pub map: Vec<SolarSystem>,
    pub components: i32,
}

/// The model of a [`Storage`].
pub struct StorageView {
    pub path: Seq<char>,
    pub users: Seq<UserView>,
    pub map: Seq<SolarSystemView>,
    pub components: i32,
}

/// The models of a list of players, in order.
pub open spec fn users_view(users: Seq<User>) -> Seq<UserView> {
    users.map_values(|u: User| u@)
}

/// The players with every account named as `user` replaced by `user`.
pub open spec fn users_updated(users: Seq<UserView>, user: UserView) -> Seq<UserView> {
    users.map_values(
        |u: UserView|
            if u.username == user.username {
                user
            } else {
                u
            },
    )
}

impl View for Storage {
    type V = StorageView;

    open spec fn view(&self) -> StorageView {
        StorageView {
            path: self.path@,
            users: users_view(self.users@),
            map: systems_view(self.map@),
            components: self.components,
        }
    }
}

/// A copy of a list of systems, system by system.
pub fn clone_systems(systems: &Vec<SolarSystem>) -> (copy: Vec<SolarSystem>)
    ensures
        systems_view(copy@) == systems_view(systems@),
        systems_wf(systems@) ==> systems_wf(copy@),
{
    let mut copy: Vec<SolarSystem> = Vec::new();
    let mut i: usize = 0;
    while i < systems.len()
        invariant
            i <= systems.len(),
            copy.len() == i,
            forall|j: int| 0 <= j < i ==> (#[trigger] copy@[j])@ == systems@[j]@,
            systems_wf(systems@) ==> systems_wf(copy@),
        decreases systems.len() - i,
    {
        copy.push(systems[i].clone());
        i += 1;
    }
    assert(systems_view(copy@) =~= systems_view(systems@));
    copy
}

impl Storage {
    /// Every system of the saved galaxy is well formed.
    pub open spec fn wf(&self) -> bool {
        systems_wf(self.map@)
    }

    /// An empty state that is saved at `path`.
    pub fn new(path: String) -> (storage: Storage)
        ensures
            storage@ == (StorageView {
                path: path@,
                users: Seq::empty(),
                map: Seq::empty(),
                components: 0,
            }),
            storage.wf(),
    {
        let storage = Storage { path, users: Vec::new(), map: Vec::new(), components: 0 };
        assert(users_view(storage.users@) =~= Seq::empty());
        assert(systems_view(storage.map@) =~= Seq::empty());
        storage
    }

    /// Replaces every saved account that bears `user`'s name by `user`.
    pub fn update_user(&mut self, user: &User)
        ensures
            final(self)@ == (StorageView {
                users: users_updated(old(self)@.users, user@),
                ..old(self)@
            }),
            final(self).map == old(self).map,
    {
        let mut i: usize = 0;
        while i < self.users.len()
            invariant
                i <= self.users.len(),
                self.users.len() == old(self).users.len(),
                self.path == old(self).path,
                self.map == old(self).map,
                self.components == old(self).components,
                forall|j: int|
                    0 <= j < i ==> (#[trigger] self.users@[j])@ == users_updated(
                        old(self)@.users,
                        user@,
                    )[j],
                forall|j: int| i <= j < self.users.len() ==> self.users@[j] == old(self).users@[j],
            decreases self.users.len() - i,
        {
            if self.users[i].username == user.username {
                self.users[i] = user.clone();
            }
            i += 1;
        }
        assert(users_view(self.users@) =~= users_updated(old(self)@.users, user@));
    }
}

impl Clone for Storage {
    /// A copy with the same model.
    fn clone(&self) -> (copy: Storage)
        ensures
            copy@ == self@,
            self.wf() ==> copy.wf(),
    {
        let mut users: Vec<User> = Vec::new();
        let mut i: usize = 0;
        while i < self.users.len()
            invariant
                i <= self.users.len(),
                users.len() == i,
                forall|j: int| 0 <= j < i ==> (#[trigger] users@[j])@ == self.users@[j]@,
            decreases self.users.len() - i,
        {
            users.push(self.users[i].clone());
            i += 1;
        }
        assert(users_view(users@) =~= users_view(self.users@));
        Storage {
            path: self.path.clone(),
            users,
            map: clone_systems(&self.map),
            components: self.components,
        }
    }
}

} // verus!
