//! The presence tracker: an online/offline flag per participant.
//!
//! A record is created on a participant's first connection and never
//! deleted; every later connect or disconnect only flips its `online` flag.
//! Nothing else in the core reads presence — it exists as observable state
//! for external consumers.

use vstd::prelude::*;

use crate::lobby::PlayerId;

verus! {

/// The mathematical snapshot of a [`User`] record.
#[verifier::ext_equal]
pub struct UserView {
    pub identity: PlayerId,
    pub name: Option<Seq<char>>,
    pub online: bool,
}

/// One presence record: a participant's optional display name and
/// connectivity flag.
pub struct User {
    pub identity: PlayerId,
    pub name: Option<String>,
    pub online: bool,
}

impl View for User {
    type V = UserView;

    open spec fn view(&self) -> UserView {
        UserView {
            identity: self.identity,
            name: match self.name {
                Some(n) => Some(n@),
                None => None,
            },
            online: self.online,
        }
    }
}

/// Whether the tracker holds a record for `id`.
pub open spec fn has_user(s: Seq<UserView>, id: PlayerId) -> bool {
    exists|i: int| 0 <= i < s.len() && (#[trigger] s[i]).identity == id
}

/// The index of the record for `id`; meaningful only under
/// [`tracker_wf`], which makes it unique.
pub open spec fn user_idx(s: Seq<UserView>, id: PlayerId) -> int {
    choose|i: int| 0 <= i < s.len() && (#[trigger] s[i]).identity == id
}

/// The tracker invariant: no two records share an identity.
pub open spec fn tracker_wf(s: Seq<UserView>) -> bool {
    forall|i: int, j: int|
        0 <= i < s.len() && 0 <= j < s.len() && i != j ==> (#[trigger] s[i]).identity != (
        #[trigger] s[j]).identity
}

/// The tracker after a connect event: an existing record is flipped online
/// with its name kept; a first connection inserts a fresh record with no
/// display name.
pub open spec fn connect_step(s: Seq<UserView>, id: PlayerId) -> Seq<UserView> {
    if has_user(s, id) {
        let i = user_idx(s, id);
        s.update(i, UserView { online: true, ..s[i] })
    } else {
        s.push(UserView { identity: id, name: None, online: true })
    }
}

/// The tracker after a disconnect event: an existing record is flipped
/// offline; a record that was never created is not an error, nothing
/// changes.
pub open spec fn disconnect_step(s: Seq<UserView>, id: PlayerId) -> Seq<UserView> {
    if has_user(s, id) {
        let i = user_idx(s, id);
        s.update(i, UserView { online: false, ..s[i] })
    } else {
        s
    }
}

/// The presence tracker: owns every presence record.
pub struct PresenceTracker {
    /// The records; no two share an identity.
    pub users: Vec<User>,
}

impl View for PresenceTracker {
    type V = Seq<UserView>;

    open spec fn view(&self) -> Seq<UserView> {
        self.users@.map_values(|u: User| u@)
    }
}

impl PresenceTracker {
    /// The tracker invariant; see [`tracker_wf`].
    pub open spec fn wf(&self) -> bool {
        tracker_wf(self@)
    }

    /// An empty tracker: nobody has connected yet.
    pub fn new() -> (r: PresenceTracker)
        ensures
            r@ == Seq::<UserView>::empty(),
            r.wf(),
    {
        let r = PresenceTracker { users: Vec::new() };
        proof {
            assert(r@ =~= Seq::<UserView>::empty());
        }
        r
    }

    /// Finds the record for `id`, if any.
    fn find_user(&self, id: PlayerId) -> (r: Option<usize>)
        requires
            self.wf(),
        ensures
            match r {
                Some(i) => {
                    &&& i < self.users@.len()
                    &&& has_user(self@, id)
                    &&& i as int == user_idx(self@, id)
                    &&& self@[i as int].identity == id
                },
                None => !has_user(self@, id),
            },
    {
        let n = self.users.len();
        let mut i: usize = 0;
        while i < n
            invariant
                self.wf(),
                n == self.users@.len(),
                i <= n,
                forall|j: int| 0 <= j < i ==> (#[trigger] self@[j]).identity != id,
            decreases n - i,
        {
            if self.users[i].identity == id {
                proof {
                    assert(self@[i as int].identity == id);
                    let k = user_idx(self@, id);
                    assert(0 <= k < self@.len() && self@[k].identity == id);
                    assert(k == i as int);
                }
                return Some(i);
            }
            i += 1;
        }
        None
    }

    /// Handles a connect event for `caller`: marks the record online, or
    /// inserts one on a first connection.
    pub fn client_connected(&mut self, caller: PlayerId)
        requires
            old(self).wf(),
        ensures
            final(self).wf(),
            final(self)@ == connect_step(old(self)@, caller),
    {
        match self.find_user(caller) {
            Some(i) => {
                let mut u = self.users.remove(i);
                u.online = true;
                self.users.insert(i, u);
                proof {
                    assert(self@ =~= old(self)@.update(i as int, self.users@[i as int]@));
                }
            },
            None => {
                self.users.push(User { identity: caller, name: None, online: true });
                proof {
                    assert(self@ =~= old(self)@.push(
                        UserView { identity: caller, name: None, online: true },
                    ));
                }
            },
        }
    }

    /// Handles a disconnect event for `caller`: marks the record offline;
    /// an absent record is a no-op.
    pub fn client_disconnected(&mut self, caller: PlayerId)
        requires
            old(self).wf(),
        ensures
            final(self).wf(),
            final(self)@ == disconnect_step(old(self)@, caller),
    {
        match self.find_user(caller) {
            Some(i) => {
                let mut u = self.users.remove(i);
                u.online = false;
                self.users.insert(i, u);
                proof {
                    assert(self@ =~= old(self)@.update(i as int, self.users@[i as int]@));
                }
            },
            None => {},
        }
    }
}

} // verus!
