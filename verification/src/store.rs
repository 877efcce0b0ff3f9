//! The persistent store modelled as plain data: a table of user records with
//! store-assigned identifiers and insertion timestamps. The repository is the
//! intended caller of the record-level operations here.

use vstd::prelude::*;
use crate::clock::Timestamp;

verus! {

/// Mathematical model of one persisted user record.
pub ghost struct UserRecordView {
    pub id: int,
    pub email: Seq<char>,
    pub password_hash: Seq<char>,
    pub full_name: Seq<char>,
    pub role: Seq<char>,
    pub is_active: bool,
    pub created_at: Timestamp,
}

/// One row of the user table, exactly as persisted: unlike the outward
/// representation it carries the password hash and the raw timestamp.
#[derive(Debug, Clone)]
pub struct UserRecord {
    pub id: i32,
    pub email: String,
    pub password_hash: String,
    pub full_name: String,
    pub role: String,
    pub is_active: bool,
    pub created_at: Timestamp,
}

impl View for UserRecord {
    type V = UserRecordView;

    open spec fn view(&self) -> UserRecordView {
        UserRecordView {
            id: self.id as int,
            email: self.email@,
            password_hash: self.password_hash@,
            full_name: self.full_name@,
            role: self.role@,
            is_active: self.is_active,
            created_at: self.created_at,
        }
    }
}

/// The first record in `s` whose id is `id`, if any.
pub open spec fn lookup(s: Seq<UserRecordView>, id: int) -> Option<UserRecordView>
    decreases s.len(),
{
    if s.len() == 0 {
        None
    } else if s[0].id == id {
        Some(s[0])
    } else {
        lookup(s.drop_first(), id)
    }
}

/// If `s[i]` is the first record carrying `id`, the lookup returns it.
pub proof fn lemma_lookup_found(s: Seq<UserRecordView>, id: int, i: int)
    requires
        0 <= i < s.len(),
        s[i].id == id,
        forall|j: int| 0 <= j < i ==> s[j].id != id,
    ensures
        lookup(s, id) == Some(s[i]),
    decreases i,
{
    if i > 0 {
        lemma_lookup_found(s.drop_first(), id, i - 1);
    }
}

/// If no record carries `id`, the lookup comes back empty.
pub proof fn lemma_lookup_none(s: Seq<UserRecordView>, id: int)
    requires
        forall|j: int| 0 <= j < s.len() ==> s[j].id != id,
    ensures
        lookup(s, id) is None,
    decreases s.len(),
{
    if s.len() > 0 {
        lemma_lookup_none(s.drop_first(), id);
    }
}

/// Round trip at the level of the table: appending a record under an id that
/// no existing record carries makes that id resolve to exactly that record.
pub proof fn lemma_lookup_push_fresh(s: Seq<UserRecordView>, rec: UserRecordView)
    requires
        forall|j: int| 0 <= j < s.len() ==> s[j].id != rec.id,
    ensures
        lookup(s.push(rec), rec.id) == Some(rec),
{
    assert(s.push(rec)[s.len() as int] == rec);
    lemma_lookup_found(s.push(rec), rec.id, s.len() as int);
}

/// The user table. Identifiers are assigned by the store from a counter and
/// never reused; the clock value is an injected dependency the store stamps
/// onto each insert.
pub struct UserStore {
    users: Vec<UserRecord>,
    next_id: i32,
    now: Timestamp,
}

impl View for UserStore {
    type V = Seq<UserRecordView>;

    closed spec fn view(&self) -> Seq<UserRecordView> {
        self.users@.map_values(|u: UserRecord| u@)
    }
}

impl UserStore {
    /// The identifier the next inserted record will receive.
    pub closed spec fn next_id_spec(&self) -> int {
        self.next_id as int
    }

    /// The instant the store will stamp onto the next inserted record.
    pub closed spec fn now_spec(&self) -> Timestamp {
        self.now
    }

    /// Well-formedness of the table: ids are strictly increasing in store
    /// order (hence unique and stable), every id is below the counter, and
    /// every persisted record carries a non-empty password hash and a
    /// renderable timestamp.
    pub open spec fn wf(&self) -> bool {
        &&& 1 <= self.next_id_spec() <= i32::MAX
        &&& forall|i: int| 0 <= i < self@.len() ==> 1 <= (#[trigger] self@[i]).id < self.next_id_spec()
        &&& forall|i: int, j: int|
            0 <= i < j < self@.len() ==> (#[trigger] self@[i]).id < (#[trigger] self@[j]).id
        &&& forall|i: int| 0 <= i < self@.len() ==> (#[trigger] self@[i]).password_hash.len() > 0
        &&& forall|i: int| 0 <= i < self@.len() ==> (#[trigger] self@[i]).created_at.wf()
        &&& self.now_spec().wf()
    }

    /// Ids are unique in a well-formed table: two positions carrying the same
    /// id are the same position, so an id denotes at most one record.
    pub proof fn lemma_wf_ids_unique(&self, i: int, j: int)
        requires
            self.wf(),
            0 <= i < self@.len(),
            0 <= j < self@.len(),
            self@[i].id == self@[j].id,
        ensures
            i == j,
    {
    }

    /// An empty table whose clock reads `now`; ids start at 1.
    pub fn new(now: Timestamp) -> (s: UserStore)
        requires
            now.wf(),
        ensures
            s.wf(),
            s@ == Seq::<UserRecordView>::empty(),
            s.next_id_spec() == 1,
            s.now_spec() == now,
    {
        let s = UserStore { users: Vec::new(), next_id: 1, now };
        proof {
            assert(s@ =~= Seq::<UserRecordView>::empty());
        }
        s
    }

    /// Moves the injected clock forward; the table itself is untouched.
    pub fn set_now(&mut self, now: Timestamp)
        requires
            old(self).wf(),
            now.wf(),
        ensures
            final(self).wf(),
            final(self)@ == old(self)@,
            final(self).next_id_spec() == old(self).next_id_spec(),
            final(self).now_spec() == now,
    {
        self.now = now;
        proof {
            assert(self@ =~= old(self)@);
        }
    }

    /// How many records the table holds.
    pub fn count(&self) -> (n: usize)
        ensures
            n == self@.len(),
    {
        self.users.len()
    }

    /// The raw record at position `i` in store order.
    pub fn record_at(&self, i: usize) -> (r: &UserRecord)
        requires
            i < self@.len(),
        ensures
            r@ == self@[i as int],
    {
        &self.users[i]
    }

    /// Appends a record built from the given fields, stamped with the store's
    /// clock and the next free id, which is returned. The one way an insert
    /// is refused is exhaustion of the id counter, in which case the table is
    /// unchanged.
    pub fn insert(&mut self, email: String, password_hash: String, full_name: String, role: String)
        -> (r: Option<i32>)
        requires
            old(self).wf(),
            password_hash@.len() > 0,
        ensures
            final(self).wf(),
            final(self).now_spec() == old(self).now_spec(),
            old(self).next_id_spec() == i32::MAX ==> {
                &&& r is None
                &&& final(self)@ == old(self)@
                &&& final(self).next_id_spec() == old(self).next_id_spec()
            },
            old(self).next_id_spec() < i32::MAX ==> {
                &&& r == Some(old(self).next_id_spec() as i32)
                &&& final(self)@ == old(self)@.push(
                    UserRecordView {
                        id: old(self).next_id_spec(),
                        email: email@,
                        password_hash: password_hash@,
                        full_name: full_name@,
                        role: role@,
                        is_active: true,
                        created_at: old(self).now_spec(),
                    },
                )
                &&& final(self).next_id_spec() == old(self).next_id_spec() + 1
            },
    {
        if self.next_id == i32::MAX {
            return None;
        }
        let id = self.next_id;
        let rec = UserRecord {
            id,
            email,
            password_hash,
            full_name,
            role,
            is_active: true,
            created_at: self.now,
        };
        self.users.push(rec);
        self.next_id = id + 1;
        proof {
            assert(self@ =~= old(self)@.push(
                UserRecordView {
                    id: id as int,
                    email: email@,
                    password_hash: password_hash@,
                    full_name: full_name@,
                    role: role@,
                    is_active: true,
                    created_at: old(self).now_spec(),
                },
            ));
        }
        Some(id)
    }

    /// Removes the record at position `i` in store order.
    pub fn remove_at(&mut self, i: usize)
        requires
            old(self).wf(),
            i < old(self)@.len(),
        ensures
            final(self).wf(),
            final(self)@ == old(self)@.remove(i as int),
            final(self).next_id_spec() == old(self).next_id_spec(),
            final(self).now_spec() == old(self).now_spec(),
    {
        self.users.remove(i);
        proof {
            assert(self@ =~= old(self)@.remove(i as int));
            assert forall|a: int, b: int| 0 <= a < b < self@.len() implies self@[a].id
                < self@[b].id by {
                if b < i {
                    assert(old(self)@[a].id < old(self)@[b].id);
                } else if a < i {
                    assert(old(self)@[a].id < old(self)@[b + 1].id);
                } else {
                    assert(old(self)@[a + 1].id < old(self)@[b + 1].id);
                }
            }
        }
    }
}

} // verus!
