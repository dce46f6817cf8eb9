//! The record store: an ordered table of credential records whose ids are a
//! dense display-facing index. At all times the ids present are exactly
//! `1..=N` in order — inserting appends under the next id, and deleting
//! renumbers every later record down by one.

use vstd::prelude::*;
use crate::envelope::Cipher;
use crate::envelope::fernet_plaintext_of;

verus! {

/// One credential record. The `password` field holds the envelope cipher's
/// token, never plaintext; `date_modified` is the timestamp text captured
/// when the record was made.
pub struct LoginData {
    pub id: usize,
    pub name: String,
    pub username: String,
    pub date_modified: String,
    pub password: String,
}

impl LoginData {
    /// The record's fields apart from the store-assigned id.
    pub open spec fn content(&self) -> (Seq<char>, Seq<char>, Seq<char>, Seq<char>) {
        (self.name@, self.username@, self.date_modified@, self.password@)
    }

    /// Builds a record, not yet in any store, stamped with the present
    /// wall-clock time; the id is 0 until a store assigns one.
    pub fn new(name: String, username: String, password: String) -> (r: Self)
        ensures
            r.id == 0,
            r.name@ == name@,
            r.username@ == username@,
            r.password@ == password@,
            r.date_modified@.len() > 0,
    {
        let date_modified = now_rfc2822();
        Self { id: 0, name, username, date_modified, password }
    }

    /// Builds a record with its password already sealed: the plaintext goes
    /// through the envelope cipher and only the token is kept, so the store
    /// never sees it in the clear.
    pub fn new_encrypted(
        cipher: &Cipher,
        name: String,
        username: String,
        password: &[u8],
    ) -> (r: Self)
        ensures
            r.id == 0,
            r.name@ == name@,
            r.username@ == username@,
            fernet_plaintext_of(cipher.key(), r.password@) == Some(password@),
            r.date_modified@.len() > 0,
    {
        let token = cipher.encrypt(password);
        Self::new(name, username, token)
    }
}

impl Clone for LoginData {
    fn clone(&self) -> (r: Self)
        ensures
            r == *self,
    {
        Self {
            id: self.id,
            name: self.name.clone(),
            username: self.username.clone(),
            date_modified: self.date_modified.clone(),
            password: self.password.clone(),
        }
    }
}

/// Relies on chrono: `Local::now()` read from the wall clock, rendered by
/// `DateTime::to_rfc2822`, which is never empty.
#[verifier::external_body]
fn now_rfc2822() -> (r: String)
    ensures
        r@.len() > 0,
{
    let now: chrono::DateTime<chrono::Local> = chrono::DateTime::from(chrono::Utc::now());
    now.to_rfc2822()
}

/// The in-memory table of credential records, ordered by id.
pub struct VaultStore {
    records: Vec<LoginData>,
}

impl VaultStore {
    /// The records in id order.
    pub closed spec fn records_seq(&self) -> Seq<LoginData> {
        self.records@
    }

    /// The store's one invariant: the record at position `i` carries id
    /// `i + 1`, so the ids present are exactly `1..=N` with no gaps.
    pub open spec fn wf(&self) -> bool {
        forall|i: int|
            0 <= i < self.records_seq().len()
                ==> (#[trigger] self.records_seq()[i]).id == i + 1
    }

    /// An empty store, as vault creation leaves it.
    pub fn empty() -> (store: Self)
        ensures
            store.wf(),
            store.records_seq().len() == 0,
    {
        Self { records: Vec::new() }
    }

    /// How many records the store holds.
    pub fn count(&self) -> (n: usize)
        ensures
            n == self.records_seq().len(),
    {
        self.records.len()
    }
}

/// Appends a record under the next id. The caller supplies an
/// already-encrypted password token; the store never sees plaintext.
pub fn insert_login(store: &mut VaultStore, login: LoginData)
    requires
        old(store).wf(),
        old(store).records_seq().len() < usize::MAX,
    ensures
        final(store).wf(),
        final(store).records_seq().len() == old(store).records_seq().len() + 1,
        final(store).records_seq().subrange(0, old(store).records_seq().len() as int)
            == old(store).records_seq(),
        final(store).records_seq().last().id == old(store).records_seq().len() + 1,
        final(store).records_seq().last().content() == login.content(),
{
    let id = store.records.len() + 1;
    let stored = LoginData {
        id,
        name: login.name,
        username: login.username,
        date_modified: login.date_modified,
        password: login.password,
    };
    store.records.push(stored);
    proof {
        assert(final(store).records_seq().subrange(0, old(store).records_seq().len() as int)
            =~= old(store).records_seq());
    }
}

/// Removes the record with the given id, then renumbers every later record
/// down by one so the ids stay dense. An id that no record carries leaves
/// the store unchanged.
pub fn delete_login(store: &mut VaultStore, id: usize)
    requires
        old(store).wf(),
    ensures
        final(store).wf(),
        1 <= id <= old(store).records_seq().len() ==> {
            &&& final(store).records_seq().len() == old(store).records_seq().len() - 1
            &&& forall|i: int|
                0 <= i < id - 1
                    ==> #[trigger] final(store).records_seq()[i]
                        == old(store).records_seq()[i]
            &&& forall|i: int|
                id - 1 <= i < final(store).records_seq().len()
                    ==> (#[trigger] final(store).records_seq()[i]).content()
                        == old(store).records_seq()[i + 1].content()
        },
        !(1 <= id <= old(store).records_seq().len())
            ==> *final(store) == *old(store),
{
    if id == 0 || id > store.records.len() {
        return;
    }
    let ghost before = store.records@;
    store.records.remove(id - 1);
    let mut i: usize = id - 1;
    while i < store.records.len()
        invariant
            id - 1 <= i <= store.records@.len(),
            store.records@.len() == before.len() - 1,
            1 <= id <= before.len(),
            forall|j: int| 0 <= j < id - 1 ==> #[trigger] store.records@[j] == before[j],
            forall|j: int|
                i <= j < store.records@.len()
                    ==> #[trigger] store.records@[j] == before[j + 1],
            forall|j: int|
                id - 1 <= j < i
                    ==> (#[trigger] store.records@[j]).content() == before[j + 1].content()
                        && store.records@[j].id == j + 1,
            forall|j: int| 0 <= j < before.len() ==> (#[trigger] before[j]).id == j + 1,
        decreases store.records@.len() - i,
    {
        let renumbered = store.records[i].id - 1;
        store.records[i].id = renumbered;
        i += 1;
    }
}

/// Every record the store holds, in id order: a single consistent snapshot.
pub fn retrieve_all(store: &VaultStore) -> (r: &Vec<LoginData>)
    ensures
        r@ == store.records_seq(),
{
    &store.records
}

/// The id-density law: in a well-formed store, an id is carried by some
/// record exactly when it lies in `1..=N`, where `N` is the record count —
/// no gaps, no duplicates, however the store was built up.
pub proof fn lemma_id_density(store: &VaultStore, id: int)
    requires
        store.wf(),
    ensures
        (exists|i: int|
            0 <= i < store.records_seq().len()
                && (#[trigger] store.records_seq()[i]).id == id)
            <==> 1 <= id <= store.records_seq().len(),
{
    if 1 <= id <= store.records_seq().len() {
        assert(store.records_seq()[id - 1].id == id);
    }
}

/// Looks a record up by its display id.
pub fn find_by_id(store: &VaultStore, id: usize) -> (r: Option<&LoginData>)
    requires
        store.wf(),
    ensures
        match r {
            Some(login) => {
                &&& 1 <= id <= store.records_seq().len()
                &&& *login == store.records_seq()[id - 1]
                &&& login.id == id
            },
            None => !(1 <= id <= store.records_seq().len()),
        },
{
    if id == 0 || id > store.records.len() {
        return None;
    }
    Some(&store.records[id - 1])
}

} // verus!
