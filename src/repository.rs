//! The repository: create, read, partial update, delete and list-all over the
//! users and lists collections, with typed errors in place of aborts.

use vstd::prelude::*;
use crate::collection::{key_of, keyed, Collection};
use crate::models::{
    list_fields_of, list_with_fields, user_fields_of, user_with_fields, Document, List, ListFields, User, UserFields,
};
use crate::object_id::{generate_object_id, is_object_id_text, object_id_bytes, ObjectId};

verus! {

/// Why a repository operation failed.
#[derive(Debug)]
pub enum RepoError {
    /// The identifier text is not 24 hex digits.
    InvalidIdentifier,
    /// The identifier is well formed, and no document carries it.
    NotFound,
    /// The store refused or failed the operation.
    StoreError { message: String },
}

/// What an update did.
#[derive(Debug, PartialEq, Eq, Structural)]
pub enum UpdateOutcome {
    /// A document matched, and its fields were set.
    Updated,
    /// No document carries the identifier.
    NoMatch,
}

/// What a delete did.
#[derive(Debug, PartialEq, Eq, Structural)]
pub enum DeleteOutcome {
    /// The document was removed.
    Deleted,
    /// No document carries the identifier.
    NotFound,
}

impl UpdateOutcome {
    /// The outcome that a store's matched count reports: updated when exactly
    /// one document matched.
    pub fn from_matched_count(matched: u64) -> (r: UpdateOutcome)
        ensures
            r == (if matched == 1 { UpdateOutcome::Updated } else { UpdateOutcome::NoMatch }),
    {
        if matched == 1 {
            UpdateOutcome::Updated
        } else {
            UpdateOutcome::NoMatch
        }
    }
}

impl DeleteOutcome {
    /// The outcome that a store's deleted count reports: deleted when exactly
    /// one document went.
    pub fn from_deleted_count(deleted: u64) -> (r: DeleteOutcome)
        ensures
            r == (if deleted == 1 { DeleteOutcome::Deleted } else { DeleteOutcome::NotFound }),
    {
        if deleted == 1 {
            DeleteOutcome::Deleted
        } else {
            DeleteOutcome::NotFound
        }
    }
}

/// Parses an identifier given as text; a malformed one is `InvalidIdentifier`.
pub fn parse_identifier(id: &str) -> (r: Result<ObjectId, RepoError>)
    ensures
        r is Ok <==> is_object_id_text(id@),
        r is Err ==> r->Err_0 is InvalidIdentifier,
        r matches Ok(oid) ==> oid@ == object_id_bytes(id@),
{
    match ObjectId::parse_str(id) {
        Some(oid) => Ok(oid),
        None => Err(RepoError::InvalidIdentifier),
    }
}

/// The outcome of an update that sets no field, from a lookup of the
/// identifier: updated where a document is found, no match where none is.
pub fn outcome_of_lookup<T>(lookup: Result<T, RepoError>) -> (r: Result<UpdateOutcome, RepoError>)
    ensures
        lookup is Ok ==> r == Ok::<UpdateOutcome, RepoError>(UpdateOutcome::Updated),
        lookup matches Err(e) ==> (e is NotFound ==> r == Ok::<UpdateOutcome, RepoError>(UpdateOutcome::NoMatch))
            && (!(e is NotFound) ==> r == Err::<UpdateOutcome, RepoError>(e)),
{
    match lookup {
        Ok(_) => Ok(UpdateOutcome::Updated),
        Err(RepoError::NotFound) => Ok(UpdateOutcome::NoMatch),
        Err(e) => Err(e),
    }
}

/// The answer to a find-one: the document, or `NotFound` where none matched.
pub fn found<T>(doc: Option<T>) -> (r: Result<T, RepoError>)
    ensures
        doc matches Some(d) ==> r == Ok::<T, RepoError>(d),
        doc is None ==> r is Err && r->Err_0 is NotFound,
{
    match doc {
        Some(d) => Ok(d),
        None => Err(RepoError::NotFound),
    }
}

/// One answer of a store cursor.
pub enum CursorEvent<T> {
    /// The next document.
    Item(T),
    /// The cursor is exhausted.
    End,
    /// Reading the cursor failed.
    Failed(String),
}

/// What to do after one cursor answer.
pub enum CollectStep<T> {
    /// Ask the cursor again, with what was gathered so far.
    More(Vec<T>),
    /// Stop, with the whole sequence or the error.
    Done(Result<Vec<T>, RepoError>),
}

/// Gathers a find-all cursor into one sequence. A failure part way aborts the
/// whole call: what was gathered before it is dropped.
pub fn collect_step<T>(gathered: Vec<T>, event: CursorEvent<T>) -> (r: CollectStep<T>)
    ensures
        event matches CursorEvent::Item(d) ==> (r matches CollectStep::More(v) && v@ == gathered@.push(d)),
        event is End ==> (r matches CollectStep::Done(Ok(v)) && v@ == gathered@),
        event matches CursorEvent::Failed(m) ==> (r matches CollectStep::Done(Err(e))
            && (e matches RepoError::StoreError { message } && message@ == m@)),
{
    let mut gathered = gathered;
    match event {
        CursorEvent::Item(d) => {
            gathered.push(d);
            CollectStep::More(gathered)
        },
        CursorEvent::End => CollectStep::Done(Ok(gathered)),
        CursorEvent::Failed(m) => CollectStep::Done(Err(RepoError::StoreError { message: m })),
    }
}

/// The error for an insert under an identifier that is already stored.
pub open spec fn is_duplicate_key(e: RepoError) -> bool {
    e matches RepoError::StoreError { message } && message@ == "duplicate key"@
}

fn duplicate_key() -> (r: RepoError)
    ensures
        is_duplicate_key(r),
{
    RepoError::StoreError { message: String::from_str("duplicate key") }
}

/// A user's fields after an update through `f` of the user stored under the
/// identifier `id` spells; the collection unchanged where `id` is malformed or
/// nothing is stored under it.
pub open spec fn users_after_update(users: Map<Seq<u8>, User>, id: Seq<char>, f: UserFields) -> Map<Seq<u8>, User> {
    if is_object_id_text(id) && users.contains_key(object_id_bytes(id)) {
        users.insert(object_id_bytes(id), user_with_fields(users[object_id_bytes(id)], f))
    } else {
        users
    }
}

/// The lists after an update through `f` of the list stored under the
/// identifier `id` spells; unchanged where `id` is malformed or nothing is
/// stored under it.
pub open spec fn lists_after_update(lists: Map<Seq<u8>, List>, id: Seq<char>, f: ListFields) -> Map<Seq<u8>, List> {
    if is_object_id_text(id) && lists.contains_key(object_id_bytes(id)) {
        lists.insert(object_id_bytes(id), list_with_fields(lists[object_id_bytes(id)], f))
    } else {
        lists
    }
}

/// The repository: a users collection and a lists collection, held in memory.
/// A database-backed store makes the same decisions through the free
/// functions of this module.
pub struct MongoRepo {
    users: Collection<User>,
    lists: Collection<List>,
}

impl MongoRepo {
    pub closed spec fn wf(&self) -> bool {
        self.users.wf() && self.lists.wf()
    }

    /// The stored users, by identifier bytes.
    pub closed spec fn users(&self) -> Map<Seq<u8>, User> {
        self.users@
    }

    /// The stored lists, by identifier bytes.
    pub closed spec fn lists(&self) -> Map<Seq<u8>, List> {
        self.lists@
    }

    /// The stored users in the order a listing hands them out.
    pub closed spec fn users_in_order(&self) -> Seq<User> {
        self.users.in_order()
    }

    /// The stored lists in the order a listing hands them out.
    pub closed spec fn lists_in_order(&self) -> Seq<List> {
        self.lists.in_order()
    }

    /// Every stored document lies under its own identifier.
    pub proof fn lemma_keyed(&self)
        requires
            self.wf(),
        ensures
            keyed(self.users()),
            keyed(self.lists()),
    {
        self.users.lemma_keyed();
        self.lists.lemma_keyed();
    }

    /// A repository with both collections empty.
    pub fn new() -> (r: MongoRepo)
        ensures
            r.wf(),
            r.users() == Map::<Seq<u8>, User>::empty(),
            r.lists() == Map::<Seq<u8>, List>::empty(),
    {
        MongoRepo { users: Collection::new(), lists: Collection::new() }
    }

    /// Stores a new user under the given identifier, with any identifier it
    /// came with dropped; fails with `StoreError` where that identifier is taken.
    pub fn create_user_with_id(&mut self, id: ObjectId, new_user: User) -> (r: Result<ObjectId, RepoError>)
        requires
            old(self).wf(),
        ensures
            final(self).wf(),
            final(self).lists() == old(self).lists(),
            r is Err <==> old(self).users().contains_key(id@),
            r is Err ==> is_duplicate_key(r->Err_0) && final(self).users() == old(self).users(),
            r matches Ok(k) ==> k == id && final(self).users() == old(self).users().insert(
                id@,
                User { _id: Some(id), ..new_user },
            ),
    {
        let doc = new_user.for_insert().with_id(Some(id));
        proof {
            assert(key_of(doc) == id@);
        }
        match self.users.insert_one(doc) {
            Ok(()) => Ok(id),
            Err(_) => Err(duplicate_key()),
        }
    }

    /// Stores a new user under an identifier that bson generates, with any
    /// identifier it came with dropped. Only a clash with a stored identifier
    /// fails, so on an empty collection it succeeds.
    pub fn create_user(&mut self, new_user: User) -> (r: Result<ObjectId, RepoError>)
        requires
            old(self).wf(),
        ensures
            final(self).wf(),
            final(self).lists() == old(self).lists(),
            r is Err ==> is_duplicate_key(r->Err_0) && final(self).users() == old(self).users(),
            r is Err ==> exists|k: Seq<u8>| old(self).users().contains_key(k),
            r matches Ok(id) ==> !old(self).users().contains_key(id@) && final(self).users()
                == old(self).users().insert(id@, User { _id: Some(id), ..new_user }),
    {
        let id = generate_object_id();
        self.create_user_with_id(id, new_user)
    }

    /// The user stored under the identifier that `id` spells.
    pub fn get_user(&self, id: &str) -> (r: Result<&User, RepoError>)
        requires
            self.wf(),
        ensures
            !is_object_id_text(id@) ==> r is Err && r->Err_0 is InvalidIdentifier,
            is_object_id_text(id@) && !self.users().contains_key(object_id_bytes(id@)) ==> r is Err
                && r->Err_0 is NotFound,
            is_object_id_text(id@) && self.users().contains_key(object_id_bytes(id@)) ==> r is Ok
                && *r->Ok_0 == self.users()[object_id_bytes(id@)],
    {
        let oid = parse_identifier(id)?;
        self.get_user_by_id(&oid)
    }

    /// The user stored under an identifier already parsed.
    pub fn get_user_by_id(&self, id: &ObjectId) -> (r: Result<&User, RepoError>)
        requires
            self.wf(),
        ensures
            !self.users().contains_key(id@) ==> r is Err && r->Err_0 is NotFound,
            self.users().contains_key(id@) ==> r is Ok && *r->Ok_0 == self.users()[id@],
    {
        found(self.users.find_one(id))
    }

    /// Sets the given fields of the user stored under `id`, leaving the others.
    pub fn update_user_fields(&mut self, id: &str, fields: UserFields) -> (r: Result<UpdateOutcome, RepoError>)
        requires
            old(self).wf(),
        ensures
            final(self).wf(),
            final(self).lists() == old(self).lists(),
            !is_object_id_text(id@) ==> r is Err && r->Err_0 is InvalidIdentifier,
            is_object_id_text(id@) ==> r is Ok,
            is_object_id_text(id@) && !old(self).users().contains_key(object_id_bytes(id@)) ==> r
                == Ok::<UpdateOutcome, RepoError>(UpdateOutcome::NoMatch),
            is_object_id_text(id@) && old(self).users().contains_key(object_id_bytes(id@)) ==> r
                == Ok::<UpdateOutcome, RepoError>(UpdateOutcome::Updated),
            final(self).users() == users_after_update(old(self).users(), id@, fields),
    {
        let oid = parse_identifier(id)?;
        match self.users.remove_one(&oid) {
            None => Ok(UpdateOutcome::NoMatch),
            Some(stored) => {
                let ghost before = old(self).users();
                proof {
                    old(self).users.lemma_keyed();
                    assert(before.contains_key(oid@));
                }
                let changed = stored.apply_fields(fields);
                proof {
                    assert(key_of(changed) == oid@);
                    assert(self.users@.insert(oid@, changed) =~= before.insert(oid@, changed));
                }
                match self.users.insert_one(changed) {
                    Ok(()) => Ok(UpdateOutcome::Updated),
                    Err(_) => Err(duplicate_key()),
                }
            },
        }
    }

    /// Sets every field of the user stored under `id` to those of `new_user`.
    pub fn update_user(&mut self, id: &str, new_user: User) -> (r: Result<UpdateOutcome, RepoError>)
        requires
            old(self).wf(),
        ensures
            final(self).wf(),
            final(self).lists() == old(self).lists(),
            !is_object_id_text(id@) ==> r is Err && r->Err_0 is InvalidIdentifier,
            is_object_id_text(id@) && !old(self).users().contains_key(object_id_bytes(id@)) ==> r
                == Ok::<UpdateOutcome, RepoError>(UpdateOutcome::NoMatch),
            is_object_id_text(id@) && old(self).users().contains_key(object_id_bytes(id@)) ==> r
                == Ok::<UpdateOutcome, RepoError>(UpdateOutcome::Updated),
            final(self).users() == users_after_update(old(self).users(), id@, user_fields_of(new_user)),
    {
        self.update_user_fields(id, new_user.to_fields())
    }

    /// Removes the user stored under `id`.
    pub fn delete_user(&mut self, id: &str) -> (r: Result<DeleteOutcome, RepoError>)
        requires
            old(self).wf(),
        ensures
            final(self).wf(),
            final(self).lists() == old(self).lists(),
            !is_object_id_text(id@) ==> r is Err && r->Err_0 is InvalidIdentifier
                && final(self).users() == old(self).users(),
            is_object_id_text(id@) && !old(self).users().contains_key(object_id_bytes(id@)) ==> r
                == Ok::<DeleteOutcome, RepoError>(DeleteOutcome::NotFound)
                && final(self).users() == old(self).users(),
            is_object_id_text(id@) && old(self).users().contains_key(object_id_bytes(id@)) ==> r
                == Ok::<DeleteOutcome, RepoError>(DeleteOutcome::Deleted)
                && final(self).users() == old(self).users().remove(object_id_bytes(id@)),
    {
        let oid = parse_identifier(id)?;
        match self.users.remove_one(&oid) {
            Some(_) => Ok(DeleteOutcome::Deleted),
            None => Ok(DeleteOutcome::NotFound),
        }
    }

    /// Every stored user, each once.
    pub fn get_all_users(&self) -> (r: &Vec<User>)
        requires
            self.wf(),
        ensures
            r@ == self.users_in_order(),
            forall|i: int| 0 <= i < r@.len() ==> self.users().contains_key(key_of(#[trigger] r@[i]))
                && self.users()[key_of(r@[i])] == r@[i],
            forall|k: Seq<u8>| #[trigger] self.users().contains_key(k) ==> exists|i: int|
                0 <= i < r@.len() && key_of(#[trigger] r@[i]) == k,
            forall|i: int, j: int| 0 <= i < j < r@.len() ==> key_of(#[trigger] r@[i]) != key_of(
                #[trigger] r@[j],
            ),
            self.users() == Map::<Seq<u8>, User>::empty() ==> r@.len() == 0,
    {
        self.users.find_all()
    }

    /// Stores a new list under the given identifier, with any identifier it
    /// came with dropped; fails with `StoreError` where that identifier is taken.
    pub fn create_list_with_id(&mut self, id: ObjectId, new_list: List) -> (r: Result<ObjectId, RepoError>)
        requires
            old(self).wf(),
        ensures
            final(self).wf(),
            final(self).users() == old(self).users(),
            r is Err <==> old(self).lists().contains_key(id@),
            r is Err ==> is_duplicate_key(r->Err_0) && final(self).lists() == old(self).lists(),
            r matches Ok(k) ==> k == id && final(self).lists() == old(self).lists().insert(
                id@,
                List { _id: Some(id), ..new_list },
            ),
    {
        let doc = new_list.for_insert().with_id(Some(id));
        proof {
            assert(key_of(doc) == id@);
        }
        match self.lists.insert_one(doc) {
            Ok(()) => Ok(id),
            Err(_) => Err(duplicate_key()),
        }
    }

    /// Stores a new list under an identifier that bson generates, with any
    /// identifier it came with dropped. Only a clash with a stored identifier
    /// fails, so on an empty collection it succeeds.
    pub fn create_list(&mut self, new_list: List) -> (r: Result<ObjectId, RepoError>)
        requires
            old(self).wf(),
        ensures
            final(self).wf(),
            final(self).users() == old(self).users(),
            r is Err ==> is_duplicate_key(r->Err_0) && final(self).lists() == old(self).lists(),
            r is Err ==> exists|k: Seq<u8>| old(self).lists().contains_key(k),
            r matches Ok(id) ==> !old(self).lists().contains_key(id@) && final(self).lists()
                == old(self).lists().insert(id@, List { _id: Some(id), ..new_list }),
    {
        let id = generate_object_id();
        self.create_list_with_id(id, new_list)
    }

    /// The list stored under the identifier that `id` spells.
    pub fn get_list(&self, id: &str) -> (r: Result<&List, RepoError>)
        requires
            self.wf(),
        ensures
            !is_object_id_text(id@) ==> r is Err && r->Err_0 is InvalidIdentifier,
            is_object_id_text(id@) && !self.lists().contains_key(object_id_bytes(id@)) ==> r is Err
                && r->Err_0 is NotFound,
            is_object_id_text(id@) && self.lists().contains_key(object_id_bytes(id@)) ==> r is Ok
                && *r->Ok_0 == self.lists()[object_id_bytes(id@)],
    {
        let oid = parse_identifier(id)?;
        self.get_list_by_id(&oid)
    }

    /// The list stored under an identifier already parsed.
    pub fn get_list_by_id(&self, id: &ObjectId) -> (r: Result<&List, RepoError>)
        requires
            self.wf(),
        ensures
            !self.lists().contains_key(id@) ==> r is Err && r->Err_0 is NotFound,
            self.lists().contains_key(id@) ==> r is Ok && *r->Ok_0 == self.lists()[id@],
    {
        found(self.lists.find_one(id))
    }

    /// Sets the given fields of the list stored under `id`, leaving the others.
    pub fn update_list_fields(&mut self, id: &str, fields: ListFields) -> (r: Result<UpdateOutcome, RepoError>)
        requires
            old(self).wf(),
        ensures
            final(self).wf(),
            final(self).users() == old(self).users(),
            !is_object_id_text(id@) ==> r is Err && r->Err_0 is InvalidIdentifier,
            is_object_id_text(id@) ==> r is Ok,
            is_object_id_text(id@) && !old(self).lists().contains_key(object_id_bytes(id@)) ==> r
                == Ok::<UpdateOutcome, RepoError>(UpdateOutcome::NoMatch),
            is_object_id_text(id@) && old(self).lists().contains_key(object_id_bytes(id@)) ==> r
                == Ok::<UpdateOutcome, RepoError>(UpdateOutcome::Updated),
            final(self).lists() == lists_after_update(old(self).lists(), id@, fields),
    {
        let oid = parse_identifier(id)?;
        match self.lists.remove_one(&oid) {
            None => Ok(UpdateOutcome::NoMatch),
            Some(stored) => {
                let ghost before = old(self).lists();
                proof {
                    old(self).lists.lemma_keyed();
                    assert(before.contains_key(oid@));
                }
                let changed = stored.apply_fields(fields);
                proof {
                    assert(key_of(changed) == oid@);
                    assert(self.lists@.insert(oid@, changed) =~= before.insert(oid@, changed));
                }
                match self.lists.insert_one(changed) {
                    Ok(()) => Ok(UpdateOutcome::Updated),
                    Err(_) => Err(duplicate_key()),
                }
            },
        }
    }

    /// Sets every field of the list stored under `id` to those of `new_list`.
    pub fn update_list(&mut self, id: &str, new_list: List) -> (r: Result<UpdateOutcome, RepoError>)
        requires
            old(self).wf(),
        ensures
            final(self).wf(),
            final(self).users() == old(self).users(),
            !is_object_id_text(id@) ==> r is Err && r->Err_0 is InvalidIdentifier,
            is_object_id_text(id@) && !old(self).lists().contains_key(object_id_bytes(id@)) ==> r
                == Ok::<UpdateOutcome, RepoError>(UpdateOutcome::NoMatch),
            is_object_id_text(id@) && old(self).lists().contains_key(object_id_bytes(id@)) ==> r
                == Ok::<UpdateOutcome, RepoError>(UpdateOutcome::Updated),
            final(self).lists() == lists_after_update(old(self).lists(), id@, list_fields_of(new_list)),
    {
        self.update_list_fields(id, new_list.to_fields())
    }

    /// Removes the list stored under `id`.
    pub fn delete_list(&mut self, id: &str) -> (r: Result<DeleteOutcome, RepoError>)
        requires
            old(self).wf(),
        ensures
            final(self).wf(),
            final(self).users() == old(self).users(),
            !is_object_id_text(id@) ==> r is Err && r->Err_0 is InvalidIdentifier
                && final(self).lists() == old(self).lists(),
            is_object_id_text(id@) && !old(self).lists().contains_key(object_id_bytes(id@)) ==> r
                == Ok::<DeleteOutcome, RepoError>(DeleteOutcome::NotFound)
                && final(self).lists() == old(self).lists(),
            is_object_id_text(id@) && old(self).lists().contains_key(object_id_bytes(id@)) ==> r
                == Ok::<DeleteOutcome, RepoError>(DeleteOutcome::Deleted)
                && final(self).lists() == old(self).lists().remove(object_id_bytes(id@)),
    {
        let oid = parse_identifier(id)?;
        match self.lists.remove_one(&oid) {
            Some(_) => Ok(DeleteOutcome::Deleted),
            None => Ok(DeleteOutcome::NotFound),
        }
    }

    /// Every stored list, each once.
    pub fn get_all_lists(&self) -> (r: &Vec<List>)
        requires
            self.wf(),
        ensures
            r@ == self.lists_in_order(),
            forall|i: int| 0 <= i < r@.len() ==> self.lists().contains_key(key_of(#[trigger] r@[i]))
                && self.lists()[key_of(r@[i])] == r@[i],
            forall|k: Seq<u8>| #[trigger] self.lists().contains_key(k) ==> exists|i: int|
                0 <= i < r@.len() && key_of(#[trigger] r@[i]) == k,
            forall|i: int, j: int| 0 <= i < j < r@.len() ==> key_of(#[trigger] r@[i]) != key_of(
                #[trigger] r@[j],
            ),
            self.lists() == Map::<Seq<u8>, List>::empty() ==> r@.len() == 0,
    {
        self.lists.find_all()
    }
}

/// Creating a list and then reading it back by the text form of the returned
/// identifier yields the list as given, with that identifier assigned.
pub proof fn lemma_create_then_get_list(lists: Map<Seq<u8>, List>, id: ObjectId, new_list: List, text: Seq<char>)
    requires
        !lists.contains_key(id@),
        is_object_id_text(text),
        object_id_bytes(text) == id@,
    ensures
        ({
            let after = lists.insert(id@, List { _id: Some(id), ..new_list });
            &&& after.contains_key(object_id_bytes(text))
            &&& after[object_id_bytes(text)] == (List { _id: Some(id), ..new_list })
            &&& after[object_id_bytes(text)].name == new_list.name
            &&& after[object_id_bytes(text)].description == new_list.description
            &&& after[object_id_bytes(text)].items == new_list.items
        }),
{
}

/// Creating a user and then reading it back by the text form of the returned
/// identifier yields the user as given, with that identifier assigned.
pub proof fn lemma_create_then_get_user(users: Map<Seq<u8>, User>, id: ObjectId, new_user: User, text: Seq<char>)
    requires
        !users.contains_key(id@),
        is_object_id_text(text),
        object_id_bytes(text) == id@,
    ensures
        ({
            let after = users.insert(id@, User { _id: Some(id), ..new_user });
            &&& after.contains_key(object_id_bytes(text))
            &&& after[object_id_bytes(text)] == (User { _id: Some(id), ..new_user })
            &&& after[object_id_bytes(text)].name == new_user.name
            &&& after[object_id_bytes(text)].location == new_user.location
            &&& after[object_id_bytes(text)].title == new_user.title
        }),
{
}

/// Applying the same list update twice leaves the lists as applying it once.
pub proof fn lemma_update_list_idempotent(lists: Map<Seq<u8>, List>, id: Seq<char>, fields: ListFields)
    ensures
        lists_after_update(lists_after_update(lists, id, fields), id, fields) == lists_after_update(
            lists,
            id,
            fields,
        ),
{
    let once = lists_after_update(lists, id, fields);
    assert(lists_after_update(once, id, fields) =~= once);
}

/// Applying the same user update twice leaves the users as applying it once.
pub proof fn lemma_update_user_idempotent(users: Map<Seq<u8>, User>, id: Seq<char>, fields: UserFields)
    ensures
        users_after_update(users_after_update(users, id, fields), id, fields) == users_after_update(
            users,
            id,
            fields,
        ),
{
    let once = users_after_update(users, id, fields);
    assert(users_after_update(once, id, fields) =~= once);
}

} // verus!
