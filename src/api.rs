//! The handlers' decisions: a missing identifier is 400, each repository
//! result becomes a status and a body. Serialising the body is left to the
//! HTTP layer.

use vstd::prelude::*;
use crate::collection::key_of;
use crate::models::{list_with_fields, user_with_fields, List, ListFields, User, UserFields};
use crate::object_id::{is_object_id_text, object_id_bytes};
use crate::repository::{lists_after_update, users_after_update, DeleteOutcome, MongoRepo, RepoError, UpdateOutcome};

verus! {

/// What a reply carries.
#[derive(Debug)]
pub enum ReplyBody<T> {
    /// A value to serialise as the response document.
    Json(T),
    /// A plain-text message.
    Message(String),
    /// A message sent as a JSON string.
    JsonMessage(String),
}

/// An HTTP reply: a status code and a body.
#[derive(Debug)]
pub struct Reply<T> {
    pub status: u16,
    pub body: ReplyBody<T>,
}

/// The status that a repository error is reported with.
pub open spec fn error_status(e: RepoError) -> u16 {
    match e {
        RepoError::InvalidIdentifier => 400,
        RepoError::NotFound => 404,
        RepoError::StoreError { .. } => 500,
    }
}

/// The text that a repository error is reported with: the store's own
/// message for a store failure.
pub open spec fn error_text(e: RepoError) -> Seq<char> {
    match e {
        RepoError::InvalidIdentifier => "invalid ID"@,
        RepoError::NotFound => "no document with the given ID"@,
        RepoError::StoreError { message } => message@,
    }
}

/// The reply for a repository error: 400 for a malformed identifier, 404 for
/// no document, 500 with the store's message for a store failure.
pub fn error_reply<T>(e: RepoError) -> (r: Reply<T>)
    ensures
        r.status == error_status(e),
        r.body is Message,
        r.body->Message_0@ == error_text(e),
{
    match e {
        RepoError::InvalidIdentifier => Reply { status: 400, body: ReplyBody::Message(String::from_str("invalid ID")) },
        RepoError::NotFound => Reply { status: 404, body: ReplyBody::Message(String::from_str("no document with the given ID")) },
        RepoError::StoreError { message } => Reply { status: 500, body: ReplyBody::Message(message) },
    }
}

/// The reply for a path whose identifier is empty, which no handler takes further.
pub fn empty_id_reply<T>(id: &str) -> (r: Option<Reply<T>>)
    ensures
        r is Some <==> id@.len() == 0,
        r matches Some(rep) ==> rep.status == 400 && rep.body is Message && rep.body->Message_0@
            == "invalid ID"@,
{
    if id.is_empty() {
        Some(Reply { status: 400, body: ReplyBody::Message(String::from_str("invalid ID")) })
    } else {
        None
    }
}

/// The reply for a read or a create: 200 with the document, else the error's reply.
pub fn document_reply<T>(res: Result<T, RepoError>) -> (r: Reply<T>)
    ensures
        res matches Ok(d) ==> r.status == 200 && r.body == ReplyBody::<T>::Json(d),
        res matches Err(e) ==> r.status == error_status(e) && r.body is Message && r.body->Message_0@
            == error_text(e),
{
    match res {
        Ok(d) => Reply { status: 200, body: ReplyBody::Json(d) },
        Err(e) => error_reply(e),
    }
}

/// After an update: `Ok` where exactly one document matched and the handler
/// goes on to reload it; else the final reply, 404 for no match.
pub fn after_update<T>(res: Result<UpdateOutcome, RepoError>, not_found: &str) -> (r: Result<(), Reply<T>>)
    ensures
        res == Ok::<UpdateOutcome, RepoError>(UpdateOutcome::Updated) <==> r is Ok,
        res == Ok::<UpdateOutcome, RepoError>(UpdateOutcome::NoMatch) ==> r is Err && r->Err_0.status == 404
            && r->Err_0.body is Message && r->Err_0.body->Message_0@ == not_found@,
        res matches Err(e) ==> r is Err && r->Err_0.status == error_status(e) && r->Err_0.body is Message
            && r->Err_0.body->Message_0@ == error_text(e),
{
    match res {
        Ok(UpdateOutcome::Updated) => Ok(()),
        Ok(UpdateOutcome::NoMatch) => Err(Reply { status: 404, body: ReplyBody::Message(not_found.to_string()) }),
        Err(e) => Err(error_reply(e)),
    }
}

/// The reply for a delete: 200 with `deleted`, 404 with `not_found`, both as
/// JSON strings; else the error's reply.
pub fn delete_reply<T>(res: Result<DeleteOutcome, RepoError>, deleted: &str, not_found: &str) -> (r: Reply<T>)
    ensures
        res == Ok::<DeleteOutcome, RepoError>(DeleteOutcome::Deleted) ==> r.status == 200
            && r.body is JsonMessage && r.body->JsonMessage_0@ == deleted@,
        res == Ok::<DeleteOutcome, RepoError>(DeleteOutcome::NotFound) ==> r.status == 404
            && r.body is JsonMessage && r.body->JsonMessage_0@ == not_found@,
        res matches Err(e) ==> r.status == error_status(e) && r.body is Message && r.body->Message_0@
            == error_text(e),
{
    match res {
        Ok(DeleteOutcome::Deleted) => Reply { status: 200, body: ReplyBody::JsonMessage(deleted.to_string()) },
        Ok(DeleteOutcome::NotFound) => Reply { status: 404, body: ReplyBody::JsonMessage(not_found.to_string()) },
        Err(e) => error_reply(e),
    }
}

/// POST /list: stores the list under a fresh identifier and replies with the
/// stored document.
pub fn create_list<'a>(repo: &'a mut MongoRepo, new_list: List) -> (r: Reply<&'a List>)
    requires
        old(repo).wf(),
    ensures
        final(repo).wf(),
        final(repo).users() == old(repo).users(),
        r.status == 200 || r.status == 500,
        r.status == 500 ==> final(repo).lists() == old(repo).lists(),
        r.status == 500 ==> (exists|k: Seq<u8>| old(repo).lists().contains_key(k)) && r.body is Message
            && r.body->Message_0@ == "duplicate key"@,
        r.status == 200 ==> r.body is Json && r.body->Json_0._id is Some && ({
            let k = r.body->Json_0._id->0;
            &&& !old(repo).lists().contains_key(k@)
            &&& final(repo).lists() == old(repo).lists().insert(k@, List { _id: Some(k), ..new_list })
            &&& *r.body->Json_0 == (List { _id: Some(k), ..new_list })
        }),
{
    match repo.create_list(new_list) {
        Ok(id) => {
            let shared: &'a MongoRepo = repo;
            document_reply(shared.get_list_by_id(&id))
        },
        Err(e) => error_reply(e),
    }
}

/// POST /user: stores the user under a fresh identifier and replies with the
/// stored document.
pub fn create_user<'a>(repo: &'a mut MongoRepo, new_user: User) -> (r: Reply<&'a User>)
    requires
        old(repo).wf(),
    ensures
        final(repo).wf(),
        final(repo).lists() == old(repo).lists(),
        r.status == 200 || r.status == 500,
        r.status == 500 ==> final(repo).users() == old(repo).users(),
        r.status == 500 ==> (exists|k: Seq<u8>| old(repo).users().contains_key(k)) && r.body is Message
            && r.body->Message_0@ == "duplicate key"@,
        r.status == 200 ==> r.body is Json && r.body->Json_0._id is Some && ({
            let k = r.body->Json_0._id->0;
            &&& !old(repo).users().contains_key(k@)
            &&& final(repo).users() == old(repo).users().insert(k@, User { _id: Some(k), ..new_user })
            &&& *r.body->Json_0 == (User { _id: Some(k), ..new_user })
        }),
{
    match repo.create_user(new_user) {
        Ok(id) => {
            let shared: &'a MongoRepo = repo;
            document_reply(shared.get_user_by_id(&id))
        },
        Err(e) => error_reply(e),
    }
}

/// GET /list/{id}: 200 with the stored list; 400 for an empty or malformed
/// identifier, 404 where none is stored under it.
pub fn get_list<'a>(repo: &'a MongoRepo, id: &str) -> (r: Reply<&'a List>)
    requires
        repo.wf(),
    ensures
        !is_object_id_text(id@) ==> r.status == 400 && r.body is Message && r.body->Message_0@
            == "invalid ID"@,
        is_object_id_text(id@) && !repo.lists().contains_key(object_id_bytes(id@)) ==> r.status == 404
            && r.body is Message && r.body->Message_0@ == "no document with the given ID"@,
        is_object_id_text(id@) && repo.lists().contains_key(object_id_bytes(id@)) ==> r.status == 200
            && r.body is Json && *r.body->Json_0 == repo.lists()[object_id_bytes(id@)],
{
    if let Some(rep) = empty_id_reply(id) {
        return rep;
    }
    document_reply(repo.get_list(id))
}

/// PUT /list/{id}: sets the given fields and replies 200 with the list as now
/// stored; 400 for an empty or malformed identifier, 404 where none is stored
/// under it.
pub fn update_list<'a>(repo: &'a mut MongoRepo, id: &str, fields: ListFields) -> (r: Reply<&'a List>)
    requires
        old(repo).wf(),
    ensures
        final(repo).wf(),
        final(repo).users() == old(repo).users(),
        final(repo).lists() == lists_after_update(old(repo).lists(), id@, fields),
        !is_object_id_text(id@) ==> r.status == 400 && r.body is Message && r.body->Message_0@
            == "invalid ID"@,
        is_object_id_text(id@) && !old(repo).lists().contains_key(object_id_bytes(id@)) ==> r.status == 404
            && r.body is Message && r.body->Message_0@ == "No list found with specified ID"@,
        is_object_id_text(id@) && old(repo).lists().contains_key(object_id_bytes(id@)) ==> r.status == 200
            && r.body is Json && *r.body->Json_0 == list_with_fields(old(repo).lists()[object_id_bytes(id@)], fields),
{
    if let Some(rep) = empty_id_reply(id) {
        return rep;
    }
    let res = repo.update_list_fields(id, fields);
    match after_update(res, "No list found with specified ID") {
        Err(rep) => rep,
        Ok(()) => {
            let shared: &'a MongoRepo = repo;
            document_reply(shared.get_list(id))
        },
    }
}

/// DELETE /list/{id}: 200 where the list was removed, 404 where none is stored
/// under the identifier, 400 for an empty or malformed one.
pub fn delete_list(repo: &mut MongoRepo, id: &str) -> (r: Reply<()>)
    requires
        old(repo).wf(),
    ensures
        final(repo).wf(),
        final(repo).users() == old(repo).users(),
        !is_object_id_text(id@) ==> r.status == 400 && final(repo).lists() == old(repo).lists()
            && r.body is Message && r.body->Message_0@ == "invalid ID"@,
        is_object_id_text(id@) && !old(repo).lists().contains_key(object_id_bytes(id@)) ==> r.status == 404
            && final(repo).lists() == old(repo).lists() && r.body is JsonMessage
            && r.body->JsonMessage_0@ == "List with specified ID not found!"@,
        is_object_id_text(id@) && old(repo).lists().contains_key(object_id_bytes(id@)) ==> r.status == 200
            && final(repo).lists() == old(repo).lists().remove(object_id_bytes(id@)) && r.body is JsonMessage
            && r.body->JsonMessage_0@ == "List successfully deleted!"@,
{
    if let Some(rep) = empty_id_reply(id) {
        return rep;
    }
    let res = repo.delete_list(id);
    delete_reply(res, "List successfully deleted!", "List with specified ID not found!")
}

/// GET /lists: 200 with every stored list.
pub fn get_all_lists<'a>(repo: &'a MongoRepo) -> (r: Reply<&'a Vec<List>>)
    requires
        repo.wf(),
    ensures
        r.status == 200 && r.body is Json,
        r.body->Json_0@ == repo.lists_in_order(),
        forall|i: int| 0 <= i < r.body->Json_0@.len() ==> repo.lists().contains_key(key_of(#[trigger] r.body->Json_0@[i]))
            && repo.lists()[key_of(r.body->Json_0@[i])] == r.body->Json_0@[i],
        forall|k: Seq<u8>| #[trigger] repo.lists().contains_key(k) ==> exists|i: int|
            0 <= i < r.body->Json_0@.len() && key_of(#[trigger] r.body->Json_0@[i]) == k,
        repo.lists() == Map::<Seq<u8>, List>::empty() ==> r.body->Json_0@.len() == 0,
{
    let all = repo.get_all_lists();
    let r = Reply { status: 200, body: ReplyBody::Json(all) };
    assert(r.body->Json_0 == all);
    r
}

/// GET /user/{id}: 200 with the stored user; 400 for an empty or malformed
/// identifier, 404 where none is stored under it.
pub fn get_user<'a>(repo: &'a MongoRepo, id: &str) -> (r: Reply<&'a User>)
    requires
        repo.wf(),
    ensures
        !is_object_id_text(id@) ==> r.status == 400 && r.body is Message && r.body->Message_0@
            == "invalid ID"@,
        is_object_id_text(id@) && !repo.users().contains_key(object_id_bytes(id@)) ==> r.status == 404
            && r.body is Message && r.body->Message_0@ == "no document with the given ID"@,
        is_object_id_text(id@) && repo.users().contains_key(object_id_bytes(id@)) ==> r.status == 200
            && r.body is Json && *r.body->Json_0 == repo.users()[object_id_bytes(id@)],
{
    if let Some(rep) = empty_id_reply(id) {
        return rep;
    }
    document_reply(repo.get_user(id))
}

/// PUT /user/{id}: sets the given fields and replies 200 with the user as now
/// stored; 400 for an empty or malformed identifier, 404 where none is stored
/// under it.
pub fn update_user<'a>(repo: &'a mut MongoRepo, id: &str, fields: UserFields) -> (r: Reply<&'a User>)
    requires
        old(repo).wf(),
    ensures
        final(repo).wf(),
        final(repo).lists() == old(repo).lists(),
        final(repo).users() == users_after_update(old(repo).users(), id@, fields),
        !is_object_id_text(id@) ==> r.status == 400 && r.body is Message && r.body->Message_0@
            == "invalid ID"@,
        is_object_id_text(id@) && !old(repo).users().contains_key(object_id_bytes(id@)) ==> r.status == 404
            && r.body is Message && r.body->Message_0@ == "No user found with specified ID"@,
        is_object_id_text(id@) && old(repo).users().contains_key(object_id_bytes(id@)) ==> r.status == 200
            && r.body is Json && *r.body->Json_0 == user_with_fields(old(repo).users()[object_id_bytes(id@)], fields),
{
    if let Some(rep) = empty_id_reply(id) {
        return rep;
    }
    let res = repo.update_user_fields(id, fields);
    match after_update(res, "No user found with specified ID") {
        Err(rep) => rep,
        Ok(()) => {
            let shared: &'a MongoRepo = repo;
            document_reply(shared.get_user(id))
        },
    }
}

/// DELETE /user/{id}: 200 where the user was removed, 404 where none is stored
/// under the identifier, 400 for an empty or malformed one.
pub fn delete_user(repo: &mut MongoRepo, id: &str) -> (r: Reply<()>)
    requires
        old(repo).wf(),
    ensures
        final(repo).wf(),
        final(repo).lists() == old(repo).lists(),
        !is_object_id_text(id@) ==> r.status == 400 && final(repo).users() == old(repo).users()
            && r.body is Message && r.body->Message_0@ == "invalid ID"@,
        is_object_id_text(id@) && !old(repo).users().contains_key(object_id_bytes(id@)) ==> r.status == 404
            && final(repo).users() == old(repo).users() && r.body is JsonMessage
            && r.body->JsonMessage_0@ == "User with specified ID not found!"@,
        is_object_id_text(id@) && old(repo).users().contains_key(object_id_bytes(id@)) ==> r.status == 200
            && final(repo).users() == old(repo).users().remove(object_id_bytes(id@)) && r.body is JsonMessage
            && r.body->JsonMessage_0@ == "User successfully deleted!"@,
{
    if let Some(rep) = empty_id_reply(id) {
        return rep;
    }
    let res = repo.delete_user(id);
    delete_reply(res, "User successfully deleted!", "User with specified ID not found!")
}

/// GET /users: 200 with every stored user.
pub fn get_all_users<'a>(repo: &'a MongoRepo) -> (r: Reply<&'a Vec<User>>)
    requires
        repo.wf(),
    ensures
        r.status == 200 && r.body is Json,
        r.body->Json_0@ == repo.users_in_order(),
        forall|i: int| 0 <= i < r.body->Json_0@.len() ==> repo.users().contains_key(key_of(#[trigger] r.body->Json_0@[i]))
            && repo.users()[key_of(r.body->Json_0@[i])] == r.body->Json_0@[i],
        forall|k: Seq<u8>| #[trigger] repo.users().contains_key(k) ==> exists|i: int|
            0 <= i < r.body->Json_0@.len() && key_of(#[trigger] r.body->Json_0@[i]) == k,
        repo.users() == Map::<Seq<u8>, User>::empty() ==> r.body->Json_0@.len() == 0,
{
    let all = repo.get_all_users();
    let r = Reply { status: 200, body: ReplyBody::Json(all) };
    assert(r.body->Json_0 == all);
    r
}

} // verus!
