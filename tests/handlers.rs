use list_api::api::{
    after_update, create_list, create_user, delete_list, delete_reply, delete_user,
    document_reply, empty_id_reply, error_reply, get_all_lists, get_all_users, get_list,
    get_user, update_list, update_user, Reply, ReplyBody,
};
use list_api::models::{Content, List, ListFields, ListItem, User, UserFields};
use list_api::repository::{DeleteOutcome, MongoRepo, RepoError, UpdateOutcome};

const ABSENT: &str = "65a1b2c3d4e5f60718293a4b";

fn groceries() -> List {
    List {
        _id: None,
        name: "Groceries".to_string(),
        description: "weekly".to_string(),
        items: vec![ListItem { content: Content::Text { text: "Milk".to_string() } }],
    }
}

fn alice() -> User {
    User {
        _id: None,
        name: "Alice".to_string(),
        location: "Lagos".to_string(),
        title: "Engineer".to_string(),
    }
}

fn message<T>(r: &Reply<T>) -> &str {
    match &r.body {
        ReplyBody::Message(m) => m.as_str(),
        ReplyBody::JsonMessage(m) => m.as_str(),
        ReplyBody::Json(_) => panic!("expected a message"),
    }
}

#[test]
fn post_list_replies_with_created_document() {
    let mut repo = MongoRepo::new();
    let reply = create_list(&mut repo, groceries());
    assert_eq!(reply.status, 200);
    let l = match reply.body {
        ReplyBody::Json(l) => l,
        _ => panic!("expected the document"),
    };
    assert!(l._id.is_some());
    assert_eq!(l.name, "Groceries");
    assert_eq!(l.description, "weekly");
    assert_eq!(l.items.len(), 1);
    assert!(matches!(&l.items[0].content, Content::Text { text } if text == "Milk"));
}

#[test]
fn get_missing_list_is_404() {
    let repo = MongoRepo::new();
    assert_eq!(get_list(&repo, ABSENT).status, 404);
}

#[test]
fn get_with_empty_or_malformed_id_is_400() {
    let repo = MongoRepo::new();
    let r = get_list(&repo, "");
    assert_eq!(r.status, 400);
    assert_eq!(message(&r), "invalid ID");
    assert_eq!(get_user(&repo, "xyz").status, 400);
}

#[test]
fn get_existing_user_is_200() {
    let mut repo = MongoRepo::new();
    let id = repo.create_user(alice()).unwrap().to_hex();
    let r = get_user(&repo, &id);
    assert_eq!(r.status, 200);
    assert!(matches!(r.body, ReplyBody::Json(u) if u.name == "Alice"));
}

#[test]
fn put_list_without_items_changes_only_name() {
    let mut repo = MongoRepo::new();
    let id = repo.create_list(groceries()).unwrap().to_hex();
    let fields = ListFields { name: Some("Weekend".to_string()), description: None, items: None };
    let r = update_list(&mut repo, &id, fields);
    assert_eq!(r.status, 200);
    let l = match r.body {
        ReplyBody::Json(l) => l,
        _ => panic!("expected the document"),
    };
    assert_eq!(l.name, "Weekend");
    assert_eq!(l.description, "weekly");
    assert_eq!(l.items.len(), 1);
    assert!(matches!(&l.items[0].content, Content::Text { text } if text == "Milk"));
}

#[test]
fn put_missing_documents_is_404() {
    let mut repo = MongoRepo::new();
    let fields = ListFields { name: Some("x".to_string()), description: None, items: None };
    let r = update_list(&mut repo, ABSENT, fields);
    assert_eq!(r.status, 404);
    assert_eq!(message(&r), "No list found with specified ID");
    let ufields = UserFields { name: None, location: None, title: None };
    assert_eq!(update_user(&mut repo, ABSENT, ufields).status, 404);
    let ufields = UserFields { name: None, location: None, title: None };
    assert_eq!(update_user(&mut repo, "", ufields).status, 400);
}

#[test]
fn delete_user_twice_is_200_then_404() {
    let mut repo = MongoRepo::new();
    let id = repo.create_user(alice()).unwrap().to_hex();
    let first = delete_user(&mut repo, &id);
    assert_eq!(first.status, 200);
    assert_eq!(message(&first), "User successfully deleted!");
    let second = delete_user(&mut repo, &id);
    assert_eq!(second.status, 404);
    assert_eq!(message(&second), "User with specified ID not found!");
}

#[test]
fn delete_list_statuses() {
    let mut repo = MongoRepo::new();
    let id = repo.create_list(groceries()).unwrap().to_hex();
    assert_eq!(delete_list(&mut repo, "").status, 400);
    assert_eq!(delete_list(&mut repo, "nope").status, 400);
    let r = delete_list(&mut repo, &id);
    assert_eq!(r.status, 200);
    assert_eq!(message(&r), "List successfully deleted!");
}

#[test]
fn get_all_handlers_reply_200() {
    let mut repo = MongoRepo::new();
    let r = get_all_lists(&repo);
    assert_eq!(r.status, 200);
    assert!(matches!(r.body, ReplyBody::Json(v) if v.is_empty()));
    assert_eq!(create_user(&mut repo, alice()).status, 200);
    let r = get_all_users(&repo);
    assert!(matches!(r.body, ReplyBody::Json(v) if v.len() == 1));
}

#[test]
fn error_replies_by_kind() {
    assert_eq!(error_reply::<()>(RepoError::InvalidIdentifier).status, 400);
    assert_eq!(error_reply::<()>(RepoError::NotFound).status, 404);
    let r = error_reply::<()>(RepoError::StoreError { message: "down".to_string() });
    assert_eq!(r.status, 500);
    assert_eq!(message(&r), "down");
}

#[test]
fn empty_id_is_rejected_before_the_repository() {
    assert_eq!(empty_id_reply::<()>("").unwrap().status, 400);
    assert!(empty_id_reply::<()>("abc").is_none());
}

#[test]
fn document_and_update_and_delete_replies() {
    let ok = document_reply::<u8>(Ok(5));
    assert_eq!(ok.status, 200);
    assert!(matches!(ok.body, ReplyBody::Json(5)));
    assert_eq!(document_reply::<u8>(Err(RepoError::NotFound)).status, 404);
    assert!(after_update::<()>(Ok(UpdateOutcome::Updated), "none").is_ok());
    let r = after_update::<()>(Ok(UpdateOutcome::NoMatch), "none").unwrap_err();
    assert_eq!((r.status, message(&r)), (404, "none"));
    let e = after_update::<()>(Err(RepoError::StoreError { message: "x".to_string() }), "none");
    assert_eq!(e.unwrap_err().status, 500);
    let d = delete_reply::<()>(Ok(DeleteOutcome::Deleted), "gone", "none");
    assert_eq!((d.status, message(&d)), (200, "gone"));
    let d = delete_reply::<()>(Ok(DeleteOutcome::NotFound), "gone", "none");
    assert_eq!((d.status, message(&d)), (404, "none"));
}

#[test]
fn post_on_taken_state_reports_store_message() {
    let r = error_reply::<()>(RepoError::StoreError { message: "duplicate key".to_string() });
    assert!(matches!(r.body, ReplyBody::Message(ref m) if m == "duplicate key"));
}

#[test]
fn delete_messages_are_json_strings() {
    let d = delete_reply::<()>(Ok(DeleteOutcome::Deleted), "gone", "none");
    assert!(matches!(d.body, ReplyBody::JsonMessage(ref m) if m == "gone"));
    let e = delete_reply::<()>(Err(RepoError::InvalidIdentifier), "gone", "none");
    assert_eq!((e.status, message(&e)), (400, "invalid ID"));
}

#[test]
fn missing_and_malformed_bodies() {
    let mut repo = MongoRepo::new();
    let r = get_list(&repo, ABSENT);
    assert_eq!(message(&r), "no document with the given ID");
    let fields = ListFields { name: None, description: None, items: None };
    let r = update_list(&mut repo, "", fields);
    assert_eq!((r.status, message(&r)), (400, "invalid ID"));
    let r = delete_list(&mut repo, "");
    assert_eq!((r.status, message(&r)), (400, "invalid ID"));
    let r = delete_list(&mut repo, ABSENT);
    assert_eq!((r.status, message(&r)), (404, "List with specified ID not found!"));
}
