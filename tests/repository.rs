use list_api::models::{Content, FieldKey, FieldValue, List, ListFields, ListItem, User, UserFields};
use list_api::object_id::ObjectId;
use list_api::repository::{
    collect_step, found, outcome_of_lookup, CollectStep, CursorEvent, DeleteOutcome, MongoRepo, RepoError,
    UpdateOutcome,
};

const ABSENT: &str = "65a1b2c3d4e5f60718293a4b";

fn text_item(t: &str) -> ListItem {
    ListItem { content: Content::Text { text: t.to_string() } }
}

fn groceries() -> List {
    List {
        _id: None,
        name: "Groceries".to_string(),
        description: "weekly".to_string(),
        items: vec![text_item("Milk")],
    }
}

fn alice() -> User {
    User {
        _id: None,
        name: "Alice".to_string(),
        location: "Lagos".to_string(),
        title: "Engineer".to_string(),
    }
}

#[test]
fn create_then_get_list_returns_the_input() {
    let mut repo = MongoRepo::new();
    let mut input = groceries();
    input._id = Some(ObjectId { bytes: [9; 12] });
    let id = repo.create_list(input).unwrap();
    let stored = repo.get_list(&id.to_hex()).unwrap();
    assert!(stored._id.unwrap().same_as(&id));
    assert!(!id.same_as(&ObjectId { bytes: [9; 12] }));
    assert_eq!(stored.name, "Groceries");
    assert_eq!(stored.description, "weekly");
    assert_eq!(stored.items.len(), 1);
    assert!(matches!(&stored.items[0].content, Content::Text { text } if text == "Milk"));
}

#[test]
fn create_then_get_user_returns_the_input() {
    let mut repo = MongoRepo::new();
    let id = repo.create_user(alice()).unwrap();
    let stored = repo.get_user(&id.to_hex()).unwrap();
    assert!(stored._id.unwrap().same_as(&id));
    assert_eq!(stored.name, "Alice");
    assert_eq!(stored.location, "Lagos");
    assert_eq!(stored.title, "Engineer");
}

#[test]
fn create_with_taken_identifier_is_store_error() {
    let mut repo = MongoRepo::new();
    let id = ObjectId { bytes: [1; 12] };
    assert!(repo.create_user_with_id(id, alice()).is_ok());
    assert!(matches!(repo.create_user_with_id(id, alice()), Err(RepoError::StoreError { .. })));
    assert_eq!(repo.get_all_users().len(), 1);
}

#[test]
fn malformed_identifier_gives_invalid_identifier_everywhere() {
    let mut repo = MongoRepo::new();
    repo.create_list(groceries()).unwrap();
    for bad in ["", "abc", "65a1b2c3d4e5f60718293a4x", "65a1b2c3d4e5f60718293a4b00"] {
        assert!(matches!(repo.get_list(bad), Err(RepoError::InvalidIdentifier)));
        assert!(matches!(repo.update_list(bad, groceries()), Err(RepoError::InvalidIdentifier)));
        assert!(matches!(repo.delete_list(bad), Err(RepoError::InvalidIdentifier)));
        assert!(matches!(repo.get_user(bad), Err(RepoError::InvalidIdentifier)));
        assert!(matches!(repo.update_user(bad, alice()), Err(RepoError::InvalidIdentifier)));
        assert!(matches!(repo.delete_user(bad), Err(RepoError::InvalidIdentifier)));
    }
    assert_eq!(repo.get_all_lists().len(), 1);
}

#[test]
fn absent_identifier_is_not_found_or_no_match() {
    let mut repo = MongoRepo::new();
    repo.create_list(groceries()).unwrap();
    repo.create_user(alice()).unwrap();
    assert!(matches!(repo.get_list(ABSENT), Err(RepoError::NotFound)));
    assert_eq!(repo.update_list(ABSENT, groceries()).unwrap(), UpdateOutcome::NoMatch);
    assert_eq!(repo.delete_list(ABSENT).unwrap(), DeleteOutcome::NotFound);
    assert!(matches!(repo.get_user(ABSENT), Err(RepoError::NotFound)));
    assert_eq!(repo.update_user(ABSENT, alice()).unwrap(), UpdateOutcome::NoMatch);
    assert_eq!(repo.delete_user(ABSENT).unwrap(), DeleteOutcome::NotFound);
    assert_eq!(repo.get_all_lists().len(), 1);
    assert_eq!(repo.get_all_users().len(), 1);
}

#[test]
fn update_twice_equals_update_once() {
    let mut repo = MongoRepo::new();
    let id = repo.create_user(alice()).unwrap().to_hex();
    let change = || User {
        _id: None,
        name: "Bea".to_string(),
        location: "Accra".to_string(),
        title: "Lead".to_string(),
    };
    assert_eq!(repo.update_user(&id, change()).unwrap(), UpdateOutcome::Updated);
    let (n1, l1, t1) = {
        let u = repo.get_user(&id).unwrap();
        (u.name.clone(), u.location.clone(), u.title.clone())
    };
    assert_eq!(repo.update_user(&id, change()).unwrap(), UpdateOutcome::Updated);
    let u = repo.get_user(&id).unwrap();
    assert_eq!((u.name.clone(), u.location.clone(), u.title.clone()), (n1, l1, t1));
    assert_eq!(u.name, "Bea");
    assert_eq!(repo.get_all_users().len(), 1);
}

#[test]
fn partial_list_update_keeps_unset_fields() {
    let mut repo = MongoRepo::new();
    let id = repo.create_list(groceries()).unwrap().to_hex();
    let fields = ListFields { name: Some("Errands".to_string()), description: None, items: None };
    assert_eq!(repo.update_list_fields(&id, fields).unwrap(), UpdateOutcome::Updated);
    let l = repo.get_list(&id).unwrap();
    assert_eq!(l.name, "Errands");
    assert_eq!(l.description, "weekly");
    assert_eq!(l.items.len(), 1);
}

#[test]
fn list_update_replaces_items_whole() {
    let mut repo = MongoRepo::new();
    let id = repo.create_list(groceries()).unwrap().to_hex();
    let nested = List {
        _id: None,
        name: "Inner".to_string(),
        description: String::new(),
        items: vec![text_item("Eggs")],
    };
    let new_items = vec![
        ListItem { content: Content::Image { url: "http://img/1.png".to_string() } },
        ListItem { content: Content::List { list: nested } },
    ];
    let fields = ListFields { name: None, description: None, items: Some(new_items) };
    repo.update_list_fields(&id, fields).unwrap();
    let l = repo.get_list(&id).unwrap();
    assert_eq!(l.name, "Groceries");
    assert_eq!(l.items.len(), 2);
    assert!(matches!(&l.items[0].content, Content::Image { url } if url == "http://img/1.png"));
    match &l.items[1].content {
        Content::List { list } => assert_eq!(list.items.len(), 1),
        _ => panic!("expected a nested list"),
    }
}

#[test]
fn partial_user_update_keeps_unset_fields() {
    let mut repo = MongoRepo::new();
    let id = repo.create_user(alice()).unwrap().to_hex();
    let fields = UserFields { name: None, location: None, title: Some("CTO".to_string()) };
    repo.update_user_fields(&id, fields).unwrap();
    let u = repo.get_user(&id).unwrap();
    assert_eq!((u.name.as_str(), u.location.as_str(), u.title.as_str()), ("Alice", "Lagos", "CTO"));
}

#[test]
fn delete_removes_only_that_document() {
    let mut repo = MongoRepo::new();
    let a = repo.create_list(groceries()).unwrap().to_hex();
    let b = repo.create_list(groceries()).unwrap().to_hex();
    assert_eq!(repo.delete_list(&a).unwrap(), DeleteOutcome::Deleted);
    assert!(matches!(repo.get_list(&a), Err(RepoError::NotFound)));
    assert!(repo.get_list(&b).is_ok());
    assert_eq!(repo.get_all_lists().len(), 1);
}

#[test]
fn list_all_on_empty_collection_is_empty() {
    let repo = MongoRepo::new();
    assert!(repo.get_all_lists().is_empty());
    assert!(repo.get_all_users().is_empty());
}

#[test]
fn list_all_returns_every_document() {
    let mut repo = MongoRepo::new();
    repo.create_user(alice()).unwrap();
    repo.create_user(alice()).unwrap();
    repo.create_user(alice()).unwrap();
    assert_eq!(repo.get_all_users().len(), 3);
    assert!(repo.get_all_lists().is_empty());
}

#[test]
fn outcome_counts() {
    assert_eq!(UpdateOutcome::from_matched_count(1), UpdateOutcome::Updated);
    assert_eq!(UpdateOutcome::from_matched_count(0), UpdateOutcome::NoMatch);
    assert_eq!(DeleteOutcome::from_deleted_count(1), DeleteOutcome::Deleted);
    assert_eq!(DeleteOutcome::from_deleted_count(0), DeleteOutcome::NotFound);
}

#[test]
fn found_maps_none_to_not_found() {
    assert!(matches!(found(Some(3)), Ok(3)));
    assert!(matches!(found::<u8>(None), Err(RepoError::NotFound)));
}

#[test]
fn cursor_collects_until_end() {
    let step = collect_step(vec![1, 2], CursorEvent::Item(3));
    let gathered = match step {
        CollectStep::More(v) => v,
        _ => panic!("expected more"),
    };
    assert_eq!(gathered, vec![1, 2, 3]);
    match collect_step(gathered, CursorEvent::End) {
        CollectStep::Done(Ok(v)) => assert_eq!(v, vec![1, 2, 3]),
        _ => panic!("expected the whole sequence"),
    }
}

#[test]
fn cursor_failure_discards_partial_results() {
    match collect_step(vec![1, 2], CursorEvent::Failed("connection reset".to_string())) {
        CollectStep::Done(Err(RepoError::StoreError { message })) => {
            assert_eq!(message, "connection reset")
        }
        _ => panic!("expected a store error"),
    }
}

#[test]
fn user_update_assigns_only_set_fields() {
    let f = UserFields { name: Some("Bea".to_string()), location: None, title: Some("Lead".to_string()) };
    let a = f.into_assignments();
    assert_eq!(a.len(), 2);
    assert_eq!(a[0].0, FieldKey::Name);
    assert!(matches!(&a[0].1, FieldValue::Text(t) if t == "Bea"));
    assert_eq!(a[1].0.as_str(), "title");
    let none = UserFields { name: None, location: None, title: None };
    assert!(none.into_assignments().is_empty());
}

#[test]
fn list_update_assigns_items_whole() {
    let f = ListFields {
        name: None,
        description: Some("monthly".to_string()),
        items: Some(vec![ListItem { content: Content::Text { text: "Tea".to_string() } }]),
    };
    let a = f.into_assignments();
    assert_eq!(a.len(), 2);
    assert_eq!(a[0].0.as_str(), "description");
    assert_eq!(a[1].0.as_str(), "items");
    assert!(matches!(&a[1].1, FieldValue::Items(v) if v.len() == 1));
}

#[test]
fn lookup_outcome_for_an_update_with_no_fields() {
    assert_eq!(outcome_of_lookup::<u8>(Ok(1)).unwrap(), UpdateOutcome::Updated);
    assert_eq!(outcome_of_lookup::<u8>(Err(RepoError::NotFound)).unwrap(), UpdateOutcome::NoMatch);
    let e = outcome_of_lookup::<u8>(Err(RepoError::StoreError { message: "down".to_string() }));
    assert!(matches!(e, Err(RepoError::StoreError { message }) if message == "down"));
}

#[test]
fn create_on_empty_repository_succeeds() {
    let mut repo = MongoRepo::new();
    assert!(repo.create_list(groceries()).is_ok());
    assert!(repo.create_user(alice()).is_ok());
}
