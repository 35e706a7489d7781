//! The document schema: users, and lists whose items are text, images or
//! nested lists, together with the field sets that a partial update writes.

use vstd::prelude::*;
use crate::object_id::ObjectId;

verus! {

/// What a list item holds: exactly one of three variants.
#[derive(Debug)]
pub enum Content {
    Text { text: String },
    Image { url: String },
    List { list: List },
}

/// One entry of a list.
#[derive(Debug)]
pub struct ListItem {
    pub content: Content,
}

/// A list document. `_id` is absent until the store assigns one.
#[derive(Debug)]
pub struct List {
    pub _id: Option<ObjectId>,
    pub name: String,
    pub description: String,
    pub items: Vec<ListItem>,
}

/// A user document. `_id` is absent until the store assigns one.
#[derive(Debug)]
pub struct User {
    pub _id: Option<ObjectId>,
    pub name: String,
    pub location: String,
    pub title: String,
}

/// The fields that an update of a list sets; an absent field is left as stored.
#[derive(Debug)]
pub struct ListFields {
    pub name: Option<String>,
    pub description: Option<String>,
    pub items: Option<Vec<ListItem>>,
}

/// The fields that an update of a user sets; an absent field is left as stored.
#[derive(Debug)]
pub struct UserFields {
    pub name: Option<String>,
    pub location: Option<String>,
    pub title: Option<String>,
}

/// A document kind that a collection can hold: it carries its own identifier.
pub trait Document: Sized {
    spec fn doc_id(&self) -> Option<ObjectId>;

    /// The stored identifier, if any.
    fn id(&self) -> (r: Option<ObjectId>)
        ensures
            r == self.doc_id(),
    ;

    /// The same document with `_id` replaced.
    fn with_id(self, id: Option<ObjectId>) -> (r: Self)
        ensures
            r == self.spec_with_id(id),
    ;

    /// The same document with `_id` replaced, as a value.
    spec fn spec_with_id(self, id: Option<ObjectId>) -> Self;
}

/// A partial update applied to a stored value: set fields replace, absent
/// fields keep what was stored.
pub open spec fn keep_or_set<T>(stored: T, field: Option<T>) -> T {
    match field {
        Some(v) => v,
        None => stored,
    }
}

fn take_or_keep<T>(stored: T, field: Option<T>) -> (r: T)
    ensures
        r == keep_or_set(stored, field),
{
    match field {
        Some(v) => v,
        None => stored,
    }
}

/// The user that a field-set update of `u` with `f` leaves.
pub open spec fn user_with_fields(u: User, f: UserFields) -> User {
    User {
        _id: u._id,
        name: keep_or_set(u.name, f.name),
        location: keep_or_set(u.location, f.location),
        title: keep_or_set(u.title, f.title),
    }
}

/// The list that a field-set update of `l` with `f` leaves.
pub open spec fn list_with_fields(l: List, f: ListFields) -> List {
    List {
        _id: l._id,
        name: keep_or_set(l.name, f.name),
        description: keep_or_set(l.description, f.description),
        items: keep_or_set(l.items, f.items),
    }
}

/// The update that sets every field of `u`.
pub open spec fn user_fields_of(u: User) -> UserFields {
    UserFields { name: Some(u.name), location: Some(u.location), title: Some(u.title) }
}

/// The update that sets every field of `l`, its items as a whole.
pub open spec fn list_fields_of(l: List) -> ListFields {
    ListFields { name: Some(l.name), description: Some(l.description), items: Some(l.items) }
}

impl User {
    /// The document to insert for a new user: the fields as given, no identifier.
    pub fn for_insert(self) -> (r: User)
        ensures
            r == (User { _id: None, ..self }),
    {
        User { _id: None, name: self.name, location: self.location, title: self.title }
    }

    /// The update that sets every field of the user to the given values.
    pub fn to_fields(self) -> (r: UserFields)
        ensures
            r == user_fields_of(self),
    {
        UserFields { name: Some(self.name), location: Some(self.location), title: Some(self.title) }
    }

    /// Applies a field-set update.
    pub fn apply_fields(self, f: UserFields) -> (r: User)
        ensures
            r == user_with_fields(self, f),
    {
        User {
            _id: self._id,
            name: take_or_keep(self.name, f.name),
            location: take_or_keep(self.location, f.location),
            title: take_or_keep(self.title, f.title),
        }
    }
}

impl List {
    /// The document to insert for a new list: the fields as given, no identifier.
    pub fn for_insert(self) -> (r: List)
        ensures
            r == (List { _id: None, ..self }),
    {
        List { _id: None, name: self.name, description: self.description, items: self.items }
    }

    /// The update that sets every field of the list, its items as a whole.
    pub fn to_fields(self) -> (r: ListFields)
        ensures
            r == list_fields_of(self),
    {
        ListFields {
            name: Some(self.name),
            description: Some(self.description),
            items: Some(self.items),
        }
    }

    /// Applies a field-set update; a given item sequence replaces the stored one whole.
    pub fn apply_fields(self, f: ListFields) -> (r: List)
        ensures
            r == list_with_fields(self, f),
    {
        List {
            _id: self._id,
            name: take_or_keep(self.name, f.name),
            description: take_or_keep(self.description, f.description),
            items: take_or_keep(self.items, f.items),
        }
    }
}

impl Document for User {
    open spec fn doc_id(&self) -> Option<ObjectId> {
        self._id
    }

    fn id(&self) -> (r: Option<ObjectId>) {
        self._id
    }

    open spec fn spec_with_id(self, id: Option<ObjectId>) -> User {
        User { _id: id, ..self }
    }

    fn with_id(self, id: Option<ObjectId>) -> (r: User) {
        User { _id: id, name: self.name, location: self.location, title: self.title }
    }
}

impl Document for List {
    open spec fn doc_id(&self) -> Option<ObjectId> {
        self._id
    }

    fn id(&self) -> (r: Option<ObjectId>) {
        self._id
    }

    open spec fn spec_with_id(self, id: Option<ObjectId>) -> List {
        List { _id: id, ..self }
    }

    fn with_id(self, id: Option<ObjectId>) -> (r: List) {
        List { _id: id, name: self.name, description: self.description, items: self.items }
    }
}

/// A field that an update can set.
#[derive(Clone, Copy, Debug, PartialEq, Eq, Structural)]
pub enum FieldKey {
    Name,
    Location,
    Title,
    Description,
    Items,
}

/// The stored name of a field.
pub open spec fn field_key_text(k: FieldKey) -> Seq<char> {
    match k {
        FieldKey::Name => "name"@,
        FieldKey::Location => "location"@,
        FieldKey::Title => "title"@,
        FieldKey::Description => "description"@,
        FieldKey::Items => "items"@,
    }
}

impl FieldKey {
    /// The stored name of the field.
    pub fn as_str(&self) -> (r: &'static str)
        ensures
            r@ == field_key_text(*self),
    {
        match self {
            FieldKey::Name => "name",
            FieldKey::Location => "location",
            FieldKey::Title => "title",
            FieldKey::Description => "description",
            FieldKey::Items => "items",
        }
    }
}

/// The value that an update writes into one field.
#[derive(Debug)]
pub enum FieldValue {
    Text(String),
    Items(Vec<ListItem>),
}

/// The assignment a text field contributes to an update: one where it is set, none else.
pub open spec fn text_assignment(k: FieldKey, v: Option<String>) -> Seq<(FieldKey, FieldValue)> {
    match v {
        Some(t) => seq![(k, FieldValue::Text(t))],
        None => Seq::empty(),
    }
}

/// The assignments of a user update, in field order, one per set field.
pub open spec fn user_assignments(f: UserFields) -> Seq<(FieldKey, FieldValue)> {
    text_assignment(FieldKey::Name, f.name).add(text_assignment(FieldKey::Location, f.location)).add(
        text_assignment(FieldKey::Title, f.title),
    )
}

/// The assignments of a list update, in field order, one per set field; the
/// items, where set, as one value.
pub open spec fn list_assignments(f: ListFields) -> Seq<(FieldKey, FieldValue)> {
    text_assignment(FieldKey::Name, f.name).add(text_assignment(FieldKey::Description, f.description)).add(
        match f.items {
            Some(v) => seq![(FieldKey::Items, FieldValue::Items(v))],
            None => Seq::empty(),
        },
    )
}

fn push_text(out: &mut Vec<(FieldKey, FieldValue)>, k: FieldKey, v: Option<String>)
    ensures
        final(out)@ == old(out)@.add(text_assignment(k, v)),
{
    match v {
        Some(t) => out.push((k, FieldValue::Text(t))),
        None => {},
    }
    assert(final(out)@ =~= old(out)@.add(text_assignment(k, v)));
}

impl UserFields {
    /// The field assignments that this update makes, one per set field.
    pub fn into_assignments(self) -> (r: Vec<(FieldKey, FieldValue)>)
        ensures
            r@ == user_assignments(self),
    {
        let mut out: Vec<(FieldKey, FieldValue)> = Vec::new();
        push_text(&mut out, FieldKey::Name, self.name);
        push_text(&mut out, FieldKey::Location, self.location);
        push_text(&mut out, FieldKey::Title, self.title);
        assert(out@ =~= user_assignments(self));
        out
    }
}

impl ListFields {
    /// The field assignments that this update makes, one per set field.
    pub fn into_assignments(self) -> (r: Vec<(FieldKey, FieldValue)>)
        ensures
            r@ == list_assignments(self),
    {
        let mut out: Vec<(FieldKey, FieldValue)> = Vec::new();
        push_text(&mut out, FieldKey::Name, self.name);
        push_text(&mut out, FieldKey::Description, self.description);
        match self.items {
            Some(v) => out.push((FieldKey::Items, FieldValue::Items(v))),
            None => {},
        }
        assert(out@ =~= list_assignments(self));
        out
    }
}

} // verus!
