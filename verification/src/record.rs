//! The record that a registration stores, and the write that stores it.

use vstd::prelude::*;

verus! {

/// The attribute that holds the user's id. It is the key of the table.
pub open spec fn user_id_attribute() -> Seq<char> {
    "user_id"@
}

/// The attribute that holds the time at which the record was made.
pub open spec fn created_at_attribute() -> Seq<char> {
    "created_at"@
}

/// A string attribute of an item: its name and its value.
#[derive(Debug, Clone, PartialEq, Eq)]
pub struct Attribute {
    pub name: String,
    pub value: String,
}

impl View for Attribute {
    type V = (Seq<char>, Seq<char>);

    open spec fn view(&self) -> (Seq<char>, Seq<char>) {
        (self.name@, self.value@)
    }
}

/// A user and the time of the registration, as an RFC 3339 string.
#[derive(Debug, Clone, PartialEq, Eq)]
pub struct UserRecord {
    pub user_id: String,
    pub created_at: String,
}

/// What a [`UserRecord`] stands for.
pub struct UserRecordModel {
    pub user_id: Seq<char>,
    pub created_at: Seq<char>,
}

impl View for UserRecord {
    type V = UserRecordModel;

    open spec fn view(&self) -> UserRecordModel {
        UserRecordModel { user_id: self.user_id@, created_at: self.created_at@ }
    }
}

/// The item that stores a record: the user's id first, then the time, both as
/// string attributes and both exactly as the record holds them.
pub open spec fn record_item(record: UserRecordModel) -> Seq<(Seq<char>, Seq<char>)> {
    seq![
        (user_id_attribute(), record.user_id),
        (created_at_attribute(), record.created_at),
    ]
}

/// The names and values of a list of attributes.
pub open spec fn attributes_view(attributes: Seq<Attribute>) -> Seq<(Seq<char>, Seq<char>)> {
    attributes.map_values(|a: Attribute| a@)
}

/// One unconditional write of an item to a table. An item that is already
/// stored under the same key is replaced.
#[derive(Debug, Clone, PartialEq, Eq)]
pub struct PutItem {
    pub table_name: String,
    pub item: Vec<Attribute>,
}

/// What a [`PutItem`] stands for: the table and the attributes of the item.
pub struct PutItemModel {
    pub table_name: Seq<char>,
    pub item: Seq<(Seq<char>, Seq<char>)>,
}

impl View for PutItem {
    type V = PutItemModel;

    open spec fn view(&self) -> PutItemModel {
        PutItemModel { table_name: self.table_name@, item: attributes_view(self.item@) }
    }
}

/// The write that stores `record` in `table_name`.
pub open spec fn record_write(table_name: Seq<char>, record: UserRecordModel) -> PutItemModel {
    PutItemModel { table_name, item: record_item(record) }
}

impl UserRecord {
    /// The record of `user_id`, made at `created_at`. Neither is checked or
    /// changed: any id is stored as it is.
    pub fn new(user_id: String, created_at: String) -> (record: UserRecord)
        ensures
            record@ == (UserRecordModel { user_id: user_id@, created_at: created_at@ }),
    {
        UserRecord { user_id, created_at }
    }

    /// The write that stores this record in `table_name`.
    pub fn into_write(self, table_name: String) -> (write: PutItem)
        ensures
            write@ == record_write(table_name@, self@),
    {
        let mut item: Vec<Attribute> = Vec::new();
        item.push(Attribute { name: "user_id".to_string(), value: self.user_id });
        item.push(Attribute { name: "created_at".to_string(), value: self.created_at });
        assert(attributes_view(item@) =~= record_item(self@));
        PutItem { table_name, item }
    }
}

} // verus!
