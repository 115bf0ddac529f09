//! Data shapes for the collection feature layered on top of the entities.
//!
//! A collection arranges media rows in user-defined columns.  These shapes
//! only carry data; rows and column descriptions point at one another and at
//! the entities through typed references, so nothing here owns, loads or
//! copies another record.

use vstd::prelude::*;

use crate::database::DbRef;
use crate::organize::{Label, Media};

verus! {

/// A user-defined arrangement of media rows under named columns.
pub struct Collection {
    pub id: String,
    pub columns: Vec<Column>,
    pub rows: Vec<DbRef<Row>>,
}

/// One cell: which column it belongs to, and the value it holds.
pub struct Column {
    pub desc: DbRef<ColumnDesc>,
    pub value: ColumnValue,
}

/// The description of one column of a collection.
pub struct ColumnDesc {
    pub id: String,
    pub collection: DbRef<Collection>,
    pub name: String,
}

/// The value a cell can hold: free text, a reference to a text unique within
/// the collection, or a reference to a label.
pub enum ColumnValue {
    Text(String),
    UniqueText(Option<DbRef<UniqueText>>),
    Label(Option<DbRef<Label>>),
}

/// A text that appears at most once within a collection.
pub struct UniqueText {
    pub id: String,
    pub collection: DbRef<Collection>,
    pub text: String,
}

/// One row of a collection: the media it shows and its cells.
pub struct Row {
    pub id: String,
    pub collection: DbRef<Collection>,
    pub media: DbRef<Media>,
    pub columns: Vec<Column>,
}

} // verus!
