//! The concrete entity types and their storage mappings.
//!
//! Each entity is a plain record with a store-assigned identifier and, where
//! the schema links rows, typed references to other entities.  The mapping
//! between a record and its storage row is written out as a `to_row` /
//! `from_row` pair with an exact contract; the entity contract's `create`,
//! `load` and `save` drive those pairs through the trusted statement
//! wrappers.

pub mod collection;

use vstd::prelude::*;

use core::marker::PhantomData;

use crate::database::{DbRef, Database, CacheMap, CacheItem, DbItem};
use crate::sql::{SqlValue, DbError, exec_sql, query_row_by_id, last_insert_rowid};

verus! {

/// The identifier a parent link persists as: the parent's row identifier, or
/// the sentinel `-1` for "no reference".
pub open spec fn spec_parent_code(p: Option<DbRef<Media>>) -> i64 {
    match p {
        Option::Some(r) => r.id,
        Option::None => -1i64,
    }
}

/// The parent link a stored identifier reloads as: empty for the sentinel
/// `-1`, otherwise a reference to that row.
pub open spec fn spec_parent_of_code(v: i64) -> Option<DbRef<Media>> {
    if v == -1 {
        Option::None
    } else {
        Option::Some(DbRef { id: v, t: PhantomData })
    }
}

/// Encodes a parent link for storage.
pub fn parent_code(p: &Option<DbRef<Media>>) -> (r: i64)
    ensures
        r == spec_parent_code(*p),
{
    match p {
        Option::Some(dbref) => dbref.id,
        Option::None => -1i64,
    }
}

/// Decodes a stored parent identifier.
pub fn parent_of_code(v: i64) -> (r: Option<DbRef<Media>>)
    ensures
        r == spec_parent_of_code(v),
{
    if v == -1 {
        Option::None
    } else {
        Option::Some(DbRef::new(v))
    }
}

/// Sentinel round trip: a parent link whose reference does not carry the
/// sentinel itself persists and reloads unchanged; in particular an empty
/// link persists as `-1` and reloads empty.
pub proof fn lemma_parent_sentinel_round_trip(p: Option<DbRef<Media>>)
    requires
        p matches Option::Some(r) ==> r.id != -1,
    ensures
        spec_parent_of_code(spec_parent_code(p)) == p,
{
}

/// A stored media record: `media(id, name)`.
#[derive(Debug, PartialEq)]
pub struct Media {
    pub id: i64,
    pub name: String,
}

/// A stored label record: `label(id, parent, name, position)`.  The parent is
/// an optional reference, persisted as the sentinel `-1` when absent.
#[derive(Debug, PartialEq)]
pub struct Label {
    pub id: i64,
    pub parent: Option<DbRef<Media>>,
    pub name: String,
    pub position: i64,
}

/// A stored link between a media row and a label row:
/// `media_label_pair(id, media, label, position)`.
#[derive(Debug, PartialEq)]
pub struct MediaLabelPair {
    pub id: i64,
    pub media: DbRef<Media>,
    pub label: DbRef<Label>,
    pub position: i64,
}

/// A stored association between two media rows:
/// `media_assoc(id, media_a, media_b, kind, position)`.
#[derive(Debug, PartialEq)]
pub struct MediaAssoc {
    pub id: i64,
    pub media_a: DbRef<Media>,
    pub media_b: DbRef<Media>,
    pub kind: AssocKind,
    pub position: i64,
}

/// The association kind: an open enumeration, stored as a string.  Two
/// reserved literals code for the built-in variants; every other string is
/// carried verbatim as a custom kind.
#[derive(Debug, PartialEq)]
pub enum AssocKind {
    PreviewImage,
    DescText,
    CustomAssoc(String),
}

/// The characters that encode an association kind.
pub open spec fn spec_kind_str(k: AssocKind) -> Seq<char> {
    match k {
        AssocKind::PreviewImage => "$preview-image"@,
        AssocKind::DescText => "$desc-text"@,
        AssocKind::CustomAssoc(s) => s@,
    }
}

/// The kind a stored string decodes to.
pub open spec fn spec_kind_of_str(s: String) -> AssocKind {
    if s@ == "$preview-image"@ {
        AssocKind::PreviewImage
    } else if s@ == "$desc-text"@ {
        AssocKind::DescText
    } else {
        AssocKind::CustomAssoc(s)
    }
}

/// Whether two kinds are the same variant with the same characters in the
/// payload, the sense in which a trip through storage preserves a kind.
pub open spec fn kind_like(a: AssocKind, b: AssocKind) -> bool {
    match (a, b) {
        (AssocKind::PreviewImage, AssocKind::PreviewImage) => true,
        (AssocKind::DescText, AssocKind::DescText) => true,
        (AssocKind::CustomAssoc(x), AssocKind::CustomAssoc(y)) => x@ == y@,
        _ => false,
    }
}

/// A custom payload may be any string that does not collide with the two
/// reserved literals.
pub open spec fn kind_wf(k: AssocKind) -> bool {
    k matches AssocKind::CustomAssoc(s) ==> s@ != "$preview-image"@ && s@ != "$desc-text"@
}

impl AssocKind {
    /// Encodes the kind as the string stored in the `kind` column.
    pub fn to_sql_str(&self) -> (r: &str)
        ensures
            r@ == spec_kind_str(*self),
    {
        match self {
            AssocKind::PreviewImage => "$preview-image",
            AssocKind::DescText => "$desc-text",
            AssocKind::CustomAssoc(s) => s.as_str(),
        }
    }

    /// Decodes a stored string: the two reserved literals give the built-in
    /// variants, every other string is kept verbatim as a custom kind.
    pub fn from_sql_str(s: String) -> (r: Self)
        ensures
            r == spec_kind_of_str(s),
    {
        if s == "$preview-image".to_owned() {
            AssocKind::PreviewImage
        } else if s == "$desc-text".to_owned() {
            AssocKind::DescText
        } else {
            AssocKind::CustomAssoc(s)
        }
    }
}

impl Media {
    /// The stored columns of a media row, after the identifier.
    pub fn to_row(&self) -> (r: Vec<SqlValue>)
        ensures
            r@ == seq![SqlValue::Text(self.name)],
    {
        let mut r: Vec<SqlValue> = Vec::new();
        r.push(SqlValue::Text(self.name.clone()));
        proof {
            assert(r@ =~= seq![SqlValue::Text(self.name)]);
        }
        r
    }

    /// Reconstructs a media record from its identifier and its stored
    /// columns; refused when the columns are not the single text the schema
    /// gives a media row.
    pub fn from_row(id: i64, vals: &Vec<SqlValue>) -> (r: Result<Media, DbError>)
        ensures
            r matches Ok(m) ==> (vals@.len() == 1 && (vals@[0] matches SqlValue::Text(n) && m == (
            Media { id: id, name: n }
            ))),
            r is Err ==> !(vals@.len() == 1 && vals@[0] is Text),
    {
        if vals.len() == 1 {
            match &vals[0] {
                SqlValue::Text(n) => Ok(Media { id: id, name: n.clone() }),
                _ => Err(DbError::RowShape),
            }
        } else {
            Err(DbError::RowShape)
        }
    }
}

impl DbItem for Media {
    open spec fn entity_id(&self) -> i64 {
        self.id
    }

    open spec fn spec_with_id(&self, id: i64) -> Media {
        Media { id: id, name: self.name }
    }

    open spec fn spec_slot(m: CacheMap) -> CacheItem<Media> {
        m.media
    }

    open spec fn spec_with_slot(m: CacheMap, slot: CacheItem<Media>) -> CacheMap {
        CacheMap { media: slot, ..m }
    }

    proof fn lemma_slot_roundtrip() {
    }

    fn create(db: &Database, item: Media) -> (r: Result<(i64, Media), DbError>) {
        match exec_sql(&db.conn, "INSERT INTO media (name) VALUES (?)", &item.to_row()) {
            Ok(_) => {
                let id: i64 = last_insert_rowid(&db.conn);
                Ok((id, Media { id: id, name: item.name }))
            },
            Err(e) => Err(DbError::Storage(e)),
        }
    }

    fn load(conn: &rusqlite::Connection, id: i64) -> (r: Result<Media, DbError>) {
        match query_row_by_id(conn, "SELECT name FROM media WHERE id = ?", id, 1) {
            Ok(vals) => Media::from_row(id, &vals),
            Err(e) => Err(DbError::Storage(e)),
        }
    }

    fn save(&self, conn: &rusqlite::Connection) -> (r: Result<usize, DbError>) {
        let mut params = self.to_row();
        params.push(SqlValue::Int(self.id));
        match exec_sql(conn, "UPDATE media SET name = ? WHERE id = ?", &params) {
            Ok(n) => Ok(n),
            Err(e) => Err(DbError::Storage(e)),
        }
    }

    fn cachemap_borrow(map: &CacheMap) -> (r: &CacheItem<Media>) {
        &map.media
    }

    fn cachemap_borrow_mut(map: &mut CacheMap) -> (r: &mut CacheItem<Media>) {
        &mut map.media
    }
}

impl Label {
    /// The stored columns of a label row, after the identifier: the coded
    /// parent link, the name, and the position.
    pub fn to_row(&self) -> (r: Vec<SqlValue>)
        ensures
            r@ == seq![
                SqlValue::Int(spec_parent_code(self.parent)),
                SqlValue::Text(self.name),
                SqlValue::Int(self.position),
            ],
    {
        let mut r: Vec<SqlValue> = Vec::new();
        r.push(SqlValue::Int(parent_code(&self.parent)));
        r.push(SqlValue::Text(self.name.clone()));
        r.push(SqlValue::Int(self.position));
        proof {
            assert(r@ =~= seq![
                SqlValue::Int(spec_parent_code(self.parent)),
                SqlValue::Text(self.name),
                SqlValue::Int(self.position),
            ]);
        }
        r
    }

    /// Reconstructs a label record from its identifier and its stored
    /// columns, decoding the parent column into an optional reference.
    pub fn from_row(id: i64, vals: &Vec<SqlValue>) -> (r: Result<Label, DbError>)
        ensures
            r matches Ok(l) ==> (vals@.len() == 3 && (vals@[0] matches SqlValue::Int(p) && (
            vals@[1] matches SqlValue::Text(n) && (vals@[2] matches SqlValue::Int(pos) && l == (
            Label { id: id, parent: spec_parent_of_code(p), name: n, position: pos }
            ))))),
            r is Err ==> !(vals@.len() == 3 && vals@[0] is Int && vals@[1] is Text
                && vals@[2] is Int),
    {
        if vals.len() == 3 {
            match (&vals[0], &vals[1], &vals[2]) {
                (SqlValue::Int(p), SqlValue::Text(n), SqlValue::Int(pos)) => Ok(
                    Label {
                        id: id,
                        parent: parent_of_code(*p),
                        name: n.clone(),
                        position: *pos,
                    },
                ),
                _ => Err(DbError::RowShape),
            }
        } else {
            Err(DbError::RowShape)
        }
    }
}

impl DbItem for Label {
    open spec fn entity_id(&self) -> i64 {
        self.id
    }

    open spec fn spec_with_id(&self, id: i64) -> Label {
        Label { id: id, parent: self.parent, name: self.name, position: self.position }
    }

    open spec fn spec_slot(m: CacheMap) -> CacheItem<Label> {
        m.label
    }

    open spec fn spec_with_slot(m: CacheMap, slot: CacheItem<Label>) -> CacheMap {
        CacheMap { label: slot, ..m }
    }

    proof fn lemma_slot_roundtrip() {
    }

    fn create(db: &Database, item: Label) -> (r: Result<(i64, Label), DbError>) {
        match exec_sql(
            &db.conn,
            "INSERT INTO label (parent, name, position) VALUES (?, ?, ?)",
            &item.to_row(),
        ) {
            Ok(_) => {
                let id: i64 = last_insert_rowid(&db.conn);
                Ok(
                    (
                        id,
                        Label {
                            id: id,
                            parent: item.parent,
                            name: item.name,
                            position: item.position,
                        },
                    ),
                )
            },
            Err(e) => Err(DbError::Storage(e)),
        }
    }

    fn load(conn: &rusqlite::Connection, id: i64) -> (r: Result<Label, DbError>) {
        match query_row_by_id(
            conn,
            "SELECT parent, name, position FROM label WHERE id = ?",
            id,
            3,
        ) {
            Ok(vals) => Label::from_row(id, &vals),
            Err(e) => Err(DbError::Storage(e)),
        }
    }

    fn save(&self, conn: &rusqlite::Connection) -> (r: Result<usize, DbError>) {
        let mut params = self.to_row();
        params.push(SqlValue::Int(self.id));
        match exec_sql(
            conn,
            "UPDATE label SET parent = ?, name = ?, position = ? WHERE id = ?",
            &params,
        ) {
            Ok(n) => Ok(n),
            Err(e) => Err(DbError::Storage(e)),
        }
    }

    fn cachemap_borrow(map: &CacheMap) -> (r: &CacheItem<Label>) {
        &map.label
    }

    fn cachemap_borrow_mut(map: &mut CacheMap) -> (r: &mut CacheItem<Label>) {
        &mut map.label
    }
}

impl MediaLabelPair {
    /// The stored columns of a pairing row, after the identifier: the two
    /// linked row identifiers and the position.
    pub fn to_row(&self) -> (r: Vec<SqlValue>)
        ensures
            r@ == seq![
                SqlValue::Int(self.media.id),
                SqlValue::Int(self.label.id),
                SqlValue::Int(self.position),
            ],
    {
        let mut r: Vec<SqlValue> = Vec::new();
        r.push(SqlValue::Int(self.media.id));
        r.push(SqlValue::Int(self.label.id));
        r.push(SqlValue::Int(self.position));
        proof {
            assert(r@ =~= seq![
                SqlValue::Int(self.media.id),
                SqlValue::Int(self.label.id),
                SqlValue::Int(self.position),
            ]);
        }
        r
    }

    /// Reconstructs a pairing record from its identifier and its stored
    /// columns, turning the linked identifiers into typed references.
    pub fn from_row(id: i64, vals: &Vec<SqlValue>) -> (r: Result<MediaLabelPair, DbError>)
        ensures
            r matches Ok(l) ==> (vals@.len() == 3 && (vals@[0] matches SqlValue::Int(m) && (
            vals@[1] matches SqlValue::Int(lb) && (vals@[2] matches SqlValue::Int(pos) && l == (
            MediaLabelPair {
                id: id,
                media: DbRef { id: m, t: PhantomData },
                label: DbRef { id: lb, t: PhantomData },
                position: pos,
            }
            ))))),
            r is Err ==> !(vals@.len() == 3 && vals@[0] is Int && vals@[1] is Int
                && vals@[2] is Int),
    {
        if vals.len() == 3 {
            match (&vals[0], &vals[1], &vals[2]) {
                (SqlValue::Int(m), SqlValue::Int(lb), SqlValue::Int(pos)) => Ok(
                    MediaLabelPair {
                        id: id,
                        media: DbRef::new(*m),
                        label: DbRef::new(*lb),
                        position: *pos,
                    },
                ),
                _ => Err(DbError::RowShape),
            }
        } else {
            Err(DbError::RowShape)
        }
    }
}

impl DbItem for MediaLabelPair {
    open spec fn entity_id(&self) -> i64 {
        self.id
    }

    open spec fn spec_with_id(&self, id: i64) -> MediaLabelPair {
        MediaLabelPair {
            id: id,
            media: self.media,
            label: self.label,
            position: self.position,
        }
    }

    open spec fn spec_slot(m: CacheMap) -> CacheItem<MediaLabelPair> {
        m.media_label_pair
    }

    open spec fn spec_with_slot(m: CacheMap, slot: CacheItem<MediaLabelPair>) -> CacheMap {
        CacheMap { media_label_pair: slot, ..m }
    }

    proof fn lemma_slot_roundtrip() {
    }

    fn create(db: &Database, item: MediaLabelPair) -> (r: Result<(i64, MediaLabelPair), DbError>) {
        match exec_sql(
            &db.conn,
            "INSERT INTO media_label_pair (media, label, position) VALUES (?, ?, ?)",
            &item.to_row(),
        ) {
            Ok(_) => {
                let id: i64 = last_insert_rowid(&db.conn);
                Ok(
                    (
                        id,
                        MediaLabelPair {
                            id: id,
                            media: item.media,
                            label: item.label,
                            position: item.position,
                        },
                    ),
                )
            },
            Err(e) => Err(DbError::Storage(e)),
        }
    }

    fn load(conn: &rusqlite::Connection, id: i64) -> (r: Result<MediaLabelPair, DbError>) {
        match query_row_by_id(
            conn,
            "SELECT media, label, position FROM media_label_pair WHERE id = ?",
            id,
            3,
        ) {
            Ok(vals) => MediaLabelPair::from_row(id, &vals),
            Err(e) => Err(DbError::Storage(e)),
        }
    }

    fn save(&self, conn: &rusqlite::Connection) -> (r: Result<usize, DbError>) {
        let mut params = self.to_row();
        params.push(SqlValue::Int(self.id));
        match exec_sql(
            conn,
            "UPDATE media_label_pair SET media = ?, label = ?, position = ? WHERE id = ?",
            &params,
        ) {
            Ok(n) => Ok(n),
            Err(e) => Err(DbError::Storage(e)),
        }
    }

    fn cachemap_borrow(map: &CacheMap) -> (r: &CacheItem<MediaLabelPair>) {
        &map.media_label_pair
    }

    fn cachemap_borrow_mut(map: &mut CacheMap) -> (r: &mut CacheItem<MediaLabelPair>) {
        &mut map.media_label_pair
    }
}

impl MediaAssoc {
    /// The stored columns of an association row, after the identifier: the
    /// two linked row identifiers, the coded kind, and the position.  All
    /// four columns of the insert statement get a bound value, the position
    /// included.
    pub fn to_row(&self) -> (r: Vec<SqlValue>)
        ensures
            r@.len() == 4,
            r@[0] == SqlValue::Int(self.media_a.id),
            r@[1] == SqlValue::Int(self.media_b.id),
            r@[2] matches SqlValue::Text(s) && s@ == spec_kind_str(self.kind),
            r@[3] == SqlValue::Int(self.position),
    {
        let mut r: Vec<SqlValue> = Vec::new();
        r.push(SqlValue::Int(self.media_a.id));
        r.push(SqlValue::Int(self.media_b.id));
        r.push(SqlValue::Text(self.kind.to_sql_str().to_owned()));
        r.push(SqlValue::Int(self.position));
        r
    }

    /// Reconstructs an association record from its identifier and its stored
    /// columns, turning the linked identifiers into typed references and
    /// decoding the kind column.
    pub fn from_row(id: i64, vals: &Vec<SqlValue>) -> (r: Result<MediaAssoc, DbError>)
        ensures
            r matches Ok(l) ==> (vals@.len() == 4 && (vals@[0] matches SqlValue::Int(a) && (
            vals@[1] matches SqlValue::Int(b) && (vals@[2] matches SqlValue::Text(k) && (
            vals@[3] matches SqlValue::Int(pos) && l == (MediaAssoc {
                id: id,
                media_a: DbRef { id: a, t: PhantomData },
                media_b: DbRef { id: b, t: PhantomData },
                kind: spec_kind_of_str(k),
                position: pos,
            }
            )))))),
            r is Err ==> !(vals@.len() == 4 && vals@[0] is Int && vals@[1] is Int
                && vals@[2] is Text && vals@[3] is Int),
    {
        if vals.len() == 4 {
            match (&vals[0], &vals[1], &vals[2], &vals[3]) {
                (
                    SqlValue::Int(a),
                    SqlValue::Int(b),
                    SqlValue::Text(k),
                    SqlValue::Int(pos),
                ) => Ok(
                    MediaAssoc {
                        id: id,
                        media_a: DbRef::new(*a),
                        media_b: DbRef::new(*b),
                        kind: AssocKind::from_sql_str(k.clone()),
                        position: *pos,
                    },
                ),
                _ => Err(DbError::RowShape),
            }
        } else {
            Err(DbError::RowShape)
        }
    }
}

impl DbItem for MediaAssoc {
    open spec fn entity_id(&self) -> i64 {
        self.id
    }

    open spec fn spec_with_id(&self, id: i64) -> MediaAssoc {
        MediaAssoc {
            id: id,
            media_a: self.media_a,
            media_b: self.media_b,
            kind: self.kind,
            position: self.position,
        }
    }

    open spec fn spec_slot(m: CacheMap) -> CacheItem<MediaAssoc> {
        m.media_assoc
    }

    open spec fn spec_with_slot(m: CacheMap, slot: CacheItem<MediaAssoc>) -> CacheMap {
        CacheMap { media_assoc: slot, ..m }
    }

    proof fn lemma_slot_roundtrip() {
    }

    fn create(db: &Database, item: MediaAssoc) -> (r: Result<(i64, MediaAssoc), DbError>) {
        match exec_sql(
            &db.conn,
            "INSERT INTO media_assoc (media_a, media_b, kind, position) VALUES (?, ?, ?, ?)",
            &item.to_row(),
        ) {
            Ok(_) => {
                let id: i64 = last_insert_rowid(&db.conn);
                Ok(
                    (
                        id,
                        MediaAssoc {
                            id: id,
                            media_a: item.media_a,
                            media_b: item.media_b,
                            kind: item.kind,
                            position: item.position,
                        },
                    ),
                )
            },
            Err(e) => Err(DbError::Storage(e)),
        }
    }

    fn load(conn: &rusqlite::Connection, id: i64) -> (r: Result<MediaAssoc, DbError>) {
        match query_row_by_id(
            conn,
            "SELECT media_a, media_b, kind, position FROM media_assoc WHERE id = ?",
            id,
            4,
        ) {
            Ok(vals) => MediaAssoc::from_row(id, &vals),
            Err(e) => Err(DbError::Storage(e)),
        }
    }

    fn save(&self, conn: &rusqlite::Connection) -> (r: Result<usize, DbError>) {
        let mut params = self.to_row();
        params.push(SqlValue::Int(self.id));
        match exec_sql(
            conn,
            "UPDATE media_assoc SET media_a = ?, media_b = ?, kind = ?, position = ? WHERE id = ?",
            &params,
        ) {
            Ok(n) => Ok(n),
            Err(e) => Err(DbError::Storage(e)),
        }
    }

    fn cachemap_borrow(map: &CacheMap) -> (r: &CacheItem<MediaAssoc>) {
        &map.media_assoc
    }

    fn cachemap_borrow_mut(map: &mut CacheMap) -> (r: &mut CacheItem<MediaAssoc>) {
        &mut map.media_assoc
    }
}

/// Coded-kind round trip: encoding any kind whose custom payload does not
/// collide with the reserved literals, then decoding any string holding
/// exactly the encoded characters, yields the original variant with its
/// payload characters preserved.
pub proof fn lemma_kind_round_trip(k: AssocKind, s: String)
    requires
        kind_wf(k),
        s@ == spec_kind_str(k),
    ensures
        kind_like(spec_kind_of_str(s), k),
{
    reveal_strlit("$preview-image");
    reveal_strlit("$desc-text");
    match k {
        AssocKind::PreviewImage => {
            assert(s@ == "$preview-image"@);
        },
        AssocKind::DescText => {
            assert(s@ == "$desc-text"@);
            assert(s@ != "$preview-image"@);
        },
        AssocKind::CustomAssoc(c) => {
            assert(s@ != "$preview-image"@ && s@ != "$desc-text"@);
        },
    }
}

} // verus!
