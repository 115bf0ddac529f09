use mediadb::database::{Database, DbItem, DbRef};
use mediadb::organize::{AssocKind, Label, Media, MediaAssoc, MediaLabelPair};

fn setup() -> Database {
    let conn = rusqlite::Connection::open_in_memory().unwrap();
    conn.execute(
        "CREATE TABLE media (id INTEGER PRIMARY KEY, name TEXT NOT NULL)",
        (),
    )
    .unwrap();
    conn.execute(
        "CREATE TABLE label (id INTEGER PRIMARY KEY, parent INTEGER NOT NULL, name TEXT NOT NULL, position INTEGER NOT NULL)",
        (),
    )
    .unwrap();
    conn.execute(
        "CREATE TABLE media_label_pair (id INTEGER PRIMARY KEY, media INTEGER NOT NULL, label INTEGER NOT NULL, position INTEGER NOT NULL)",
        (),
    )
    .unwrap();
    conn.execute(
        "CREATE TABLE media_assoc (id INTEGER PRIMARY KEY, media_a INTEGER NOT NULL, media_b INTEGER NOT NULL, kind TEXT NOT NULL, position INTEGER NOT NULL)",
        (),
    )
    .unwrap();
    Database::new(conn)
}

fn media(name: &str) -> Media {
    Media {
        id: -1,
        name: name.to_owned(),
    }
}

#[test]
fn identity_map_two_resolves_share_instance() {
    let mut db = setup();
    let h = db.create(media("one")).unwrap();

    let first = DbRef::<Media>::new(h.id).resolve(&mut db).unwrap().name.clone();
    assert_eq!(first, "one");

    // Mutate the shared instance through the store; a second, independently
    // constructed reference to the same id must observe the change.
    db.update(
        h.id,
        Media {
            id: h.id,
            name: "renamed".to_owned(),
        },
    );
    let second = DbRef::<Media>::new(h.id).resolve(&mut db).unwrap().name.clone();
    assert_eq!(second, "renamed");
}

#[test]
fn create_then_resolve_issues_no_storage_load() {
    let mut db = setup();
    let h = db.create(media("fresh")).unwrap();

    // With the table gone, a storage load could only fail: a successful
    // resolve must have come from the instance seeded at creation.
    db.conn.execute("DROP TABLE media", ()).unwrap();
    let got = DbRef::<Media>::new(h.id).resolve(&mut db).unwrap();
    assert_eq!(got.name, "fresh");
    assert_eq!(got.id, h.id);
}

#[test]
fn load_on_miss_populates_cache_once() {
    let mut db = setup();
    db.conn
        .execute("INSERT INTO media (id, name) VALUES (7, 'raw')", ())
        .unwrap();

    // Never created or loaded in this session: the first resolve reads
    // storage.
    let first = DbRef::<Media>::new(7).resolve(&mut db).unwrap().name.clone();
    assert_eq!(first, "raw");

    // With the table gone, the second resolve can only answer from the
    // cache the first one populated.
    db.conn.execute("DROP TABLE media", ()).unwrap();
    let second = DbRef::<Media>::new(7).resolve(&mut db).unwrap().name.clone();
    assert_eq!(second, "raw");
}

#[test]
fn failed_resolve_does_not_poison_the_cache() {
    let mut db = setup();
    assert!(DbRef::<Media>::new(42).resolve(&mut db).is_none());

    // A row with that id appears later; the earlier failure must not have
    // been remembered.
    db.conn
        .execute("INSERT INTO media (id, name) VALUES (42, 'late')", ())
        .unwrap();
    let got = DbRef::<Media>::new(42).resolve(&mut db).unwrap();
    assert_eq!(got.name, "late");
}

#[test]
fn save_only_affects_the_matching_row() {
    let mut db = setup();
    let ha = db.create(media("alpha")).unwrap();
    let hb = db.create(media("beta")).unwrap();

    db.update(
        ha.id,
        Media {
            id: ha.id,
            name: "alpha-renamed".to_owned(),
        },
    );
    let rows = db.get::<Media>(ha.id).unwrap().save(&db.conn).unwrap();
    assert_eq!(rows, 1);

    let name_a: String = db
        .conn
        .query_row("SELECT name FROM media WHERE id = ?", (ha.id,), |r| r.get(0))
        .unwrap();
    let name_b: String = db
        .conn
        .query_row("SELECT name FROM media WHERE id = ?", (hb.id,), |r| r.get(0))
        .unwrap();
    assert_eq!(name_a, "alpha-renamed");
    assert_eq!(name_b, "beta");
}

#[test]
fn save_with_no_matching_row_touches_nothing() {
    let db = setup();
    let stray = Media {
        id: 99,
        name: "nowhere".to_owned(),
    };
    let rows = stray.save(&db.conn).unwrap();
    assert_eq!(rows, 0);
}

#[test]
fn label_without_parent_persists_sentinel() {
    let mut db = setup();
    let h = db
        .create(Label {
            id: -1,
            parent: None,
            name: "root".to_owned(),
            position: 0,
        })
        .unwrap();

    let stored: i64 = db
        .conn
        .query_row("SELECT parent FROM label WHERE id = ?", (h.id,), |r| r.get(0))
        .unwrap();
    assert_eq!(stored, -1);
}

#[test]
fn label_with_parent_persists_and_reloads_the_link() {
    let mut db = setup();
    let parent = db.create(media("parent")).unwrap();
    let h = db
        .create(Label {
            id: -1,
            parent: Some(DbRef::new(parent.id)),
            name: "child".to_owned(),
            position: 1,
        })
        .unwrap();

    let stored: i64 = db
        .conn
        .query_row("SELECT parent FROM label WHERE id = ?", (h.id,), |r| r.get(0))
        .unwrap();
    assert_eq!(stored, parent.id);

    // Reload the label through a cold cache path: a raw row, never created
    // in this session.
    db.conn
        .execute(
            "INSERT INTO label (id, parent, name, position) VALUES (50, ?, 'cold', 2)",
            (parent.id,),
        )
        .unwrap();
    let link = DbRef::<Label>::new(50).resolve(&mut db).unwrap().parent.unwrap();
    assert_eq!(link.id, parent.id);
    let resolved_parent = link.resolve(&mut db).unwrap();
    assert_eq!(resolved_parent.name, "parent");
}

#[test]
fn label_without_parent_reloads_empty() {
    let mut db = setup();
    db.conn
        .execute(
            "INSERT INTO label (id, parent, name, position) VALUES (8, -1, 'lone', 0)",
            (),
        )
        .unwrap();
    let got = DbRef::<Label>::new(8).resolve(&mut db).unwrap();
    assert!(got.parent.is_none());
    assert_eq!(got.name, "lone");
    assert_eq!(got.position, 0);
}

#[test]
fn media_label_pair_round_trips_through_storage() {
    let mut db = setup();
    let m = db.create(media("m")).unwrap();
    let l = db
        .create(Label {
            id: -1,
            parent: None,
            name: "l".to_owned(),
            position: 0,
        })
        .unwrap();
    let h = db
        .create(MediaLabelPair {
            id: -1,
            media: DbRef::new(m.id),
            label: DbRef::new(l.id),
            position: 3,
        })
        .unwrap();

    // Reload through a second store over the same rows is not possible for
    // an in-memory database, so read the row back raw instead.
    let (sm, sl, sp): (i64, i64, i64) = db
        .conn
        .query_row(
            "SELECT media, label, position FROM media_label_pair WHERE id = ?",
            (h.id,),
            |r| Ok((r.get(0)?, r.get(1)?, r.get(2)?)),
        )
        .unwrap();
    assert_eq!((sm, sl, sp), (m.id, l.id, 3));
}

#[test]
fn media_assoc_create_binds_all_four_columns() {
    let mut db = setup();
    let a = db.create(media("a")).unwrap();
    let b = db.create(media("b")).unwrap();
    let h = db
        .create(MediaAssoc {
            id: -1,
            media_a: DbRef::new(a.id),
            media_b: DbRef::new(b.id),
            kind: AssocKind::PreviewImage,
            position: 7,
        })
        .unwrap();

    let (kind, pos): (String, i64) = db
        .conn
        .query_row(
            "SELECT kind, position FROM media_assoc WHERE id = ?",
            (h.id,),
            |r| Ok((r.get(0)?, r.get(1)?)),
        )
        .unwrap();
    assert_eq!(kind, "$preview-image");
    assert_eq!(pos, 7);
}

#[test]
fn media_assoc_reloads_custom_kind_verbatim() {
    let mut db = setup();
    db.conn
        .execute(
            "INSERT INTO media_assoc (id, media_a, media_b, kind, position) VALUES (4, 1, 2, '$foo-bar', 9)",
            (),
        )
        .unwrap();
    let got = DbRef::<MediaAssoc>::new(4).resolve(&mut db).unwrap();
    assert_eq!(got.kind, AssocKind::CustomAssoc("$foo-bar".to_owned()));
    assert_eq!(got.media_a.id, 1);
    assert_eq!(got.media_b.id, 2);
    assert_eq!(got.position, 9);
}

#[test]
fn create_failure_leaves_no_instance_and_no_cache_entry() {
    let mut db = setup();
    db.conn.execute("DROP TABLE media", ()).unwrap();
    // The failure is the storage engine's, propagated as such.
    assert!(matches!(
        db.create(media("doomed")),
        Err(mediadb::sql::DbError::Storage(_))
    ));
    // Nothing was cached for any id; a later resolve of a fresh row works.
    db.conn
        .execute("CREATE TABLE media (id INTEGER PRIMARY KEY, name TEXT NOT NULL)", ())
        .unwrap();
    let h = db.create(media("ok")).unwrap();
    assert_eq!(DbRef::<Media>::new(h.id).resolve(&mut db).unwrap().name, "ok");
}

#[test]
fn get_answers_from_cache_only() {
    let mut db = setup();
    db.conn
        .execute("INSERT INTO media (id, name) VALUES (3, 'cold')", ())
        .unwrap();
    // Not resolved yet, so not cached.
    assert!(db.get::<Media>(3).is_none());
    DbRef::<Media>::new(3).resolve(&mut db).unwrap();
    assert_eq!(db.get::<Media>(3).unwrap().name, "cold");
}

#[test]
fn load_surfaces_a_storage_error() {
    let db = setup();
    db.conn.execute("DROP TABLE media", ()).unwrap();
    assert!(<Media as DbItem>::load(&db.conn, 1).is_err());
}

#[test]
fn save_failure_surfaces_the_storage_error() {
    let db = setup();
    db.conn.execute("DROP TABLE media", ()).unwrap();
    let stray = Media {
        id: 1,
        name: "nowhere".to_owned(),
    };
    assert!(matches!(
        stray.save(&db.conn),
        Err(mediadb::sql::DbError::Storage(_))
    ));
}
