//! The typed reference, the entity contract, the cache registry and the store.
//!
//! The store owns one storage connection and one cache registry.  Each entity
//! type has one slot of the registry: an ordered mapping from row identifier
//! to the unique in-memory instance of that row.  Resolving a typed reference
//! consults the slot first and falls back to a storage load on a miss; a
//! failed load caches nothing, so a later resolution tries again.

use vstd::prelude::*;

use core::marker::PhantomData;

use crate::organize::{Media, Label, MediaLabelPair, MediaAssoc};
use crate::sql::DbError;

verus! {

/// A typed reference: a row identifier tagged with the entity type it refers
/// to.  It carries no data and no connection; it is resolved against a store
/// on demand.
#[derive(Debug, PartialEq)]
pub struct DbRef<T> {
    pub id: i64,
    pub t: PhantomData<T>,
}

impl<T> Clone for DbRef<T> {
    fn clone(&self) -> (r: Self)
        ensures
            r == *self,
    {
        DbRef { id: self.id, t: PhantomData }
    }
}

impl<T> Copy for DbRef<T> {

}

/// One slot of the cache registry: the ordered mapping from row identifier to
/// the shared in-memory instance for one entity type.
pub type CacheItem<T> = std::collections::BTreeMap<i64, T>;

/// The cache registry: one slot per entity type, with no eviction.
pub struct CacheMap {
    pub media: CacheItem<Media>,
    pub label: CacheItem<Label>,
    pub media_label_pair: CacheItem<MediaLabelPair>,
    pub media_assoc: CacheItem<MediaAssoc>,
}

/// Whether a slot is coherent: every instance it holds carries the identifier
/// it is filed under.
pub open spec fn slot_wf<T: DbItem>(slot: CacheItem<T>) -> bool {
    forall|i: i64| slot@.contains_key(i) ==> (#[trigger] slot@[i]).entity_id() == i
}

/// Whether the whole registry is coherent.
pub open spec fn cache_wf(m: CacheMap) -> bool {
    &&& slot_wf(m.media)
    &&& slot_wf(m.label)
    &&& slot_wf(m.media_label_pair)
    &&& slot_wf(m.media_assoc)
}

/// The store: the single owner of the storage connection and the cache
/// registry, and the sole authority through which references are resolved and
/// entities are created.
pub struct Database {
    pub conn: rusqlite::Connection,
    pub cache: CacheMap,
}

/// The entity contract: what every storable type supplies so that the store
/// can create, load, save and cache it without per-type branching.
pub trait DbItem: Sized {
    /// The identifier stored in the instance.
    spec fn entity_id(&self) -> i64;

    /// The instance with its identifier replaced and every other field kept.
    spec fn spec_with_id(&self, id: i64) -> Self;

    /// This type's slot of the registry.
    spec fn spec_slot(m: CacheMap) -> CacheItem<Self>;

    /// The registry with this type's slot replaced and every other slot kept.
    spec fn spec_with_slot(m: CacheMap, slot: CacheItem<Self>) -> CacheMap;

    /// Replacing a slot and reading it back are inverse, and replacing a slot
    /// with itself changes nothing.
    proof fn lemma_slot_roundtrip()
        ensures
            forall|m: CacheMap, slot: CacheItem<Self>| #[trigger] Self::spec_slot(
                Self::spec_with_slot(m, slot),
            ) == slot,
            forall|m: CacheMap| #[trigger] Self::spec_with_slot(m, Self::spec_slot(m)) == m,
    ;

    /// Inserts one new row holding the instance's fields and hands back the
    /// identifier the store assigned, together with the instance carrying
    /// that identifier.  Exactly one insert statement is run; the cache is
    /// not touched (registration is the store's step).  Whether the insert
    /// succeeds depends on the stored data; any failure is the storage
    /// engine's, propagated, never a failure of the library's own.
    fn create(db: &Database, item: Self) -> (r: Result<(i64, Self), DbError>)
        ensures
            r matches Ok((id, it)) ==> it == item.spec_with_id(id) && it.entity_id() == id,
            r matches Err(e) ==> e is Storage,
    ;

    /// Reads exactly one row by identifier and reconstructs the instance,
    /// with embedded links reconstructed as typed references, never as loaded
    /// instances.  Whether a row comes back depends on the stored data.
    fn load(conn: &rusqlite::Connection, id: i64) -> (r: Result<Self, DbError>)
        ensures
            r matches Ok(it) ==> it.entity_id() == id,
    ;

    /// Writes the instance's current fields back to the row matching its
    /// identifier, leaving the identifier itself unchanged; the number of
    /// rows the statement matched comes back.  Which rows match depends on
    /// the stored data; any failure is the storage engine's, propagated,
    /// never a failure of the library's own.
    fn save(&self, conn: &rusqlite::Connection) -> (r: Result<usize, DbError>)
        ensures
            r matches Err(e) ==> e is Storage,
    ;

    /// This type's slot of the registry, borrowed for reading.
    fn cachemap_borrow(map: &CacheMap) -> (r: &CacheItem<Self>)
        ensures
            *r == Self::spec_slot(*map),
    ;

    /// This type's slot of the registry, borrowed for writing; every other
    /// slot is kept.
    fn cachemap_borrow_mut(map: &mut CacheMap) -> (r: &mut CacheItem<Self>)
        ensures
            *r == Self::spec_slot(*old(map)),
            *final(map) == Self::spec_with_slot(*old(map), *final(r)),
    ;
}

/// What one resolution does to a slot, as a function of the slot, the asked
/// identifier, and what a storage load of that identifier would give: a hit
/// answers from the slot and changes nothing; a miss answers with the loaded
/// instance and files it, or answers empty and changes nothing.
pub open spec fn resolve_model<T: DbItem>(
    slot: Map<i64, T>,
    id: i64,
    loaded: Option<T>,
) -> (Map<i64, T>, Option<T>) {
    if slot.contains_key(id) {
        (slot, Option::Some(slot[id]))
    } else {
        match loaded {
            Option::Some(it) => (slot.insert(id, it), Option::Some(it)),
            Option::None => (slot, Option::None),
        }
    }
}

impl<T> DbRef<T> {
    /// Constructs a reference; a pure value construction with no storage
    /// access.
    pub fn new(id: i64) -> (r: DbRef<T>)
        ensures
            r == (DbRef::<T> { id: id, t: PhantomData }),
    {
        DbRef::<T> { id: id, t: PhantomData }
    }
}

impl<T: DbItem> DbRef<T> {
    /// Resolves the reference against a store: the cached instance if the
    /// slot holds one, otherwise the freshly loaded instance, filed in the
    /// slot as a side effect; empty when the slot is cold and the load
    /// fails, in which case nothing is cached and nothing changes.
    pub fn resolve<'a>(&self, db: &'a mut Database) -> (r: Option<&'a T>)
        requires
            slot_wf(T::spec_slot(old(db).cache)),
        ensures
            slot_wf(T::spec_slot(final(db).cache)),
            final(db).conn == old(db).conn,
            final(db).cache == T::spec_with_slot(old(db).cache, T::spec_slot(final(db).cache)),
            match r {
                Option::Some(v) => {
                    &&& v.entity_id() == self.id
                    &&& (T::spec_slot(final(db).cache)@, Option::Some(*v)) == resolve_model(
                        T::spec_slot(old(db).cache)@,
                        self.id,
                        Option::Some(*v),
                    )
                    &&& T::spec_slot(old(db).cache)@.contains_key(self.id) ==> *v == T::spec_slot(
                        old(db).cache,
                    )@[self.id] && *final(db) == *old(db)
                },
                Option::None => {
                    &&& !T::spec_slot(old(db).cache)@.contains_key(self.id)
                    &&& *final(db) == *old(db)
                },
            },
    {
        proof {
            T::lemma_slot_roundtrip();
        }
        let cached: bool = T::cachemap_borrow(&db.cache).contains_key(&self.id);
        if !cached {
            match T::load(&db.conn, self.id) {
                Ok(item) => {
                    let slot = T::cachemap_borrow_mut(&mut db.cache);
                    slot.insert(self.id, item);
                    proof {
                        assert forall|i: i64| T::spec_slot(db.cache)@.contains_key(i) implies (
                        #[trigger] T::spec_slot(db.cache)@[i]).entity_id() == i by {
                            if i != self.id {
                                assert(T::spec_slot(old(db).cache)@.contains_key(i));
                            }
                        }
                    }
                },
                Err(_) => {},
            }
        }
        T::cachemap_borrow(&db.cache).get(&self.id)
    }
}

impl Database {
    /// Wraps a connection in a store with an empty cache registry.
    pub fn new(conn: rusqlite::Connection) -> (r: Database)
        ensures
            r.conn == conn,
            cache_wf(r.cache),
            r.cache.media@ == Map::<i64, Media>::empty(),
            r.cache.label@ == Map::<i64, Label>::empty(),
            r.cache.media_label_pair@ == Map::<i64, MediaLabelPair>::empty(),
            r.cache.media_assoc@ == Map::<i64, MediaAssoc>::empty(),
    {
        Database {
            conn,
            cache: CacheMap {
                media: std::collections::BTreeMap::new(),
                label: std::collections::BTreeMap::new(),
                media_label_pair: std::collections::BTreeMap::new(),
                media_assoc: std::collections::BTreeMap::new(),
            },
        }
    }

    /// Creates an entity: inserts its row, and files the instance, now
    /// carrying the store-assigned identifier, in the cache slot at the same
    /// moment, so that a reference to the fresh row resolves to this very
    /// instance with no reload.  A failed insert leaves no instance and no
    /// cache entry.
    pub fn create<T: DbItem>(&mut self, item: T) -> (r: Result<DbRef<T>, DbError>)
        requires
            slot_wf(T::spec_slot(old(self).cache)),
        ensures
            slot_wf(T::spec_slot(final(self).cache)),
            final(self).conn == old(self).conn,
            final(self).cache == T::spec_with_slot(
                old(self).cache,
                T::spec_slot(final(self).cache),
            ),
            match r {
                Result::Ok(h) => T::spec_slot(final(self).cache)@ == T::spec_slot(
                    old(self).cache,
                )@.insert(h.id, item.spec_with_id(h.id)),
                Result::Err(e) => *final(self) == *old(self) && e is Storage,
            },
    {
        proof {
            T::lemma_slot_roundtrip();
        }
        match T::create(&*self, item) {
            Ok((id, it)) => {
                let slot = T::cachemap_borrow_mut(&mut self.cache);
                slot.insert(id, it);
                proof {
                    assert forall|i: i64| T::spec_slot(self.cache)@.contains_key(i) implies (
                    #[trigger] T::spec_slot(self.cache)@[i]).entity_id() == i by {
                        if i != id {
                            assert(T::spec_slot(old(self).cache)@.contains_key(i));
                        }
                    }
                }
                Ok(DbRef::new(id))
            },
            Err(e) => Err(e),
        }
    }

    /// The cached instance under an identifier, with no storage access: the
    /// read half of sharing an instance between holders.
    pub fn get<'a, T: DbItem>(&'a self, id: i64) -> (r: Option<&'a T>)
        ensures
            match r {
                Option::Some(v) => T::spec_slot(self.cache)@.contains_key(id) && *v == T::spec_slot(
                    self.cache,
                )@[id],
                Option::None => !T::spec_slot(self.cache)@.contains_key(id),
            },
    {
        T::cachemap_borrow(&self.cache).get(&id)
    }

    /// Replaces the shared instance under an identifier: the write half of
    /// sharing an instance between holders.  Every reference to this
    /// identifier resolves to the new instance from now on.  Storage is not
    /// touched; the change is durable only after an explicit save.
    pub fn update<T: DbItem>(&mut self, id: i64, item: T)
        requires
            slot_wf(T::spec_slot(old(self).cache)),
            item.entity_id() == id,
        ensures
            slot_wf(T::spec_slot(final(self).cache)),
            final(self).conn == old(self).conn,
            final(self).cache == T::spec_with_slot(
                old(self).cache,
                T::spec_slot(final(self).cache),
            ),
            T::spec_slot(final(self).cache)@ == T::spec_slot(old(self).cache)@.insert(id, item),
    {
        proof {
            T::lemma_slot_roundtrip();
        }
        let slot = T::cachemap_borrow_mut(&mut self.cache);
        slot.insert(id, item);
        proof {
            assert forall|i: i64| T::spec_slot(self.cache)@.contains_key(i) implies (
            #[trigger] T::spec_slot(self.cache)@[i]).entity_id() == i by {
                if i != id {
                    assert(T::spec_slot(old(self).cache)@.contains_key(i));
                }
            }
        }
    }
}

/// Identity-map coherence: once a resolution has answered with an instance,
/// a second resolution of the same identifier answers with the very same
/// instance and changes nothing, whatever a storage load would have given
/// either time.
pub proof fn lemma_identity_map<T: DbItem>(
    slot: Map<i64, T>,
    id: i64,
    l1: Option<T>,
    l2: Option<T>,
)
    ensures
        ({
            let (s1, r1) = resolve_model(slot, id, l1);
            r1 is Some ==> resolve_model(s1, id, l2) == (s1, r1)
        }),
{
}

/// Create-resolve coherence: after an instance is filed under the identifier
/// the store assigned it, resolving that identifier answers with exactly that
/// instance and changes nothing, whatever a storage load would have given --
/// no load takes part.
pub proof fn lemma_create_resolve<T: DbItem>(slot: Map<i64, T>, id: i64, it: T, l: Option<T>)
    ensures
        resolve_model(slot.insert(id, it), id, l) == (slot.insert(id, it), Option::Some(it)),
{
}

/// Load-on-miss: resolving an identifier the slot does not hold files the
/// loaded instance and answers with it; a second resolution then answers from
/// the slot and changes nothing, whatever a storage load would give.
pub proof fn lemma_load_on_miss<T: DbItem>(slot: Map<i64, T>, id: i64, it: T, l2: Option<T>)
    requires
        !slot.contains_key(id),
    ensures
        resolve_model(slot, id, Option::Some(it)) == (
            slot.insert(id, it),
            Option::Some(it),
        ),
        ({
            let (s1, r1) = resolve_model(slot, id, Option::Some(it));
            resolve_model(s1, id, l2) == (s1, r1)
        }),
{
}

/// A failed resolve does not poison the slot: a miss whose load fails leaves
/// the slot unchanged, so a later resolution of the same identifier, once a
/// load can succeed, answers with the loaded instance.
pub proof fn lemma_failed_resolve_not_cached<T: DbItem>(slot: Map<i64, T>, id: i64, it: T)
    requires
        !slot.contains_key(id),
    ensures
        resolve_model(slot, id, Option::None) == (slot, Option::<T>::None),
        resolve_model(slot, id, Option::Some(it)).1 == Option::Some(it),
{
}

} // verus!
