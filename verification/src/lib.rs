//! An identity-map persistence layer over a relational store.
//!
//! A [`database::Database`] owns one storage connection and one
//! [`database::CacheMap`]: an ordered mapping, per entity type, from row
//! identifier to the unique in-memory instance of that row.  A
//! [`database::DbRef`] is a typed row identifier; resolving it consults the
//! cache first and falls back to a storage load on a miss, so that every
//! holder of a reference to the same row shares one instance.

pub mod database;
pub mod organize;
pub mod sql;
