//! An in-memory entity store and the resource-extraction simulation built on
//! top of it: keyed record tables for resources, workers, tools and the tool
//! catalog, and a `try_dig` operation that reads and mutates three of those
//! tables to model a worker extracting value from a resource with a tool.
//!
//! The store is an explicitly constructed value, owned by the driver and
//! passed by reference to every operation; `try_dig` holds one exclusive
//! borrow of the store for its whole duration, so each dig is atomic with
//! respect to any other operation on the same store.

pub mod app_date;
pub mod db;
pub mod dig;
pub mod records;
pub mod table;
