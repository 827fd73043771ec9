//! Rules of a desktop editor's backend: the list of recently used files, the
//! restorable session, path helpers and the error vocabulary, each with a
//! verified contract. Nothing here touches the disk or the clock; the
//! host probes them and hands in plain values.

pub mod error;
pub mod laws;
pub mod menu;
pub mod path;
pub mod presence;
pub mod recent;
pub mod seq_facts;
pub mod session;
pub mod store;
