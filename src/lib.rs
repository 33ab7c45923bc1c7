//! A typed query/response framework for a single JSON query endpoint:
//! request framing, response unwrapping, transport outcomes and the
//! lifecycle actions that a state layer consumes.

pub mod error;
pub mod codec;
pub mod query;
pub mod dispatch;
pub mod language_relations;
pub mod registry;
pub mod startup;
