//! The trait for sources, and implementations of included sources.

use vstd::prelude::*;
use crate::Error;
use crate::Schema;
use crate::SchemaV;
use crate::schema_result_view;

pub mod call;
pub mod constant;
pub mod postgresql;
pub mod web_service;

verus! {

/// Trait for sources that have schemas.
pub trait HasSchema {
    /// The model of what [`HasSchema::schema`] returns for this source: an
    /// input and an output schema, or the error that aborts derivation.
    spec fn schema_spec(&self) -> Result<(SchemaV, SchemaV), Error>;

    /// Return the input and output schemas of this source.
    fn schema(&self) -> (r: Result<(Schema, Schema), Error>)
        ensures
            schema_result_view(r) == self.schema_spec(),
    ;
}

} // verus!
