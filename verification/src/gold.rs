//! Gold to collect.

use vstd::prelude::*;
use crate::fields::{FieldBag, FieldMap};
use crate::indexer::{IndexingError, ParseFields};

verus! {

/// The type name of gold in the level file.
pub const GOLD_ID: &'static str = "Gold";

/// The field that holds what the gold is worth.
pub const GOLD_VALUE_FIELD: &'static str = "Value";

/// Gold that lies in the level.
#[derive(Clone, Copy, Debug, PartialEq, Eq, Structural)]
pub struct Gold {
    pub value: i32,
}

impl View for Gold {
    type V = Gold;

    open spec fn view(&self) -> Gold {
        *self
    }
}

impl ParseFields for Gold {
    /// Gold needs the field `Value` with an integer of 64 bits in it, of
    /// which it keeps the low 32 bits: a worth that fits in 32 bits is kept
    /// as it is.
    open spec fn spec_parse(fields: FieldMap) -> Result<Gold, IndexingError> {
        if !fields.contains_key(GOLD_VALUE_FIELD@) {
            Err(IndexingError::MissingField)
        } else {
            match fields[GOLD_VALUE_FIELD@] {
                Some(value) => match value.as_i64() {
                    Some(n) => Ok(Gold { value: n as i32 }),
                    None => Err(IndexingError::WrongShape),
                },
                None => Err(IndexingError::WrongShape),
            }
        }
    }

    fn parse(fields: &FieldBag) -> (r: Result<Gold, IndexingError>) {
        match fields.get(GOLD_VALUE_FIELD) {
            None => Err(IndexingError::MissingField),
            Some(None) => Err(IndexingError::WrongShape),
            Some(Some(value)) => match value.as_i64() {
                Some(n) => Ok(Gold { value: #[verifier::truncate] (n as i32) }),
                None => Err(IndexingError::WrongShape),
            },
        }
    }
}

} // verus!
