//! Doors.

use vstd::prelude::*;
use crate::fields::{FieldBag, FieldMap};
use crate::indexer::{IndexingError, ParseFields};

verus! {

/// The type name of a door in the level file.
pub const DOOR_ID: &'static str = "Door";

/// A door. It has no fields.
#[derive(Clone, Copy, Debug, PartialEq, Eq, Structural)]
pub struct Door;

impl View for Door {
    type V = Door;

    open spec fn view(&self) -> Door {
        *self
    }
}

impl ParseFields for Door {
    /// Any fields make a door.
    open spec fn spec_parse(fields: FieldMap) -> Result<Door, IndexingError> {
        Ok(Door)
    }

    fn parse(fields: &FieldBag) -> (r: Result<Door, IndexingError>) {
        Ok(Door {  })
    }
}

} // verus!
