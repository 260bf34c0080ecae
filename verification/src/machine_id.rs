//! Identifiers of machines: 128-bit keys with the same base-62 text as
//! every other identifier.

use crate::id::{id_parsed, id_text, Id, IdError};
use vstd::prelude::*;

verus! {

/// The key of a machine.
#[derive(Debug, Copy, Clone, PartialEq, Eq, Hash, Structural)]
pub struct MachineId(pub u128);

impl View for MachineId {
    type V = u128;

    open spec fn view(&self) -> u128 {
        self.0
    }
}

impl MachineId {
    /// A fresh identifier from the operating system's random source. Which
    /// one comes is not known; without random bytes there is none.
    pub fn new() -> (r: Result<MachineId, IdError>)
        ensures
            r.is_err() ==> r == Err::<MachineId, IdError>(IdError::NoEntropy),
    {
        match Id::new() {
            Ok(id) => Ok(MachineId(id.0)),
            Err(e) => Err(e),
        }
    }

    /// The canonical base-62 text.
    pub fn to_string(&self) -> (s: String)
        ensures
            s@ == id_text(self@),
    {
        Id(self.0).to_string()
    }

    /// Parses a base-62 text. It is refused when it holds a character
    /// outside the alphabet, or does not stand for exactly 16 bytes.
    pub fn try_from(value: String) -> (r: Result<MachineId, IdError>)
        ensures
            match id_parsed(value@) {
                Ok(v) => r == Ok::<MachineId, IdError>(MachineId(v)),
                Err(e) => r == Err::<MachineId, IdError>(e),
            },
    {
        match Id::from_str(value.as_str()) {
            Ok(id) => Ok(MachineId(id.0)),
            Err(e) => Err(e),
        }
    }
}

} // verus!
