//! Faults of a malformed program. They are found when a function constant is
//! resolved against the chunk it refers to.

use crate::runtime::{fault_of, Fault};
use crate::text::{decimal, render_usize};
use extendable_vm::{Exception, ExceptionType};
use vstd::prelude::*;
use vstd::string::StringExecFns;

verus! {

/// A function constant refers to a chunk that the program does not have.
#[derive(Debug)]
pub struct NotFoundChunkForFunction(pub usize);

/// A chunk referred to as a function does not start with a name and a
/// number of parameters.
#[derive(Debug)]
pub struct InvalidFunctionChunk(pub usize);

impl NotFoundChunkForFunction {
    /// What the fault of this exception tells.
    pub open spec fn fault(self) -> Fault {
        Fault {
            severity: ExceptionType::Static,
            name: "NotFoundChunkForFunction"@,
            message: "Chunk #"@ + decimal(self.0 as nat) + " of a function was not found"@,
        }
    }
}

impl InvalidFunctionChunk {
    /// What the fault of this exception tells.
    pub open spec fn fault(self) -> Fault {
        Fault {
            severity: ExceptionType::Static,
            name: "InvalidFunctionChunk"@,
            message: "Chunk #"@ + decimal(self.0 as nat) + " does not describe a function"@,
        }
    }
}

impl From<NotFoundChunkForFunction> for Exception {
    fn from(exception: NotFoundChunkForFunction) -> (fault: Exception)
        ensures
            fault_of(fault) == exception.fault(),
    {
        let mut message = String::from_str("Chunk #");
        message.append(render_usize(exception.0).as_str());
        message.append(" of a function was not found");
        Exception {
            exception_type: ExceptionType::Static,
            name: String::from_str("NotFoundChunkForFunction"),
            message,
        }
    }
}

impl vstd::std_specs::convert::FromSpecImpl<NotFoundChunkForFunction> for Exception {
    open spec fn obeys_from_spec() -> bool {
        false
    }

    open spec fn from_spec(exception: NotFoundChunkForFunction) -> Exception {
        arbitrary()
    }
}

impl From<InvalidFunctionChunk> for Exception {
    fn from(exception: InvalidFunctionChunk) -> (fault: Exception)
        ensures
            fault_of(fault) == exception.fault(),
    {
        let mut message = String::from_str("Chunk #");
        message.append(render_usize(exception.0).as_str());
        message.append(" does not describe a function");
        Exception {
            exception_type: ExceptionType::Static,
            name: String::from_str("InvalidFunctionChunk"),
            message,
        }
    }
}

impl vstd::std_specs::convert::FromSpecImpl<InvalidFunctionChunk> for Exception {
    open spec fn obeys_from_spec() -> bool {
        false
    }

    open spec fn from_spec(exception: InvalidFunctionChunk) -> Exception {
        arbitrary()
    }
}

} // verus!
