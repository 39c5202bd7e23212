use vstd::prelude::*;

use crate::error::code::ErrorCode;
use crate::error::kind::ErrorKind;

verus! {

/// The static description of one error: its code, name, kind and default message.
#[derive(Debug, Clone, Copy)]
pub struct ErrorDescriptor {
    pub code: ErrorCode,
    pub name: &'static str,
    pub kind: ErrorKind,
    pub default_message: &'static str,
}

} // verus!
