//! What the arguments of a request mean to the store, decided once for every
//! backend: which record an identifier text names, and which candidates may
//! be created.

use crate::error::GatewayError;
use crate::object_id::{id_bytes_of, is_id_text, StudentId};
use crate::student::Student;
use vstd::prelude::*;

verus! {

/// The record that a get names. Text that is not an identifier names none,
/// so a get of it finds nothing.
pub fn read_target(id: &str) -> (r: Option<StudentId>)
    ensures
        r is Some <==> is_id_text(id@),
        r matches Some(k) ==> k@ == id_bytes_of(id@),
{
    match StudentId::parse(id) {
        Ok(k) => Some(k),
        Err(_) => None,
    }
}

/// The record that an update or a delete names. Text that is not an
/// identifier is refused.
pub fn write_target(id: &str) -> (r: Result<StudentId, GatewayError>)
    ensures
        r is Ok <==> is_id_text(id@),
        r matches Ok(k) ==> k@ == id_bytes_of(id@),
        r matches Err(e) ==> e == GatewayError::InvalidIdentifier,
{
    match StudentId::parse(id) {
        Ok(k) => Ok(k),
        Err(_) => Err(GatewayError::InvalidIdentifier),
    }
}

/// Whether `candidate` may be created: the store assigns identifiers, so a
/// candidate that already carries one is refused.
pub fn check_candidate(candidate: &Student) -> (r: Result<(), GatewayError>)
    ensures
        r is Ok <==> candidate@.id is None,
        r matches Err(e) ==> e == GatewayError::InvalidIdentifier,
{
    match candidate.id {
        Some(_) => Err(GatewayError::InvalidIdentifier),
        None => Ok(()),
    }
}

} // verus!
