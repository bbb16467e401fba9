//! The transport layer interface: finding a device by its ID.

use crate::text::str_eq;
use vstd::prelude::*;

verus! {

/// An error of the transport layer interface.
#[derive(Clone, Debug, PartialEq, Eq)]
pub enum GenTlError {
    /// No device has the ID.
    InvalidId(String),
}

/// Result of the transport layer interface.
pub type GenTlResult<T> = Result<T, GenTlError>;

/// Whether none of the first `end` IDs is `id`.
pub open spec fn none_before(device_ids: Seq<String>, end: int, id: Seq<char>) -> bool {
    forall|k: int| 0 <= k < end ==> (#[trigger] device_ids[k])@ != id
}

/// The place of the first device whose ID is `id` among the devices of an
/// interface, given by their IDs. An ID that no device has is invalid.
pub fn device_by_id(device_ids: &[String], id: &str) -> (res: GenTlResult<usize>)
    ensures
        match res {
            Ok(found) => found < device_ids@.len() && device_ids@[found as int]@ == id@
                && none_before(device_ids@, found as int, id@),
            Err(GenTlError::InvalidId(name)) => name@ == id@ && none_before(
                device_ids@,
                device_ids@.len() as int,
                id@,
            ),
        },
{
    let mut i: usize = 0;
    while i < device_ids.len()
        invariant
            i <= device_ids@.len(),
            none_before(device_ids@, i as int, id@),
        decreases device_ids@.len() - i,
    {
        if str_eq(device_ids[i].as_str(), id) {
            return Ok(i);
        }
        i = i + 1;
    }
    Err(GenTlError::InvalidId(String::from_str(id)))
}

} // verus!
