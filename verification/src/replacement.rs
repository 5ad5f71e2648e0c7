//! The replacement-scan decision: which bare table references the host
//! should rewrite into a call of the registered scan function.
//!
//! A reference is rewritten exactly when it ends in the dataset format's
//! file extension. The decision works on the reference's bytes, as the
//! boundary hands them over; the extension is plain ASCII, so the byte
//! suffix and the character suffix agree.

use vstd::prelude::*;

verus! {

/// Whether a table reference names a dataset of the bridged format: it
/// ends in `.lance`.
pub open spec fn spec_is_lance_path(name: Seq<u8>) -> bool {
    &&& name.len() >= 6
    &&& name[name.len() - 6] == 46u8
    &&& name[name.len() - 5] == 108u8
    &&& name[name.len() - 4] == 97u8
    &&& name[name.len() - 3] == 110u8
    &&& name[name.len() - 2] == 99u8
    &&& name[name.len() - 1] == 101u8
}

/// Decide whether the host should replace this table reference with a
/// call of the registered scan function.
pub fn replacement_scan_matches(table_name: &[u8]) -> (r: bool)
    ensures
        r == spec_is_lance_path(table_name@),
{
    let n = table_name.len();
    if n < 6 {
        return false;
    }
    table_name[n - 6] == 46u8 && table_name[n - 5] == 108u8 && table_name[n - 4] == 97u8
        && table_name[n - 3] == 110u8 && table_name[n - 2] == 99u8 && table_name[n - 1] == 101u8
}

} // verus!
