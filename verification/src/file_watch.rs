//! What the helper remembers of a watched file to notice that it changed.

use vstd::prelude::*;

verus! {

/// Size and modification time of a file: when either differs, the file is read again.
///
/// The time is kept as seconds and nanoseconds relative to the Unix epoch, negative seconds
/// standing for times before it.
#[derive(Debug, Clone, Copy, PartialEq, Eq, Structural)]
pub struct FileStamp {
    pub len: u64,
    pub modified_secs: i64,
    pub modified_nanos: u32,
}

/// Whether two optional stamps are the same.
pub fn same_stamp(a: Option<FileStamp>, b: Option<FileStamp>) -> (r: bool)
    ensures
        r == (a == b),
{
    match (a, b) {
        (None, None) => true,
        (Some(x), Some(y)) => x == y,
        _ => false,
    }
}

} // verus!
