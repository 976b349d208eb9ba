//! The feed's CSV files.
use vstd::prelude::*;

verus! {

/// A record type read from one file of the feed.
pub trait GTFSFile {
    /// The file's name within the feed's directory (ex: trips.txt).
    fn file_name() -> &'static str;
}

} // verus!
