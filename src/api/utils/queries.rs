//! Query values of the read API.
use vstd::prelude::*;

use crate::joined::{comma_free, comma_joined, split_commas, views_of};

verus! {

/// Several values given as one comma-separated string.
#[derive(Debug)]
pub struct CommaSeparatedValues(pub Vec<String>);

impl CommaSeparatedValues {
    /// The values of an already decoded query string, split at each `,`.
    pub fn from_decoded(decoded: &str) -> (r: Self)
        ensures
            r.0@.len() >= 1,
            comma_free(views_of(r.0@)),
            comma_joined(views_of(r.0@)) == decoded@,
    {
        CommaSeparatedValues(split_commas(decoded))
    }

    /// The values, in order.
    pub fn unwrap(self) -> (r: Vec<String>)
        ensures
            r == self.0,
    {
        self.0
    }
}

} // verus!
