//! Where the store is reached.
use vstd::prelude::*;

verus! {

/// The database that a store works on, by its address.
#[derive(Clone, Debug)]
pub struct PgPool {
    url: String,
}

impl PgPool {
    /// The address of the database.
    pub closed spec fn address(&self) -> Seq<char> {
        self.url@
    }

    pub fn new(url: &str) -> (r: PgPool)
        ensures
            r.address() == url@,
    {
        PgPool { url: url.to_owned() }
    }

    /// The address of the database.
    pub fn url(&self) -> (r: &str)
        ensures
            r@ == self.address(),
    {
        self.url.as_str()
    }
}

} // verus!
