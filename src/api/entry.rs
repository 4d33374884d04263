use vstd::prelude::*;

verus! {

/// A creation request of the key-value variant: a short identifier, its
/// destination, and an optional expiry in seconds (`0` or absent: never).
pub struct Entry {
    pub long_url: String,
    pub short_url: String,
    pub expiration: Option<u64>,
}

impl Entry {
    /// The expiry in seconds that the entry asks for, `0` for none.
    pub open spec fn expiry(&self) -> nat {
        match self.expiration {
            Some(e) => e as nat,
            None => 0,
        }
    }

    pub fn new(long_url: String, short_url: String) -> (r: Entry)
        ensures
            r.long_url@ == long_url@,
            r.short_url@ == short_url@,
            r.expiration is None,
    {
        Entry { long_url, short_url, expiration: None }
    }

    pub fn long_url(&self) -> (r: &String)
        ensures
            r@ == self.long_url@,
    {
        &self.long_url
    }

    pub fn short_url(&self) -> (r: &String)
        ensures
            r@ == self.short_url@,
    {
        &self.short_url
    }

    pub fn has_expiration(&self) -> (r: bool)
        ensures
            r == self.expiration is Some,
    {
        match self.expiration {
            Some(_) => true,
            None => false,
        }
    }

    pub fn get_expiration(&self) -> (r: u64)
        ensures
            r == self.expiry(),
    {
        match self.expiration {
            Some(e) => e,
            None => 0,
        }
    }

    pub fn set_expiration(&mut self, exp: u64)
        ensures
            final(self).expiration == Some(exp),
            final(self).long_url@ == old(self).long_url@,
            final(self).short_url@ == old(self).short_url@,
    {
        self.expiration = Some(exp);
    }
}

} // verus!
