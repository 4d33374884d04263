use vstd::prelude::*;

verus! {

/// One record of the key-value store: the destination and, if it expires,
/// the instant (in seconds) from which it is gone.
pub struct Record {
    pub value: Seq<char>,
    pub deadline: Option<int>,
}

/// The key-value store as plain values: what each key holds.
pub type Store = Map<Seq<char>, Record>;

/// `key` is present and not expired at instant `now`.
pub open spec fn live(m: Store, key: Seq<char>, now: int) -> bool {
    &&& m.contains_key(key)
    &&& match m[key].deadline {
        Some(d) => now < d,
        None => true,
    }
}

/// The destination stored under `key`, if it is live at `now`.
pub open spec fn lookup(m: Store, key: Seq<char>, now: int) -> Option<Seq<char>> {
    if live(m, key, now) {
        Some(m[key].value)
    } else {
        None
    }
}

/// The store after an upsert without expiry.
pub open spec fn after_set(m: Store, key: Seq<char>, value: Seq<char>) -> Store {
    m.insert(key, Record { value, deadline: None })
}

/// The store after an upsert at `now` that expires `seconds` later.
pub open spec fn after_set_with_ttl(m: Store, key: Seq<char>, value: Seq<char>, seconds: nat, now: int) -> Store {
    m.insert(key, Record { value, deadline: Some(now + seconds) })
}

} // verus!
