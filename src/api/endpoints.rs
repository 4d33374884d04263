use vstd::prelude::*;
use crate::api::entry::Entry;
use crate::db::{after_set, after_set_with_ttl, live, lookup, Store};
use crate::resolution::{destination_uri, has_scheme, with_scheme, Outcome, Resolution};

verus! {

/// The query of the error page: the message to show.
pub struct ErrorQuery {
    pub message: String,
}

/// What a creation request asks of the key-value store, as plain values.
pub enum CreateStep {
    Invalid,
    Collision,
    Put(Seq<char>, Seq<char>),
    PutWithTtl(Seq<char>, Seq<char>, nat),
}

/// What a creation request asks of the key-value store.
pub enum Command {
    /// The identifier or the destination is empty: store nothing and refuse.
    Invalid,
    /// The identifier is taken: store nothing and report it.
    Collision,
    /// Store `value` under `key` with no expiry.
    Store { key: String, value: String },
    /// Store `value` under `key`, to expire after `seconds`.
    SetWithTtl { key: String, value: String, seconds: u64 },
}

impl View for Command {
    type V = CreateStep;

    open spec fn view(&self) -> CreateStep {
        match self {
            Command::Invalid => CreateStep::Invalid,
            Command::Collision => CreateStep::Collision,
            Command::Store { key, value } => CreateStep::Put(key@, value@),
            Command::SetWithTtl { key, value, seconds } => CreateStep::PutWithTtl(
                key@,
                value@,
                *seconds as nat,
            ),
        }
    }
}

/// The decision of a creation: a live identifier is a collision; otherwise
/// an empty identifier or destination is invalid; otherwise the entry is
/// stored, with an expiry only if one of more than zero seconds was asked
/// for.
pub open spec fn create_step(short: Seq<char>, long: Seq<char>, expiry: nat, exists: bool) -> CreateStep {
    if exists {
        CreateStep::Collision
    } else if short.len() == 0 || long.len() == 0 {
        CreateStep::Invalid
    } else if expiry == 0 {
        CreateStep::Put(short, long)
    } else {
        CreateStep::PutWithTtl(short, long, expiry)
    }
}

/// The store after a creation step is carried out at `now`.
pub open spec fn apply(m: Store, step: CreateStep, now: int) -> Store {
    match step {
        CreateStep::Invalid => m,
        CreateStep::Collision => m,
        CreateStep::Put(k, v) => after_set(m, k, v),
        CreateStep::PutWithTtl(k, v, s) => after_set_with_ttl(m, k, v, s, now),
    }
}

/// The outcome of resolving, from what the store gave for the identifier and
/// what the liveness probe of its address said.
pub open spec fn outcome(stored: Option<Seq<char>>, alive: bool) -> Outcome {
    match stored {
        None => Outcome::NotFound,
        Some(v) => if alive {
            Outcome::Resolved(with_scheme(v))
        } else {
            Outcome::Unreachable(v)
        },
    }
}

/// The view of what the store gave.
pub open spec fn stored_view(stored: Option<String>) -> Option<Seq<char>> {
    match stored {
        Some(s) => Some(s@),
        None => None,
    }
}

/// Decides what a creation request does, given whether its identifier is
/// live in the store. The existence check and the write are two separate
/// store operations: of two concurrent creations of one identifier both may
/// pass the check, and the later write wins.
pub fn plan_new(entry: &Entry, exists: bool) -> (r: Command)
    ensures
        r@ == create_step(entry.short_url@, entry.long_url@, entry.expiry(), exists),
{
    if exists {
        return Command::Collision;
    }
    if entry.short_url.as_str().unicode_len() == 0 || entry.long_url.as_str().unicode_len() == 0 {
        return Command::Invalid;
    }
    let exp = entry.get_expiration();
    if exp == 0 {
        Command::Store { key: entry.short_url.clone(), value: entry.long_url.clone() }
    } else {
        Command::SetWithTtl {
            key: entry.short_url.clone(),
            value: entry.long_url.clone(),
            seconds: exp,
        }
    }
}

/// The address to probe for what the store gave, if it gave anything.
pub fn candidate(stored: &Option<String>) -> (r: Option<String>)
    ensures
        stored_view(r) == match stored_view(*stored) {
            Some(v) => Some(with_scheme(v)),
            None => None,
        },
{
    match stored {
        Some(v) => Some(destination_uri(v.as_str())),
        None => None,
    }
}

/// Resolves an identifier from what the store gave for it and, when it gave
/// a destination, whether the liveness probe of its address succeeded.
pub fn resolve(stored: &Option<String>, alive: bool) -> (r: Resolution)
    ensures
        r@ == outcome(stored_view(*stored), alive),
{
    match stored {
        None => Resolution::NotFound,
        Some(v) => if alive {
            Resolution::Resolved(destination_uri(v.as_str()))
        } else {
            Resolution::DestinationUnreachable(v.clone())
        },
    }
}

/// The message of a creation that found its identifier taken.
pub fn collision_message(short: &String) -> (r: String)
    ensures
        r@ == short@ + " already exists"@,
{
    let mut r = short.clone();
    r.append(" already exists");
    r
}

/// The message of a creation that stored its entry.
pub fn created_message(short: &String) -> (r: String)
    ensures
        r@ == short@ + " created"@,
{
    let mut r = short.clone();
    r.append(" created");
    r
}

/// Where a resolution sends the caller: the resolved address, or the error
/// page with a message naming what does not exist.
pub fn redirect_location(short: &String, r: &Resolution) -> (loc: String)
    ensures
        loc@ == match r@ {
            Outcome::Resolved(u) => u,
            Outcome::NotFound => "/error?message="@ + short@ + " does not exist"@,
            Outcome::Unreachable(d) => "/error?message="@ + d + " does not exist"@,
        },
{
    match r {
        Resolution::Resolved(u) => u.clone(),
        Resolution::NotFound => {
            let mut loc = String::from_str("/error?message=");
            loc.append(short.as_str());
            loc.append(" does not exist");
            loc
        },
        Resolution::DestinationUnreachable(d) => {
            let mut loc = String::from_str("/error?message=");
            loc.append(d.as_str());
            loc.append(" does not exist");
            loc
        },
    }
}

/// Creating an entry whose identifier is live always collides, whatever the
/// destination and expiry, and leaves the store as it was.
pub proof fn law_create_existing_collides(m: Store, short: Seq<char>, long: Seq<char>, expiry: nat, now: int)
    requires
        live(m, short, now),
    ensures
        create_step(short, long, expiry, live(m, short, now)) == CreateStep::Collision,
        apply(m, create_step(short, long, expiry, live(m, short, now)), now) == m,
{
}

/// After an identifier is created with no expiry, resolving it at any later
/// instant, with a successful probe, gives its destination, with `https://`
/// put in front when it names no scheme.
pub proof fn law_create_then_resolve(m: Store, short: Seq<char>, long: Seq<char>, now: int, later: int)
    requires
        short.len() > 0,
        long.len() > 0,
        !live(m, short, now),
        now <= later,
    ensures
        outcome(lookup(apply(m, create_step(short, long, 0, false), now), short, later), true)
            == Outcome::Resolved(with_scheme(long)),
        !has_scheme(long) ==> outcome(
            lookup(apply(m, create_step(short, long, 0, false), now), short, later),
            true,
        ) == Outcome::Resolved("https://"@ + long),
{
}

/// After an identifier is created with an expiry, it resolves until the
/// expiry has elapsed (to `https://` and the destination, when the
/// destination names no scheme), and is not found from then on.
pub proof fn law_expiry(m: Store, short: Seq<char>, long: Seq<char>, seconds: nat, now: int, later: int)
    requires
        short.len() > 0,
        long.len() > 0,
        !live(m, short, now),
        seconds > 0,
        now <= later,
    ensures
        later < now + seconds ==> outcome(
            lookup(apply(m, create_step(short, long, seconds, false), now), short, later),
            true,
        ) == Outcome::Resolved(with_scheme(long)),
        later < now + seconds && !has_scheme(long) ==> outcome(
            lookup(apply(m, create_step(short, long, seconds, false), now), short, later),
            true,
        ) == Outcome::Resolved("https://"@ + long),
        later >= now + seconds ==> outcome(
            lookup(apply(m, create_step(short, long, seconds, false), now), short, later),
            true,
        ) == Outcome::NotFound,
{
}

/// An identifier that is not live resolves to `NotFound`, whatever the probe
/// would say.
pub proof fn law_not_found(m: Store, short: Seq<char>, now: int, alive: bool)
    requires
        !live(m, short, now),
    ensures
        outcome(lookup(m, short, now), alive) == Outcome::NotFound,
{
}

/// An entry with an empty identifier or destination whose identifier is not
/// live is refused as invalid, and the store is left as it was.
pub proof fn law_empty_refused(m: Store, short: Seq<char>, long: Seq<char>, expiry: nat, exists: bool, now: int)
    requires
        !exists,
        short.len() == 0 || long.len() == 0,
    ensures
        create_step(short, long, expiry, exists) == CreateStep::Invalid,
        apply(m, create_step(short, long, expiry, exists), now) == m,
{
}

/// A live identifier whose probe fails is unreachable, never resolved.
pub proof fn law_probe_failure(m: Store, short: Seq<char>, now: int)
    requires
        live(m, short, now),
    ensures
        outcome(lookup(m, short, now), false) == Outcome::Unreachable(m[short].value),
{
}

} // verus!
