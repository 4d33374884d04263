use vstd::prelude::*;

verus! {

/// What resolving a short identifier comes to, as plain values.
pub enum Outcome {
    Resolved(Seq<char>),
    NotFound,
    Unreachable(Seq<char>),
}

/// What resolving a short identifier comes to.
pub enum Resolution {
    /// Redirect to this address.
    Resolved(String),
    /// No live entry has the identifier.
    NotFound,
    /// The entry's destination (as stored) failed the liveness probe.
    DestinationUnreachable(String),
}

impl View for Resolution {
    type V = Outcome;

    open spec fn view(&self) -> Outcome {
        match self {
            Resolution::Resolved(u) => Outcome::Resolved(u@),
            Resolution::NotFound => Outcome::NotFound,
            Resolution::DestinationUnreachable(d) => Outcome::Unreachable(d@),
        }
    }
}

/// A letter of ASCII, in either case.
pub open spec fn is_alpha(c: char) -> bool {
    ('a' <= c && c <= 'z') || ('A' <= c && c <= 'Z')
}

/// A character that may follow the first letter of a URI scheme.
pub open spec fn is_scheme_char(c: char) -> bool {
    is_alpha(c) || ('0' <= c && c <= '9') || c == '+' || c == '-' || c == '.'
}

/// `d` begins with a scheme of `n` characters (a letter, then letters,
/// digits, `+`, `-` or `.`) followed by `://`.
pub open spec fn scheme_at(d: Seq<char>, n: int) -> bool {
    &&& 1 <= n
    &&& n + 3 <= d.len()
    &&& is_alpha(d[0])
    &&& forall|j: int| 0 <= j < n ==> is_scheme_char(#[trigger] d[j])
    &&& d[n] == ':'
    &&& d[n + 1] == '/'
    &&& d[n + 2] == '/'
}

/// The destination already names its scheme, in any case (`https://`,
/// `HTTP://`, `ftp://`).
pub open spec fn has_scheme(d: Seq<char>) -> bool {
    exists|n: int| scheme_at(d, n)
}

fn alpha(c: char) -> (r: bool)
    ensures
        r == is_alpha(c),
{
    ('a' <= c && c <= 'z') || ('A' <= c && c <= 'Z')
}

fn scheme_char(c: char) -> (r: bool)
    ensures
        r == is_scheme_char(c),
{
    alpha(c) || ('0' <= c && c <= '9') || c == '+' || c == '-' || c == '.'
}

fn names_scheme(d: &str) -> (r: bool)
    ensures
        r == has_scheme(d@),
{
    let len = d.unicode_len();
    let mut i: usize = 0;
    while i < len && scheme_char(d.get_char(i))
        invariant
            len == d@.len(),
            i <= len,
            forall|j: int| 0 <= j < i ==> is_scheme_char(#[trigger] d@[j]),
        decreases len - i,
    {
        i = i + 1;
    }
    assert forall|n: int| scheme_at(d@, n) implies n == i as int by {
        if n < i {
            assert(is_scheme_char(d@[n]));
        }
        if i < n {
            assert(is_scheme_char(d@[i as int]));
        }
    }
    if i == 0 || !alpha(d.get_char(0)) || len - i < 3 {
        return false;
    }
    let r = d.get_char(i) == ':' && d.get_char(i + 1) == '/' && d.get_char(i + 2) == '/';
    if r {
        assert(scheme_at(d@, i as int));
    }
    r
}

/// The address a destination redirects to: `https://` is put in front of a
/// destination that names no scheme.
pub open spec fn with_scheme(d: Seq<char>) -> Seq<char> {
    if has_scheme(d) {
        d
    } else {
        "https://"@ + d
    }
}

/// The redirect address for a destination.
pub fn destination_uri(d: &str) -> (r: String)
    ensures
        r@ == with_scheme(d@),
{
    if names_scheme(d) {
        d.to_owned()
    } else {
        let mut r = String::from_str("https://");
        r.append(d);
        r
    }
}

} // verus!
