use vstd::prelude::*;

verus! {

/// One mapping of the flat-file variant: a short identifier and the address
/// it stands for.
#[derive(Debug, PartialEq, Eq)]
pub struct Entry {
    pub shortcut_url: String,
    pub original_url: String,
}

impl View for Entry {
    type V = (Seq<char>, Seq<char>);

    open spec fn view(&self) -> (Seq<char>, Seq<char>) {
        (self.shortcut_url@, self.original_url@)
    }
}

impl Entry {
    pub fn new(shortcut_url: String, original_url: String) -> (r: Entry)
        ensures
            r@ == (shortcut_url@, original_url@),
    {
        Entry { shortcut_url, original_url }
    }

    pub fn get_shortcut(&self) -> (r: String)
        ensures
            r@ == self.shortcut_url@,
    {
        self.shortcut_url.clone()
    }

    pub fn get_original(&self) -> (r: String)
        ensures
            r@ == self.original_url@,
    {
        self.original_url.clone()
    }
}

/// The collection as plain values.
pub open spec fn entries_view(es: Seq<Entry>) -> Seq<(Seq<char>, Seq<char>)> {
    es.map_values(|e: Entry| e@)
}

// ---------------------------------------------------------------------------
// The persisted layout: a JSON array of `{"shortcut_url", "original_url"}`
// objects, two-space indented, one member per line; the empty collection is
// `[]`.
// ---------------------------------------------------------------------------

/// A lowercase hexadecimal digit.
pub open spec fn hex_digit(d: u32) -> char {
    if d < 10 {
        ((d + 48) as u8) as char
    } else {
        ((d + 87) as u8) as char
    }
}

/// How one character is written inside a JSON string: quote, backslash and
/// control characters are escaped, everything else stands as it is.
pub open spec fn esc_char(c: char) -> Seq<char> {
    if c == '"' {
        seq!['\\', '"']
    } else if c == '\\' {
        seq!['\\', '\\']
    } else if c == '\n' {
        seq!['\\', 'n']
    } else if c == '\r' {
        seq!['\\', 'r']
    } else if c == '\t' {
        seq!['\\', 't']
    } else if c == '\x08' {
        seq!['\\', 'b']
    } else if c == '\x0c' {
        seq!['\\', 'f']
    } else if (c as u32) < 32 {
        seq!['\\', 'u', '0', '0', hex_digit((c as u32) / 16), hex_digit((c as u32) % 16)]
    } else {
        seq![c]
    }
}

/// The body of a JSON string literal for `s` (without the quotes).
pub open spec fn esc(s: Seq<char>) -> Seq<char>
    decreases s.len(),
{
    if s.len() == 0 {
        Seq::empty()
    } else {
        esc(s.drop_last()) + esc_char(s.last())
    }
}

pub open spec fn head_piece() -> Seq<char> {
    "\n  {\n    \"shortcut_url\": \""@
}

pub open spec fn mid_piece() -> Seq<char> {
    ",\n    \"original_url\": \""@
}

pub open spec fn tail_piece() -> Seq<char> {
    "\n  }"@
}

/// One object of the array, with the line break that precedes it.
pub open spec fn entry_block(e: (Seq<char>, Seq<char>)) -> Seq<char> {
    head_piece() + esc(e.0) + seq!['"'] + mid_piece() + esc(e.1) + seq!['"'] + tail_piece()
}

/// The objects of the array, separated by commas.
pub open spec fn blocks(es: Seq<(Seq<char>, Seq<char>)>) -> Seq<char>
    decreases es.len(),
{
    if es.len() == 0 {
        Seq::empty()
    } else {
        blocks(es.drop_last()) + (if es.len() == 1 {
            Seq::empty()
        } else {
            seq![',']
        }) + entry_block(es.last())
    }
}

/// The text of the backing file for a collection.
pub open spec fn render(es: Seq<(Seq<char>, Seq<char>)>) -> Seq<char> {
    if es.len() == 0 {
        seq!['[', ']']
    } else {
        seq!['['] + blocks(es) + seq!['\n', ']']
    }
}

/// Relies on `String::push`: appends one character.
#[verifier::external_body]
fn push_char(s: &mut String, c: char)
    ensures
        final(s)@ == old(s)@.push(c),
{
    s.push(c)
}

fn hex_char(d: u32) -> (r: char)
    requires
        d < 16,
    ensures
        r == hex_digit(d),
{
    if d < 10 {
        ((d + 48) as u8) as char
    } else {
        ((d + 87) as u8) as char
    }
}

fn push_escaped(out: &mut String, c: char)
    ensures
        final(out)@ == old(out)@ + esc_char(c),
{
    if c == '"' {
        push_char(out, '\\');
        push_char(out, '"');
    } else if c == '\\' {
        push_char(out, '\\');
        push_char(out, '\\');
    } else if c == '\n' {
        push_char(out, '\\');
        push_char(out, 'n');
    } else if c == '\r' {
        push_char(out, '\\');
        push_char(out, 'r');
    } else if c == '\t' {
        push_char(out, '\\');
        push_char(out, 't');
    } else if c == '\x08' {
        push_char(out, '\\');
        push_char(out, 'b');
    } else if c == '\x0c' {
        push_char(out, '\\');
        push_char(out, 'f');
    } else if (c as u32) < 32 {
        push_char(out, '\\');
        push_char(out, 'u');
        push_char(out, '0');
        push_char(out, '0');
        push_char(out, hex_char((c as u32) / 16));
        push_char(out, hex_char((c as u32) % 16));
    } else {
        push_char(out, c);
    }
    assert(final(out)@ =~= old(out)@ + esc_char(c));
}

fn push_quoted_body(out: &mut String, s: &String)
    ensures
        final(out)@ == old(out)@ + esc(s@),
{
    let n = s.as_str().unicode_len();
    let mut i: usize = 0;
    while i < n
        invariant
            n == s@.len(),
            i <= n,
            out@ == old(out)@ + esc(s@.subrange(0, i as int)),
        decreases n - i,
    {
        let c = s.as_str().get_char(i);
        push_escaped(out, c);
        assert(s@.subrange(0, i + 1).drop_last() =~= s@.subrange(0, i as int));
        assert(out@ =~= old(out)@ + esc(s@.subrange(0, i + 1)));
        i = i + 1;
    }
    assert(s@.subrange(0, n as int) =~= s@);
}

/// Writes a collection in the layout of the backing file.
pub fn serialize_entry(entries: &Vec<Entry>) -> (r: String)
    ensures
        r@ == render(entries_view(entries@)),
{
    let mut out = String::new();
    if entries.len() == 0 {
        out.append("[]");
        proof {
            reveal_strlit("[]");
        }
        assert(out@ =~= render(entries_view(entries@)));
        return out;
    }
    out.append("[");
    proof {
        reveal_strlit("[");
    }
    let mut i: usize = 0;
    while i < entries.len()
        invariant
            i <= entries@.len(),
            entries@.len() > 0,
            out@ == seq!['['] + blocks(entries_view(entries@).subrange(0, i as int)),
        decreases entries.len() - i,
    {
        if i > 0 {
            out.append(",");
            proof {
                reveal_strlit(",");
            }
        }
        out.append("\n  {\n    \"shortcut_url\": \"");
        push_quoted_body(&mut out, &entries[i].shortcut_url);
        push_char(&mut out, '"');
        out.append(",\n    \"original_url\": \"");
        push_quoted_body(&mut out, &entries[i].original_url);
        push_char(&mut out, '"');
        out.append("\n  }");
        proof {
            let vs = entries_view(entries@);
            let pre = vs.subrange(0, i + 1);
            assert(pre.drop_last() =~= vs.subrange(0, i as int));
            assert(pre.last() == entries@[i as int]@);
            assert(out@ =~= seq!['['] + blocks(pre));
        }
        i = i + 1;
    }
    out.append("\n]");
    proof {
        reveal_strlit("\n]");
        assert(entries_view(entries@).subrange(0, i as int) =~= entries_view(entries@));
    }
    assert(out@ =~= render(entries_view(entries@)));
    out
}

/// Some entry of `es` has the short identifier `id`.
pub open spec fn has_id(es: Seq<(Seq<char>, Seq<char>)>, id: Seq<char>) -> bool {
    exists|k: int| 0 <= k < es.len() && (#[trigger] es[k]).0 == id
}

/// `k` is the first index of `es` whose short identifier is `id`.
pub open spec fn first_match(es: Seq<(Seq<char>, Seq<char>)>, id: Seq<char>, k: int) -> bool {
    &&& 0 <= k < es.len()
    &&& es[k].0 == id
    &&& forall|j: int| 0 <= j < k ==> (#[trigger] es[j]).0 != id
}

/// No two entries share a short identifier.
pub open spec fn unique_ids(es: Seq<(Seq<char>, Seq<char>)>) -> bool {
    forall|a: int, b: int| 0 <= a < es.len() && 0 <= b < es.len() && a != b ==> (#[trigger] es[a]).0 != (#[trigger] es[b]).0
}

/// The index of the first entry with short identifier `short`, by a full
/// scan: the collection is small and kept in a single file.
pub fn position_of(short: &String, entries: &Vec<Entry>) -> (r: Option<usize>)
    ensures
        match r {
            Some(k) => first_match(entries_view(entries@), short@, k as int),
            None => !has_id(entries_view(entries@), short@),
        },
{
    let mut i: usize = 0;
    while i < entries.len()
        invariant
            i <= entries@.len(),
            forall|j: int| 0 <= j < i ==> (#[trigger] entries_view(entries@)[j]).0 != short@,
        decreases entries.len() - i,
    {
        if entries[i].shortcut_url == *short {
            return Some(i);
        }
        i = i + 1;
    }
    None
}

/// Whether an entry with short identifier `short` is in the collection.
pub fn entry_exist(short: &String, entries: &Vec<Entry>) -> (r: bool)
    ensures
        r == has_id(entries_view(entries@), short@),
{
    match position_of(short, entries) {
        Some(_) => true,
        None => false,
    }
}

/// The first entry with short identifier `short`, if any.
pub fn find_entry<'a>(short: &String, entries: &'a Vec<Entry>) -> (r: Option<&'a Entry>)
    ensures
        match r {
            Some(e) => exists|k: int| first_match(entries_view(entries@), short@, k) && entries@[k] == *e,
            None => !has_id(entries_view(entries@), short@),
        },
{
    match position_of(short, entries) {
        Some(k) => Some(&entries[k]),
        None => None,
    }
}

} // verus!
