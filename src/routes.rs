use vstd::prelude::*;
use crate::entries::json::{
    entries_view, first_match, has_id, position_of, render, serialize_entry, unique_ids, Entry,
};
use crate::resolution::{destination_uri, with_scheme, Outcome, Resolution};

verus! {

/// Why an operation on the flat-file collection was refused.
#[derive(PartialEq, Eq, Structural, Debug)]
pub enum FileError {
    /// The short identifier or the destination is empty.
    Invalid,
    /// The short identifier is already taken.
    Collision,
    /// No entry has the short identifier.
    NotFound,
    /// The backing file does not hold a collection.
    Malformed,
}

/// The error of a write to a backing file that does not exist.
pub open spec fn missing_file_text(filename: Seq<char>) -> Seq<char> {
    "File '"@ + filename + "' does not exist."@
}

/// Appends an entry to the collection read from the backing file, without
/// any check on the entry, and returns the text to write back. `current` is
/// `None` when the file does not exist.
pub fn save_entry(filename: &str, current: Option<Vec<Entry>>, entry: Entry) -> (r: Result<String, String>)
    ensures
        match current {
            None => r matches Err(e) && e@ == missing_file_text(filename@),
            Some(v) => r matches Ok(t) && t@ == render(entries_view(v@).push(entry@)),
        },
{
    match current {
        None => {
            let mut e = String::from_str("File '");
            e.append(filename);
            e.append("' does not exist.");
            Err(e)
        },
        Some(mut v) => {
            let ghost before = v@;
            let ghost e = entry@;
            v.push(entry);
            assert(entries_view(v@) =~= entries_view(before).push(e));
            Ok(serialize_entry(&v))
        },
    }
}

/// Creates an entry in the collection and returns the text of the new
/// collection. A taken identifier is a collision; otherwise an empty
/// identifier or destination is invalid; otherwise the entry is appended.
pub fn register_in(entries: Vec<Entry>, entry: Entry) -> (r: Result<String, FileError>)
    ensures
        has_id(entries_view(entries@), entry.shortcut_url@) ==> r == Err::<String, FileError>(
            FileError::Collision,
        ),
        !has_id(entries_view(entries@), entry.shortcut_url@) && (entry.shortcut_url@.len() == 0
            || entry.original_url@.len() == 0) ==> r == Err::<String, FileError>(FileError::Invalid),
        entry.shortcut_url@.len() > 0 && entry.original_url@.len() > 0 && !has_id(
            entries_view(entries@),
            entry.shortcut_url@,
        ) ==> (r matches Ok(t) && t@ == render(entries_view(entries@).push(entry@))),
{
    if position_of(&entry.shortcut_url, &entries).is_some() {
        return Err(FileError::Collision);
    }
    if entry.shortcut_url.as_str().unicode_len() == 0 || entry.original_url.as_str().unicode_len() == 0 {
        return Err(FileError::Invalid);
    }
    let mut v = entries;
    let ghost before = v@;
    let ghost e = entry@;
    v.push(entry);
    assert(entries_view(v@) =~= entries_view(before).push(e));
    Ok(serialize_entry(&v))
}

/// Deletes the entry with identifier `short` from the collection and returns
/// the text of the new collection; a missing identifier is `NotFound`, and
/// then nothing is to be written.
pub fn delete_in(entries: Vec<Entry>, short: &String) -> (r: Result<String, FileError>)
    ensures
        has_id(entries_view(entries@), short@) ==> exists|k: int|
            first_match(entries_view(entries@), short@, k) && (r matches Ok(t) && t@ == render(
                entries_view(entries@).remove(k),
            )),
        !has_id(entries_view(entries@), short@) ==> r == Err::<String, FileError>(FileError::NotFound),
{
    match position_of(short, &entries) {
        None => Err(FileError::NotFound),
        Some(k) => {
            let mut v = entries;
            let ghost before = v@;
            v.remove(k);
            assert(entries_view(v@) =~= entries_view(before).remove(k as int));
            Ok(serialize_entry(&v))
        },
    }
}

/// Resolves `short` against the collection. The flat-file variant does not
/// probe the destination: a present identifier resolves.
pub fn resolve_in(entries: &Vec<Entry>, short: &String) -> (r: Resolution)
    ensures
        has_id(entries_view(entries@), short@) ==> exists|k: int|
            first_match(entries_view(entries@), short@, k) && r@ == Outcome::Resolved(
                with_scheme(entries_view(entries@)[k].1),
            ),
        !has_id(entries_view(entries@), short@) ==> r@ == Outcome::NotFound,
{
    match position_of(short, entries) {
        None => Resolution::NotFound,
        Some(k) => Resolution::Resolved(destination_uri(entries[k].original_url.as_str())),
    }
}

/// Deleting an entry of a collection whose identifiers are unique leaves
/// exactly the other entries: the identifier is gone and nothing else is.
pub proof fn law_delete_removes_only_that_entry(es: Seq<(Seq<char>, Seq<char>)>, id: Seq<char>, k: int)
    requires
        unique_ids(es),
        first_match(es, id, k),
    ensures
        !has_id(es.remove(k), id),
        forall|e: (Seq<char>, Seq<char>)| es.remove(k).contains(e) <==> (es.contains(e) && e.0 != id),
        unique_ids(es.remove(k)),
{
    let r = es.remove(k);
    assert forall|j: int| 0 <= j < r.len() implies (#[trigger] r[j]).0 != id by {
        if j < k {
            assert(r[j] == es[j]);
        } else {
            assert(r[j] == es[j + 1]);
        }
    }
    assert forall|e: (Seq<char>, Seq<char>)| r.contains(e) <==> (es.contains(e) && e.0 != id) by {
        if r.contains(e) {
            let j = choose|j: int| 0 <= j < r.len() && r[j] == e;
            if j < k {
                assert(es[j] == e);
            } else {
                assert(es[j + 1] == e);
            }
        }
        if es.contains(e) && e.0 != id {
            let j = choose|j: int| 0 <= j < es.len() && es[j] == e;
            if j < k {
                assert(r[j] == e);
            } else {
                assert(j != k);
                assert(r[j - 1] == e);
            }
        }
    }
    assert forall|a: int, b: int| 0 <= a < r.len() && 0 <= b < r.len() && a != b implies (#[trigger] r[a]).0
        != (#[trigger] r[b]).0 by {
        let a1 = if a < k { a } else { a + 1 };
        let b1 = if b < k { b } else { b + 1 };
        assert(r[a] == es[a1]);
        assert(r[b] == es[b1]);
    }
}

/// Creating an entry whose identifier is free keeps identifiers unique.
pub proof fn law_register_keeps_unique(es: Seq<(Seq<char>, Seq<char>)>, e: (Seq<char>, Seq<char>))
    requires
        unique_ids(es),
        !has_id(es, e.0),
    ensures
        unique_ids(es.push(e)),
        has_id(es.push(e), e.0),
{
    let r = es.push(e);
    assert(r[es.len() as int] == e);
    assert forall|a: int, b: int| 0 <= a < r.len() && 0 <= b < r.len() && a != b implies (#[trigger] r[a]).0
        != (#[trigger] r[b]).0 by {
        if a < es.len() {
            assert(r[a] == es[a]);
        }
        if b < es.len() {
            assert(r[b] == es[b]);
        }
    }
}

} // verus!
