use vstd::prelude::*;

use crate::error::Error;
use crate::record::{Document, RecordView};
use crate::policy::target_key;

verus! {

/// Index `i` is the first record of the document whose key equals `key`
/// exactly (case-sensitive, whole-key comparison, not a prefix match).
pub open spec fn found_at(d: Seq<RecordView>, key: Seq<char>, i: int) -> bool {
    &&& 0 <= i < d.len()
    &&& d[i].key == key
    &&& forall|j: int| 0 <= j < i ==> (#[trigger] d[j]).key != key
}

/// Some record of the document has exactly the key `key`.
pub open spec fn has_field(d: Seq<RecordView>, key: Seq<char>) -> bool {
    exists|i: int| found_at(d, key, i)
}

/// The index of the first record whose key is `key`, on documents where one
/// exists.
pub open spec fn spec_find(d: Seq<RecordView>, key: Seq<char>) -> int {
    choose|i: int| found_at(d, key, i)
}

/// At most one index is the first occurrence of a key.
pub proof fn lemma_found_at_unique(d: Seq<RecordView>, key: Seq<char>, i: int)
    requires
        found_at(d, key, i),
    ensures
        spec_find(d, key) == i,
{
    assert(has_field(d, key));
    let k = spec_find(d, key);
    assert(found_at(d, key, k));
    if k < i {
        assert(d[k].key != key);
    }
    if i < k {
        assert(d[i].key != key);
    }
}

/// Character-exact string comparison, so that contracts can speak of key
/// equality as equality of character sequences.
pub fn str_eq(a: &str, b: &str) -> (r: bool)
    ensures
        r == (a@ == b@),
{
    let na = a.unicode_len();
    let nb = b.unicode_len();
    if na != nb {
        return false;
    }
    let mut i: usize = 0;
    while i < na
        invariant
            i <= na,
            na == a@.len(),
            na == b@.len(),
            forall|j: int| 0 <= j < i ==> a@[j] == b@[j],
        decreases na - i,
    {
        if a.get_char(i) != b.get_char(i) {
            return false;
        }
        i = i + 1;
    }
    proof {
        assert(a@ =~= b@);
    }
    true
}

/// Linear scan for the first record whose key equals `key` exactly.
pub fn find_record(doc: &Document, key: &str) -> (r: Option<usize>)
    ensures
        r is Some <==> has_field(doc@, key@),
        r matches Some(i) ==> found_at(doc@, key@, i as int),
{
    let n = doc.records.len();
    let mut i: usize = 0;
    while i < n
        invariant
            i <= n,
            n == doc@.len(),
            forall|j: int| 0 <= j < i ==> (#[trigger] doc@[j]).key != key@,
        decreases n - i,
    {
        if str_eq(doc.records[i].key.as_str(), key) {
            proof {
                assert(found_at(doc@, key@, i as int));
            }
            return Some(i);
        }
        i = i + 1;
    }
    None
}

/// Locates the `maxFps` record. The returned index addresses both the
/// record within the document and the line within the file, since parsing
/// maps lines to records one to one, in order.
///
/// Fails with `Error::MaxFpsOptionMissing` exactly when no record carries
/// the target key; the file is then unusable and the run aborts.
pub fn get_max_fps_option(doc: &Document) -> (r: Result<usize, Error>)
    ensures
        r is Ok <==> has_field(doc@, target_key()),
        r matches Ok(i) ==> found_at(doc@, target_key(), i as int),
        r matches Err(e) ==> e == Error::MaxFpsOptionMissing,
{
    match find_record(doc, "maxFps") {
        Some(i) => Ok(i),
        None => Err(Error::MaxFpsOptionMissing),
    }
}

/// Reads the value of the `maxFps` record, or fails with
/// `Error::MaxFpsOptionMissing` exactly when the document has no such record.
pub fn get_max_fps_value(doc: &Document) -> (r: Result<String, Error>)
    ensures
        r is Ok <==> has_field(doc@, target_key()),
        r matches Ok(v) ==> v@ == doc@[spec_find(doc@, target_key())].value,
        r matches Err(e) ==> e == Error::MaxFpsOptionMissing,
{
    match get_max_fps_option(doc) {
        Ok(i) => {
            proof {
                lemma_found_at_unique(doc@, target_key(), i as int);
            }
            Ok(doc.records[i].value.clone())
        },
        Err(e) => Err(e),
    }
}

} // verus!
