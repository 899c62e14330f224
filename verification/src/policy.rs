use vstd::prelude::*;

use crate::accessor::{spec_find, str_eq};
use crate::record::{Record, RecordView};

verus! {

/// The key of the one field this utility patches.
pub open spec fn target_key() -> Seq<char> {
    "maxFps"@
}

/// The sentinel value that marks the field as misconfigured.
pub open spec fn bad_value() -> Seq<char> {
    "0"@
}

/// The replacement written when the sentinel is found.
pub open spec fn good_value() -> Seq<char> {
    "120"@
}

/// The good value is not the sentinel, so a freshly patched field never
/// asks to be patched again.
pub proof fn lemma_good_value_not_bad()
    ensures
        good_value() != bad_value(),
{
    reveal_strlit("120");
    reveal_strlit("0");
    assert(good_value().len() == 3);
    assert(bad_value().len() == 1);
}

/// The document after the patch: the value of the first `maxFps` record is
/// replaced by the good value, every other record and the key itself are
/// untouched. Meaningful on documents that contain the target field.
pub open spec fn spec_patch(d: Seq<RecordView>) -> Seq<RecordView> {
    let i = spec_find(d, target_key());
    d.update(i, RecordView { key: d[i].key, value: good_value() })
}

/// True exactly when the value is the sentinel bad value, i.e. when the
/// record must be patched and the file rewritten.
pub fn needs_patch(value: &str) -> (r: bool)
    ensures
        r == (value@ == bad_value()),
{
    str_eq(value, "0")
}

/// Patches one record in place: the value becomes the good value, the key
/// stays as it was.
pub fn apply(rec: &mut Record)
    ensures
        final (rec)@.key == old(rec)@.key,
        final (rec)@.value == good_value(),
{
    rec.value = "120".to_owned();
}

} // verus!
