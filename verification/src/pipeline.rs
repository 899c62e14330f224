use vstd::prelude::*;

use crate::accessor::{found_at, get_max_fps_option, has_field, lemma_found_at_unique, spec_find};
use crate::error::Error;
use crate::parser::{all_lines_wf, first_bad_at, lemma_parsed_doc_wf, parse, spec_parse};
use crate::policy::{
    apply, bad_value, good_value, lemma_good_value_not_bad, needs_patch, spec_patch, target_key,
};
use crate::record::{doc_wf, separator, RecordView};
use crate::serializer::{
    lemma_parse_round_trip, lemma_serialize_parse_line, serialize, spec_serialize,
    spec_serialize_record,
};

verus! {

/// The result of one successful pipeline run.
#[derive(Debug, PartialEq, Eq)]
pub enum Outcome {
    /// The target value was the sentinel and was replaced; the payload holds
    /// the full new file contents, one line per record, to be written back.
    Fixed(Vec<String>),
    /// The target value was already acceptable; nothing is written.
    AlreadyOk,
}

/// The run aborts with a malformed-line failure: some line has no separator.
pub open spec fn run_reports_malformed(lines: Seq<Seq<char>>) -> bool {
    !all_lines_wf(lines)
}

/// The run aborts with a missing-field failure: the file is well formed but
/// no record carries the target key.
pub open spec fn run_reports_missing(lines: Seq<Seq<char>>) -> bool {
    &&& all_lines_wf(lines)
    &&& !has_field(spec_parse(lines), target_key())
}

/// The value of the first target-key record of a well-formed file.
pub open spec fn target_value(lines: Seq<Seq<char>>) -> Seq<char> {
    spec_parse(lines)[spec_find(spec_parse(lines), target_key())].value
}

/// The run patches the file: it is well formed, the target field exists,
/// and its value is the sentinel bad value.
pub open spec fn run_reports_fixed(lines: Seq<Seq<char>>) -> bool {
    &&& all_lines_wf(lines)
    &&& has_field(spec_parse(lines), target_key())
    &&& target_value(lines) == bad_value()
}

/// The run leaves the file alone: it is well formed, the target field
/// exists, and its value is anything but the sentinel.
pub open spec fn run_reports_already_ok(lines: Seq<Seq<char>>) -> bool {
    &&& all_lines_wf(lines)
    &&& has_field(spec_parse(lines), target_key())
    &&& target_value(lines) != bad_value()
}

/// The file contents a fixing run writes back: the parsed document with the
/// target value replaced, serialized in the original order.
pub open spec fn spec_fixed_lines(lines: Seq<Seq<char>>) -> Seq<Seq<char>> {
    spec_serialize(spec_patch(spec_parse(lines)))
}

/// The whole pipeline on the lines of one options file: parse, locate the
/// `maxFps` field, patch it when its value is the sentinel, and serialize
/// the corrected document.
///
/// The caller reads the file into `lines` (line terminators stripped) and,
/// on `Fixed`, replaces the file's contents with the returned lines; on
/// `AlreadyOk` and on every failure it writes nothing.
pub fn run_pipeline(lines: &Vec<String>) -> (r: Result<Outcome, Error>)
    ensures
        (r matches Ok(o) && o is Fixed) <==> run_reports_fixed(lines.deep_view()),
        r matches Ok(Outcome::Fixed(out)) ==> out.deep_view() == spec_fixed_lines(
            lines.deep_view(),
        ),
        (r matches Ok(o) && o is AlreadyOk) <==> run_reports_already_ok(lines.deep_view()),
        (r matches Err(e) && e is MalformedLine) <==> run_reports_malformed(lines.deep_view()),
        r matches Err(Error::MalformedLine(k)) ==> first_bad_at(lines.deep_view(), k - 1),
        (r matches Err(e) && e is MaxFpsOptionMissing) <==> run_reports_missing(
            lines.deep_view(),
        ),
        r matches Err(e) ==> e is MalformedLine || e is MaxFpsOptionMissing,
{
    let ghost lv = lines.deep_view();
    let mut doc = match parse(lines) {
        Ok(d) => d,
        Err(e) => {
            return Err(e);
        },
    };
    let ghost d0 = doc@;
    let idx = match get_max_fps_option(&doc) {
        Ok(i) => i,
        Err(e) => {
            return Err(e);
        },
    };
    proof {
        lemma_found_at_unique(d0, target_key(), idx as int);
    }
    if needs_patch(doc.records[idx].value.as_str()) {
        apply(&mut doc.records[idx]);
        proof {
            assert(doc@ =~~= spec_patch(d0));
        }
        let out = serialize(&doc);
        Ok(Outcome::Fixed(out))
    } else {
        Ok(Outcome::AlreadyOk)
    }
}

/// Exactly one of the four run reports holds of any file, so the pipeline's
/// outcome is total and unambiguous.
pub proof fn lemma_reports_partition(lines: Seq<Seq<char>>)
    ensures
        run_reports_malformed(lines) || run_reports_missing(lines) || run_reports_fixed(lines)
            || run_reports_already_ok(lines),
        run_reports_malformed(lines) ==> !run_reports_missing(lines) && !run_reports_fixed(lines)
            && !run_reports_already_ok(lines),
        run_reports_missing(lines) ==> !run_reports_fixed(lines) && !run_reports_already_ok(lines),
        run_reports_fixed(lines) ==> !run_reports_already_ok(lines),
{
}

/// Idempotence of the no-op path: on a file whose target value is already
/// the good value, the run reports `AlreadyOk`. An `AlreadyOk` run writes
/// nothing, so a second run reads the same lines and this law applies to it
/// unchanged: both runs report `AlreadyOk` and the file contents stay
/// byte-identical throughout.
pub proof fn lemma_noop_idempotent(lines: Seq<Seq<char>>)
    requires
        all_lines_wf(lines),
        has_field(spec_parse(lines), target_key()),
        target_value(lines) == good_value(),
    ensures
        run_reports_already_ok(lines),
{
    lemma_good_value_not_bad();
}

/// Single-field mutation: a fixing run keeps every line but the target
/// record's byte-identical, keeps the line count, and rewrites the target
/// line to the target key, one separator, and the good value.
pub proof fn lemma_single_field_mutation(lines: Seq<Seq<char>>)
    requires
        run_reports_fixed(lines),
    ensures
        spec_fixed_lines(lines).len() == lines.len(),
        forall|j: int|
            0 <= j < lines.len() && j != spec_find(spec_parse(lines), target_key())
                ==> spec_fixed_lines(lines)[j] == lines[j],
        spec_fixed_lines(lines)[spec_find(spec_parse(lines), target_key())] == target_key()
            + seq![separator()] + good_value(),
{
    let d = spec_parse(lines);
    let i = spec_find(d, target_key());
    assert(found_at(d, target_key(), i));
    let p = spec_patch(d);
    assert forall|j: int|
        0 <= j < lines.len() && j != i implies spec_fixed_lines(lines)[j] == lines[j] by {
        assert(p[j] == d[j]);
        lemma_serialize_parse_line(lines[j]);
    }
    assert(spec_serialize_record(p[i]) =~= target_key() + seq![separator()] + good_value());
}

/// Stability of the fix: the file a fixing run writes back is itself a file
/// on which the pipeline reports `AlreadyOk`, so a rerun never patches or
/// rewrites again.
pub proof fn lemma_fixed_then_already_ok(lines: Seq<Seq<char>>)
    requires
        run_reports_fixed(lines),
    ensures
        run_reports_already_ok(spec_fixed_lines(lines)),
{
    let d = spec_parse(lines);
    let i = spec_find(d, target_key());
    assert(found_at(d, target_key(), i));
    let p = spec_patch(d);
    lemma_parsed_doc_wf(lines);
    assert forall|j: int| 0 <= j < p.len() implies (#[trigger] p[j]).wf() by {
        if j != i {
            assert(p[j] == d[j]);
        } else {
            assert(p[j].key == d[i].key);
        }
    }
    lemma_parse_round_trip(p);
    assert forall|j: int| 0 <= j < i implies (#[trigger] p[j]).key != target_key() by {
        assert(p[j] == d[j]);
    }
    assert(found_at(p, target_key(), i));
    lemma_found_at_unique(p, target_key(), i);
    lemma_good_value_not_bad();
}

} // verus!
