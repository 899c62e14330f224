use vstd::prelude::*;

use crate::parser::{
    all_lines_wf, lemma_sep_pos_unique, line_has_sep, sep_at, spec_parse, spec_parse_line,
    spec_sep_pos,
};
use crate::record::{doc_wf, separator, Document, Record, RecordView};

verus! {

/// The line a record serializes to: the key, one separator, the value.
pub open spec fn spec_serialize_record(r: RecordView) -> Seq<char> {
    r.key + seq![separator()] + r.value
}

/// The file a document serializes to, one line per record, in order.
pub open spec fn spec_serialize(d: Seq<RecordView>) -> Seq<Seq<char>> {
    Seq::new(d.len(), |i: int| spec_serialize_record(d[i]))
}

/// Renders one record as `key` + `:` + `value`, with no other characters.
pub fn serialize_record(rec: &Record) -> (line: String)
    ensures
        line@ == spec_serialize_record(rec@),
{
    let mut line = rec.key.clone();
    line.append(":");
    line.append(rec.value.as_str());
    proof {
        reveal_strlit(":");
        assert(":"@ =~= seq![separator()]);
        assert(line@ =~= spec_serialize_record(rec@));
    }
    line
}

/// Renders the whole document back to file lines, in record order.
pub fn serialize(doc: &Document) -> (lines: Vec<String>)
    ensures
        lines.deep_view() == spec_serialize(doc@),
{
    let n = doc.records.len();
    let mut lines: Vec<String> = Vec::new();
    let mut i: usize = 0;
    while i < n
        invariant
            i <= n,
            n == doc@.len(),
            lines@.len() == i,
            forall|j: int| 0 <= j < i ==> (#[trigger] lines@[j])@ == spec_serialize_record(
                doc@[j],
            ),
        decreases n - i,
    {
        let line = serialize_record(&doc.records[i]);
        lines.push(line);
        i = i + 1;
    }
    proof {
        assert(lines.deep_view() =~= spec_serialize(doc@));
    }
    lines
}

/// On a well-formed line, serializing the parsed record reproduces the line
/// exactly: the separator the parser split on is the one the serializer
/// writes back.
pub proof fn lemma_serialize_parse_line(line: Seq<char>)
    requires
        line_has_sep(line),
    ensures
        spec_serialize_record(spec_parse_line(line)) == line,
{
    let i = spec_sep_pos(line);
    assert(sep_at(line, i));
    assert(spec_serialize_record(spec_parse_line(line)) =~= line);
}

/// On a well-formed record, parsing the serialized line reproduces the
/// record exactly: the first separator of the line is the one the
/// serializer wrote, because the key contains none.
pub proof fn lemma_parse_serialize_line(r: RecordView)
    requires
        r.wf(),
    ensures
        line_has_sep(spec_serialize_record(r)),
        spec_parse_line(spec_serialize_record(r)) == r,
{
    let line = spec_serialize_record(r);
    let k = r.key.len() as int;
    assert(line[k] == separator());
    assert forall|j: int| 0 <= j < k implies line[j] != separator() by {
        assert(line[j] == r.key[j]);
    }
    assert(sep_at(line, k));
    lemma_sep_pos_unique(line, k);
    assert(line.subrange(0, k) =~= r.key);
    assert(line.subrange(k + 1, line.len() as int) =~= r.value);
    assert(spec_parse_line(line) =~= r);
}

/// Round-trip law, parse after serialize: any well-formed document — and
/// every document the parser produces is well formed — re-parses from its
/// own serialized lines unchanged.
pub proof fn lemma_parse_round_trip(d: Seq<RecordView>)
    requires
        doc_wf(d),
    ensures
        all_lines_wf(spec_serialize(d)),
        spec_parse(spec_serialize(d)) == d,
{
    let lines = spec_serialize(d);
    assert forall|i: int| 0 <= i < lines.len() implies line_has_sep(#[trigger] lines[i]) by {
        lemma_parse_serialize_line(d[i]);
    }
    assert forall|i: int| 0 <= i < d.len() implies spec_parse(lines)[i] == d[i] by {
        lemma_parse_serialize_line(d[i]);
    }
    assert(spec_parse(lines) =~= d);
}

/// Round-trip law, serialize after parse: a well-formed file is reproduced
/// byte for byte by serializing the document it parses to.
pub proof fn lemma_serialize_round_trip(lines: Seq<Seq<char>>)
    requires
        all_lines_wf(lines),
    ensures
        spec_serialize(spec_parse(lines)) == lines,
{
    assert forall|i: int| 0 <= i < lines.len() implies spec_serialize(spec_parse(lines))[i]
        == lines[i] by {
        lemma_serialize_parse_line(lines[i]);
    }
    assert(spec_serialize(spec_parse(lines)) =~= lines);
}

} // verus!
