use vstd::prelude::*;

use crate::error::Error;
use crate::record::{separator, Document, Record, RecordView, doc_wf};

verus! {

/// Index `i` is the first occurrence of the separator on the line.
pub open spec fn sep_at(line: Seq<char>, i: int) -> bool {
    &&& 0 <= i < line.len()
    &&& line[i] == separator()
    &&& forall|j: int| 0 <= j < i ==> line[j] != separator()
}

/// The line contains a separator, i.e. it parses into a record.
pub open spec fn line_has_sep(line: Seq<char>) -> bool {
    exists|i: int| sep_at(line, i)
}

/// The position of the first separator of a well-formed line.
pub open spec fn spec_sep_pos(line: Seq<char>) -> int {
    choose|i: int| sep_at(line, i)
}

/// At most one index is the first separator position.
pub proof fn lemma_sep_pos_unique(line: Seq<char>, i: int)
    requires
        sep_at(line, i),
    ensures
        spec_sep_pos(line) == i,
{
    assert(line_has_sep(line));
    let k = spec_sep_pos(line);
    assert(sep_at(line, k));
    if k < i {
        assert(line[k] != separator());
    }
    if i < k {
        assert(line[i] != separator());
    }
}

/// The record a well-formed line parses to: the key is what stands before
/// the first separator, the value is everything after it, verbatim.
pub open spec fn spec_parse_line(line: Seq<char>) -> RecordView {
    RecordView {
        key: line.subrange(0, spec_sep_pos(line)),
        value: line.subrange(spec_sep_pos(line) + 1, line.len() as int),
    }
}

/// Every line of the file contains a separator.
pub open spec fn all_lines_wf(lines: Seq<Seq<char>>) -> bool {
    forall|i: int| 0 <= i < lines.len() ==> line_has_sep(#[trigger] lines[i])
}

/// The document a well-formed file parses to, one record per line, in order.
pub open spec fn spec_parse(lines: Seq<Seq<char>>) -> Seq<RecordView> {
    Seq::new(lines.len(), |i: int| spec_parse_line(lines[i]))
}

/// Index `i` (0-based) is the first line without a separator.
pub open spec fn first_bad_at(lines: Seq<Seq<char>>, i: int) -> bool {
    &&& 0 <= i < lines.len()
    &&& !line_has_sep(lines[i])
    &&& forall|j: int| 0 <= j < i ==> line_has_sep(#[trigger] lines[j])
}

/// A parsed line has a separator-free key.
pub proof fn lemma_parsed_line_wf(line: Seq<char>)
    requires
        line_has_sep(line),
    ensures
        spec_parse_line(line).wf(),
{
    let i = spec_sep_pos(line);
    assert(sep_at(line, i));
}

/// Every record of a parsed document is well formed.
pub proof fn lemma_parsed_doc_wf(lines: Seq<Seq<char>>)
    requires
        all_lines_wf(lines),
    ensures
        doc_wf(spec_parse(lines)),
{
    assert forall|i: int| 0 <= i < spec_parse(lines).len() implies (#[trigger] spec_parse(
        lines,
    )[i]).wf() by {
        lemma_parsed_line_wf(lines[i]);
    }
}

/// Returns the position of the first separator of the line, or `None` when
/// the line contains no separator at all.
pub fn find_separator(line: &str) -> (r: Option<usize>)
    ensures
        match r {
            Some(i) => sep_at(line@, i as int),
            None => !line_has_sep(line@),
        },
{
    let n = line.unicode_len();
    let mut i: usize = 0;
    while i < n
        invariant
            i <= n,
            n == line@.len(),
            forall|j: int| 0 <= j < i ==> line@[j] != separator(),
        decreases n - i,
    {
        if line.get_char(i) == ':' {
            return Some(i);
        }
        i = i + 1;
    }
    None
}

/// Splits one line at its first separator into a record; `None` when the
/// line has no separator. No characters are trimmed or altered: the key is
/// the prefix before the separator, the value the suffix after it.
pub fn parse_line(line: &str) -> (r: Option<Record>)
    ensures
        r is Some <==> line_has_sep(line@),
        r matches Some(rec) ==> rec@ == spec_parse_line(line@) && rec@.wf(),
{
    match find_separator(line) {
        Some(i) => {
            let n = line.unicode_len();
            let key = line.substring_char(0, i).to_owned();
            let value = line.substring_char(i + 1, n).to_owned();
            let rec = Record { key, value };
            proof {
                lemma_sep_pos_unique(line@, i as int);
                assert(rec@ =~= spec_parse_line(line@));
            }
            Some(rec)
        },
        None => None,
    }
}

/// Parses the whole file, one record per line, preserving line order.
///
/// Fails with `Error::MalformedLine` carrying the 1-indexed number of the
/// first separator-free line; no partial document is returned in that case.
pub fn parse(lines: &Vec<String>) -> (r: Result<Document, Error>)
    ensures
        r is Ok <==> all_lines_wf(lines.deep_view()),
        r matches Ok(doc) ==> doc@ == spec_parse(lines.deep_view()) && doc_wf(doc@),
        r matches Err(e) ==> e matches Error::MalformedLine(k) && first_bad_at(
            lines.deep_view(),
            k - 1,
        ),
{
    let ghost lv = lines.deep_view();
    let n = lines.len();
    let mut records: Vec<Record> = Vec::new();
    let mut i: usize = 0;
    while i < n
        invariant
            i <= n,
            n == lines@.len(),
            lv == lines.deep_view(),
            records@.len() == i,
            forall|j: int| 0 <= j < i ==> line_has_sep(#[trigger] lv[j]),
            forall|j: int| 0 <= j < i ==> (#[trigger] records@[j])@ == spec_parse_line(lv[j]),
        decreases n - i,
    {
        match parse_line(lines[i].as_str()) {
            Some(rec) => {
                records.push(rec);
            },
            None => {
                proof {
                    assert(!line_has_sep(lv[i as int]));
                    assert(first_bad_at(lv, i as int));
                }
                return Err(Error::MalformedLine(i + 1));
            },
        }
        i = i + 1;
    }
    let doc = Document { records };
    proof {
        assert(doc@ =~= spec_parse(lv));
        lemma_parsed_doc_wf(lv);
    }
    Ok(doc)
}

} // verus!
