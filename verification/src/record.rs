use vstd::prelude::*;

verus! {

/// The character that divides a line's key from its value.
pub open spec fn separator() -> char {
    ':'
}

/// A key is well formed when it contains no separator character: the
/// serialized line `key : value` then parses back to the same key and value.
pub open spec fn key_wf(key: Seq<char>) -> bool {
    forall|i: int| 0 <= i < key.len() ==> key[i] != separator()
}

/// The mathematical model of one configuration entry: the key and the raw
/// value of one line, as character sequences.
#[verifier::ext_equal]
pub ghost struct RecordView {
    pub key: Seq<char>,
    pub value: Seq<char>,
}

impl RecordView {
    /// A record is well formed when its key is free of the separator.
    /// Records produced by the parser always are: the key is what stands
    /// before the first separator of the line.
    pub open spec fn wf(self) -> bool {
        key_wf(self.key)
    }
}

/// One configuration entry: a key and its raw value. No trimming or
/// normalization is applied to either; the value may contain further
/// separator characters.
#[derive(Debug, PartialEq, Eq)]
pub struct Record {
    pub key: String,
    pub value: String,
}

impl View for Record {
    type V = RecordView;

    open spec fn view(&self) -> RecordView {
        RecordView { key: self.key@, value: self.value@ }
    }
}

/// The ordered sequence of records of one options file, in file line order.
/// Order matters: the file is rewritten with the same line ordering and the
/// same line count as the input, modulo the one patched value.
#[derive(Debug, PartialEq, Eq)]
pub struct Document {
    pub records: Vec<Record>,
}

impl View for Document {
    type V = Seq<RecordView>;

    open spec fn view(&self) -> Seq<RecordView> {
        Seq::new(self.records@.len(), |i: int| self.records@[i]@)
    }
}

/// Every record of the document has a separator-free key.
pub open spec fn doc_wf(d: Seq<RecordView>) -> bool {
    forall|i: int| 0 <= i < d.len() ==> (#[trigger] d[i]).wf()
}

impl Document {
    /// The number of records, which equals the number of lines of the file.
    pub fn len(&self) -> (n: usize)
        ensures
            n == self@.len(),
    {
        self.records.len()
    }
}

} // verus!
