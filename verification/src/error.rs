use vstd::prelude::*;

verus! {

/// The failure kinds of one pipeline run.
///
/// Every failure is fatal: the run aborts and the options file on disk is
/// left untouched. The I/O variants carry the text of the underlying
/// operating-system error; they are produced by the surrounding program,
/// never by the library itself.
#[derive(Debug, PartialEq, Eq)]
pub enum Error {
    /// The environment variable naming the configuration directory is unset.
    AppDataDir,
    /// The options file does not exist at the expected path.
    FindOptionsFile,
    /// Reading the options file failed.
    ReadOptionsFile(String),
    /// A line of the options file has no `:` separator; the payload is the
    /// 1-indexed number of the first such line.
    MalformedLine(usize),
    /// No record with the key `maxFps` exists in the file.
    MaxFpsOptionMissing,
    /// Writing the corrected options file failed.
    WriteOptionsFile(String),
}

} // verus!
