//! The log record handed to the renderers.

use vstd::prelude::*;

verus! {

/// Severity of a record, from least to most severe.
#[derive(Clone, Copy, Debug, PartialEq, Eq, Structural)]
pub enum Level {
    Trace,
    Debug,
    Info,
    Warn,
    Error,
}

/// One log event: its severity, its rendered message, its attributes in the
/// order they were delivered, and its source location.
pub struct Record {
    pub level: Level,
    pub message: String,
    pub key_values: Vec<(String, String)>,
    pub file: Option<String>,
    pub line: Option<u32>,
}

/// The mathematical view of a record.
pub struct RecordView {
    pub level: Level,
    pub message: Seq<char>,
    pub key_values: Seq<(Seq<char>, Seq<char>)>,
    pub file: Option<Seq<char>>,
    pub line: Option<u32>,
}

pub open spec fn pair_view(p: (String, String)) -> (Seq<char>, Seq<char>) {
    (p.0@, p.1@)
}

pub open spec fn pairs_view(kvs: Seq<(String, String)>) -> Seq<(Seq<char>, Seq<char>)> {
    kvs.map_values(|p: (String, String)| pair_view(p))
}

pub open spec fn file_view(f: Option<String>) -> Option<Seq<char>> {
    match f {
        Some(s) => Some(s@),
        None => None,
    }
}

impl View for Record {
    type V = RecordView;

    open spec fn view(&self) -> RecordView {
        RecordView {
            level: self.level,
            message: self.message@,
            key_values: pairs_view(self.key_values@),
            file: file_view(self.file),
            line: self.line,
        }
    }
}

impl Record {
    /// A record with no attributes and no source location.
    pub fn new(level: Level, message: String) -> (r: Record)
        ensures
            r@.level == level,
            r@.message == message@,
            r@.key_values.len() == 0,
            r@.file is None,
            r@.line is None,
    {
        Record { level, message, key_values: Vec::new(), file: None, line: None }
    }
}

} // verus!
