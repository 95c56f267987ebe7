//! Log entries and the fluent surface call sites use to build them.
//!
//! An entry is an ephemeral value: content, an optional header, an optional
//! context (typically source-location metadata), and an optional target
//! filename. It exists only for the duration of one write call. The
//! builder methods mirror the shorthand a call site would otherwise spell
//! out field by field.

use crate::format::opt_string_text;
use crate::format::render_entry;
use crate::format::rendered_entry;
use vstd::prelude::*;

verus! {

/// The log filename used when a call site names none.
pub open spec fn default_filename() -> Seq<char> {
    "debug.log"@
}

/// One diagnostic entry, built by a call site and discarded after its
/// write.
pub struct LogEntry {
    pub filename: Option<String>,
    pub content: String,
    pub header: Option<String>,
    pub context: Option<String>,
}

impl LogEntry {
    /// The filename the entry will be written to: the chosen one, or the
    /// default log file.
    pub open spec fn target_spec(&self) -> Seq<char> {
        match self.filename {
            Some(f) => f@,
            None => default_filename(),
        }
    }

    /// A bare entry: the given content, bound for the default log file,
    /// with no header and no context.
    pub fn new(content: &str) -> (e: LogEntry)
        ensures
            e.filename is None,
            e.content@ == content@,
            e.header is None,
            e.context is None,
    {
        LogEntry { filename: None, content: content.to_owned(), header: None, context: None }
    }

    /// Directs the entry to `filename` instead of the default log file.
    pub fn to_file(self, filename: &str) -> (e: LogEntry)
        ensures
            opt_string_text(e.filename) == Some(filename@),
            e.content@ == self.content@,
            opt_string_text(e.header) == opt_string_text(self.header),
            opt_string_text(e.context) == opt_string_text(self.context),
    {
        LogEntry { filename: Some(filename.to_owned()), ..self }
    }

    /// Frames the entry's content under `header`.
    pub fn with_header(self, header: &str) -> (e: LogEntry)
        ensures
            opt_string_text(e.filename) == opt_string_text(self.filename),
            e.content@ == self.content@,
            opt_string_text(e.header) == Some(header@),
            opt_string_text(e.context) == opt_string_text(self.context),
    {
        LogEntry { header: Some(header.to_owned()), ..self }
    }

    /// Attaches source-location-like metadata to the entry.
    pub fn with_context(self, context: &str) -> (e: LogEntry)
        ensures
            opt_string_text(e.filename) == opt_string_text(self.filename),
            e.content@ == self.content@,
            opt_string_text(e.header) == opt_string_text(self.header),
            opt_string_text(e.context) == Some(context@),
    {
        LogEntry { context: Some(context.to_owned()), ..self }
    }

    /// The filename the entry will be written to.
    pub fn target_filename(&self) -> (r: String)
        ensures
            r@ == self.target_spec(),
    {
        match &self.filename {
            Some(f) => f.clone(),
            None => String::from_str("debug.log"),
        }
    }

    /// Renders the entry's block, exactly as the formatter would render its
    /// parts.
    pub fn render(&self) -> (r: String)
        ensures
            r@ == rendered_entry(
                self.content@,
                opt_string_text(self.header),
                opt_string_text(self.context),
            ),
    {
        let header = match &self.header {
            Some(h) => Some(h.as_str()),
            None => None,
        };
        let context = match &self.context {
            Some(c) => Some(c.as_str()),
            None => None,
        };
        render_entry(self.content.as_str(), header, context)
    }
}

} // verus!
