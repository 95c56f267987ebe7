//! Write planner: the computing half of the file writer.
//!
//! A write call consults the registry once to decide whether its file must
//! be truncated, renders its entry, and hands both to the shell, which
//! performs the truncation, the append-mode open, the buffered write and
//! the flush under the registry's lock. The model below states what that
//! sequence does to the file's text, and the laws derive the truncate-once
//! guarantees from it.

use crate::format::opt_text;
use crate::format::render_entry;
use crate::format::rendered_entry;
use crate::registry::WriteRegistry;
use crate::registry::after_write;
use crate::registry::truncates;
use vstd::prelude::*;

verus! {

/// What one write does to a file's on-disk text: the file's first write
/// this run replaces any prior content with the rendered entry; every later
/// write appends its entry to what is already there.
pub open spec fn contents_after_write(prev: Seq<char>, truncate: bool, entry: Seq<char>) -> Seq<
    char,
> {
    if truncate {
        entry
    } else {
        prev + entry
    }
}

/// The file's text after a run of further entries, each appended in turn.
pub open spec fn contents_after_appends(initial: Seq<char>, entries: Seq<Seq<char>>) -> Seq<char>
    decreases entries.len(),
{
    if entries.len() == 0 {
        initial
    } else {
        contents_after_appends(initial + entries[0], entries.drop_first())
    }
}

/// One planned write: whether the shell must truncate the file before
/// opening it in append mode, and the rendered block it must append.
pub struct WritePlan {
    pub truncate: bool,
    pub rendered: String,
}

/// Plans one write call: decides truncation by the single check-and-record
/// registry step and renders the entry. The plan's truncation flag is set
/// exactly when `filename` had not been written this run, and its rendered
/// text is exactly the formatted block for the entry.
pub fn plan_write(
    registry: &mut WriteRegistry,
    filename: &str,
    content: &str,
    header: Option<&str>,
    context: Option<&str>,
) -> (p: WritePlan)
    ensures
        p.truncate == truncates(old(registry).names(), filename@),
        p.truncate == !old(registry).initialized(filename@),
        p.rendered@ == rendered_entry(content@, opt_text(header), opt_text(context)),
        final(registry).names() == after_write(old(registry).names(), filename@),
        final(registry).initialized(filename@),
{
    let truncate = registry.should_truncate(filename);
    let rendered = render_entry(content, header, context);
    WritePlan { truncate, rendered }
}

/// Law: the first write to a filename not yet seen this run leaves the file
/// holding exactly that write's rendered entry — whatever the file held
/// before, from an earlier run, is gone.
pub proof fn lemma_first_write_contents(
    files: Set<Seq<char>>,
    name: Seq<char>,
    prev: Seq<char>,
    entry: Seq<char>,
)
    requires
        !files.contains(name),
    ensures
        contents_after_write(prev, truncates(files, name), entry) == entry,
{
}

/// Law: a run of appended writes accumulates: the file ends holding its
/// initial text followed by every appended entry in order — none lost, none
/// duplicated, none reordered.
pub proof fn lemma_appends_accumulate(initial: Seq<char>, entries: Seq<Seq<char>>)
    ensures
        contents_after_appends(initial, entries) == initial + entries.flatten(),
    decreases entries.len(),
{
    if entries.len() == 0 {
        assert(initial + entries.flatten() =~= initial);
    } else {
        lemma_appends_accumulate(initial + entries[0], entries.drop_first());
        assert((initial + entries[0]) + entries.drop_first().flatten() =~= initial
            + entries.flatten());
    }
}

/// Law: after a file's first write this run and any number of further
/// writes to it, the file holds the first entry followed by the later
/// entries in order, and nothing else.
pub proof fn lemma_write_sequence(prev: Seq<char>, first_entry: Seq<char>, rest: Seq<Seq<char>>)
    ensures
        contents_after_appends(contents_after_write(prev, true, first_entry), rest) == first_entry
            + rest.flatten(),
{
    lemma_appends_accumulate(first_entry, rest);
}

} // verus!
