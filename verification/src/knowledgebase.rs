//! Knowledge base entries: the files of a persona's knowledge base, named and
//! ordered for display.

use vstd::prelude::*;
use vstd::string::*;
use crate::persona::{heading_from, Persona};
use crate::sort::{in_order, sort, sorted, Ordered};
use crate::text::chars_of;
use crate::time::Timestamp;

verus! {

/// One file of a knowledge base.
#[derive(Debug)]
pub struct KnowledgebaseEntry {
    pub file_path: String,
    pub name: String,
    pub modified_at: Timestamp,
}

/// A file of a knowledge base with its text.
#[derive(Debug, Clone)]
pub struct KnowledgebaseFile {
    pub entry: KnowledgebaseEntry,
    pub content: String,
}

impl Clone for KnowledgebaseEntry {
    fn clone(&self) -> (r: Self)
        ensures
            r.file_path@ == self.file_path@,
            r.name@ == self.name@,
            r.modified_at == self.modified_at,
    {
        KnowledgebaseEntry {
            file_path: self.file_path.clone(),
            name: self.name.clone(),
            modified_at: self.modified_at,
        }
    }
}

/// A file name's words set apart: every hyphen and underscore becomes a space.
pub open spec fn spaced(stem: Seq<char>) -> Seq<char> {
    stem.map_values(
        |c: char|
            if c == '-' || c == '_' {
                ' '
            } else {
                c
            },
    )
}

/// The name an entry is shown under: the first heading of the file's text
/// where the text could be read and has one, else the file's name without
/// its extension with its words set apart, else `Unknown`.
pub open spec fn entry_name(content: Option<Seq<char>>, stem: Option<Seq<char>>) -> Seq<char> {
    let heading = match content {
        Some(text) => heading_from(text, 0),
        None => None,
    };
    match heading {
        Some(h) => h,
        None => match stem {
            Some(s) => spaced(s),
            None => "Unknown"@,
        },
    }
}

/// The characters of an optional string slice.
pub open spec fn opt_str(s: Option<&str>) -> Option<Seq<char>> {
    match s {
        Some(t) => Some(t@),
        None => None,
    }
}

/// A file name's words set apart.
fn set_apart(stem: &str) -> (r: String)
    ensures
        r@ == spaced(stem@),
{
    let chars = chars_of(stem);
    let mut out = String::new();
    let mut i: usize = 0;
    while i < chars.len()
        invariant
            i <= chars@.len(),
            chars@ == stem@,
            out@ == spaced(stem@.take(i as int)),
        decreases chars@.len() - i,
    {
        let c = chars[i];
        let ghost before = out@;
        if c == '-' || c == '_' {
            out.push(' ');
        } else {
            out.push(c);
        }
        proof {
            assert(stem@.take(i + 1) =~= stem@.take(i as int).push(c));
            assert(out@ =~= spaced(stem@.take(i + 1)));
        }
        i += 1;
    }
    proof {
        assert(stem@.take(chars@.len() as int) =~= stem@);
    }
    out
}

impl KnowledgebaseEntry {
    /// The entry for the file at `file_path`, last changed at
    /// `modified_at`: `content` is the file's text where it could be read,
    /// `stem` the file's name without its extension where it has one (see
    /// `entry_name`).
    pub fn new(file_path: String, content: Option<&str>, stem: Option<&str>, modified_at: Timestamp) -> (e:
        Self)
        ensures
            e.file_path@ == file_path@,
            e.name@ == entry_name(opt_str(content), opt_str(stem)),
            e.modified_at == modified_at,
    {
        let heading = match content {
            Some(text) => Persona::extract_name(text),
            None => None,
        };
        let name = match heading {
            Some(h) => h,
            None => match stem {
                Some(s) => set_apart(s),
                None => String::from_str("Unknown"),
            },
        };
        KnowledgebaseEntry { file_path, name, modified_at }
    }

    /// Sorts entries by the time of their last change, newest first.
    /// Entries changed at the same instant keep the order they had.
    pub fn sort_newest_first(entries: Vec<KnowledgebaseEntry>) -> (r: Vec<KnowledgebaseEntry>)
        ensures
            r@ == sorted(entries@),
            in_order(r@),
            r@.to_multiset() == entries@.to_multiset(),
    {
        sort(entries)
    }
}

impl Ordered for KnowledgebaseEntry {
    /// Entries come newest first.
    open spec fn comes_before(&self, other: &Self) -> bool {
        other.modified_at.no_later_than(self.modified_at)
    }

    fn le(&self, other: &Self) -> (r: bool) {
        other.modified_at.is_no_later_than(&self.modified_at)
    }

    proof fn lemma_total(a: &Self, b: &Self) {
    }

    proof fn lemma_transitive(a: &Self, b: &Self, c: &Self) {
    }
}

} // verus!
