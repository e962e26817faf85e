//! Build descriptors: generated text files that are patched line by line.
//!
//! A descriptor is the list of the lines of a file. A line is addressed by
//! its position, counted from 0, and a patch either replaces a line that is
//! there or adds one at the end.

use crate::text::{join, join_text, lemma_join_split, split, split_text, texts};
use vstd::prelude::*;
use vstd::string::*;

verus! {

/// The text that separates two lines.
pub open spec fn line_break() -> Seq<char> {
    seq!['\n']
}

/// The lines of a file's content.
pub open spec fn lines_of(content: Seq<char>) -> Seq<Seq<char>> {
    split(content, '\n')
}

/// The content of a file with the lines `lines`.
pub open spec fn content_of(lines: Seq<Seq<char>>) -> Seq<char> {
    join(lines, line_break())
}

/// The lines of a generated build file, in order.
#[derive(Debug, Clone, PartialEq, Eq)]
pub struct BuildDescriptor {
    lines: Vec<String>,
}

impl View for BuildDescriptor {
    type V = Seq<Seq<char>>;

    closed spec fn view(&self) -> Seq<Seq<char>> {
        texts(self.lines@)
    }
}

impl BuildDescriptor {
    /// Cuts the content of a file into its lines.
    ///
    /// A descriptor has at least one line, and writing it out again gives
    /// the content back unchanged.
    pub fn parse(content: &str) -> (descriptor: BuildDescriptor)
        ensures
            descriptor@ == lines_of(content@),
            descriptor@.len() >= 1,
            content_of(descriptor@) == content@,
    {
        proof {
            lemma_join_split(content@, '\n');
            crate::text::lemma_split_nonempty(content@, '\n');
        }
        BuildDescriptor { lines: split_text(content, '\n') }
    }

    /// The number of lines.
    pub fn line_count(&self) -> (count: usize)
        ensures
            count == self@.len(),
    {
        self.lines.len()
    }

    /// The line at `index`, if the descriptor has that many lines.
    pub fn line(&self, index: usize) -> (line: Option<&str>)
        ensures
            match line {
                Some(text) => index < self@.len() && text@ == self@[index as int],
                None => index >= self@.len(),
            },
    {
        if index < self.lines.len() {
            Some(self.lines[index].as_str())
        } else {
            None
        }
    }

    /// Replaces the line at `index` by `text`.
    ///
    /// Answers whether the line was there. Where it was not, the descriptor
    /// is left as it was.
    pub fn replace_line(&mut self, index: usize, text: &str) -> (replaced: bool)
        ensures
            replaced == (index < old(self)@.len()),
            replaced ==> final(self)@ == old(self)@.update(index as int, text@),
            !replaced ==> final(self)@ == old(self)@,
    {
        if index < self.lines.len() {
            self.lines.set(index, text.to_owned());
            true
        } else {
            false
        }
    }

    /// Adds `text` as a new last line.
    pub fn push_line(&mut self, text: &str)
        ensures
            final(self)@ == old(self)@.push(text@),
    {
        self.lines.push(text.to_owned());
    }

    /// The content of the file: the lines with a line break between each
    /// two of them.
    pub fn render(&self) -> (content: String)
        ensures
            content@ == content_of(self@),
    {
        proof {
            reveal_strlit("\n");
            assert("\n"@ =~= line_break());
        }
        join_text(&self.lines, "\n")
    }
}

} // verus!
