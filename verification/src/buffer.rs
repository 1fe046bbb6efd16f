//! The text that the viewer shows, as lines.

use crate::text::{lines_of, split_lines, texts};
use vstd::prelude::*;

verus! {

/// The lines of a loaded file, in the order of the file and without their
/// line ends. A buffer is made whole by [`Buffer::load`] and never changed
/// line by line.
pub struct Buffer {
    pub lines: Vec<String>,
}

impl View for Buffer {
    type V = Seq<Seq<char>>;

    /// The lines as sequences of characters.
    open spec fn view(&self) -> Seq<Seq<char>> {
        texts(self.lines@)
    }
}

impl Default for Buffer {
    /// The buffer without lines.
    fn default() -> (buffer: Self)
        ensures
            buffer@ == Seq::<Seq<char>>::empty(),
    {
        let buffer = Self { lines: Vec::new() };
        assert(buffer@ =~= Seq::<Seq<char>>::empty());
        buffer
    }
}

impl Buffer {
    /// The buffer of a file from what reading the file gave: the lines of its
    /// text, or the error of the read.
    pub fn load(source: Result<String, std::io::Error>) -> (loaded: Result<Self, std::io::Error>)
        ensures
            match source {
                Ok(text) => loaded matches Ok(buffer) && buffer@ == lines_of(text@),
                Err(error) => loaded matches Err(same) && same == error,
            },
    {
        match source {
            Ok(contents) => {
                let lines = split_lines(contents.as_str());
                Ok(Self { lines })
            },
            Err(error) => Err(error),
        }
    }

    pub fn is_empty(&self) -> (empty: bool)
        ensures
            empty == (self@.len() == 0),
    {
        self.lines.len() == 0
    }
}

} // verus!
