//! The view: a buffer, the size of the screen, and a flag that says whether
//! the screen has to be drawn again.
//!
//! A frame is drawn whole, row by row, or not at all. Each row is three
//! operations: go to its start, wipe it, write its text.

use crate::buffer::Buffer;
use crate::command::Op;
use crate::term::{
    clear_line, line_ops, move_carret_to, print, Position, ScreenSize, Terminal,
};
use crate::text::{center, centered, lines_of, truncate, truncated};
use vstd::prelude::*;
use vstd::view::View as _;

verus! {

/// The name that the welcome banner shows.
pub const NAME: &'static str = "termview";

/// The version that the welcome banner shows.
pub const VERSION: &'static str = "0.1.0";

/// The text of a row that has nothing to show.
pub open spec fn filler() -> Seq<char> {
    seq!['~']
}

/// The message in the middle of the welcome banner.
pub open spec fn welcome_message() -> Seq<char> {
    NAME@ + " editor - version "@ + VERSION@
}

/// The welcome banner for a screen of `width` columns: a tilde, then the
/// message centred in the columns that are left, all cut to `width`. For a
/// screen without columns it is a single space.
pub open spec fn banner(width: nat) -> Seq<char> {
    if width == 0 {
        seq![' ']
    } else {
        truncated(filler() + centered(welcome_message(), (width - 1) as nat), width)
    }
}

/// The text of row `row` where the buffer holds lines: the line of that
/// index cut to the width of the screen, or the filler below the last line.
pub open spec fn buffer_row(lines: Seq<Seq<char>>, size: ScreenSize, row: int) -> Seq<char> {
    if 0 <= row < lines.len() {
        truncated(lines[row], size.width as nat)
    } else {
        filler()
    }
}

/// The text of row `row` of the welcome screen: the banner in the row a third
/// of the way down, the filler in every other.
pub open spec fn welcome_row(size: ScreenSize, row: int) -> Seq<char> {
    if row == size.height / 3 {
        banner(size.width as nat)
    } else {
        filler()
    }
}

/// The first `count` rows of the screen for a buffer with lines.
pub open spec fn buffer_rows(lines: Seq<Seq<char>>, size: ScreenSize, count: nat) -> Seq<Seq<Op>> {
    Seq::new(count, |row: int| line_ops(row as u16, buffer_row(lines, size, row)))
}

/// The first `count` rows of the welcome screen.
pub open spec fn welcome_rows(size: ScreenSize, count: nat) -> Seq<Seq<Op>> {
    Seq::new(count, |row: int| line_ops(row as u16, welcome_row(size, row)))
}

/// A [`View`] as a value of specifications.
pub struct ViewModel {
    /// The lines of the buffer.
    pub lines: Seq<Seq<char>>,
    /// The size of the screen as it was last told.
    pub size: ScreenSize,
    /// Whether the screen has to be drawn again.
    pub need_redraw: bool,
}

impl ViewModel {
    /// The rows of one frame, top to bottom: the welcome screen for a buffer
    /// without lines, else the lines of the buffer.
    pub open spec fn rows(self) -> Seq<Seq<Op>> {
        if self.lines.len() == 0 {
            welcome_rows(self.size, self.size.height as nat)
        } else {
            buffer_rows(self.lines, self.size, self.size.height as nat)
        }
    }

    /// One frame: the operations of its rows, one row after the other.
    pub open spec fn frame(self) -> Seq<Op> {
        self.rows().flatten()
    }

    /// Whether [`View::render`] draws: the flag is set and the screen has
    /// rows and columns.
    pub open spec fn draws(self) -> bool {
        self.need_redraw && self.size.width > 0 && self.size.height > 0
    }

    /// What [`View::render`] queues.
    pub open spec fn output(self) -> Seq<Op> {
        if self.draws() {
            self.frame()
        } else {
            Seq::empty()
        }
    }

    /// The view after [`View::render`].
    pub open spec fn rendered(self) -> ViewModel {
        if self.draws() {
            ViewModel { need_redraw: false, ..self }
        } else {
            self
        }
    }

    /// The view after [`View::load`], given the text that was read, if any
    /// was.
    pub open spec fn loaded(self, text: Option<Seq<char>>) -> ViewModel {
        ViewModel {
            lines: match text {
                Some(text) => lines_of(text),
                None => self.lines,
            },
            need_redraw: true,
            ..self
        }
    }

    /// The view after [`View::resize`].
    pub open spec fn resized(self, to: ScreenSize) -> ViewModel {
        ViewModel { size: to, need_redraw: true, ..self }
    }
}

/// The text that a read gave, if it gave one.
pub open spec fn text_read(source: Result<String, std::io::Error>) -> Option<Seq<char>> {
    match source {
        Ok(text) => Some(text@),
        Err(_) => None,
    }
}

pub struct View {
    buf: Buffer,
    need_redraw: bool,
    size: ScreenSize,
}

impl vstd::view::View for View {
    type V = ViewModel;

    closed spec fn view(&self) -> ViewModel {
        ViewModel { lines: self.buf@, size: self.size, need_redraw: self.need_redraw }
    }
}

impl Default for View {
    /// The view of an empty buffer on a screen whose size is not known. It
    /// has to be drawn.
    fn default() -> (view: Self)
        ensures
            view@ == (ViewModel {
                lines: Seq::empty(),
                size: ScreenSize { height: 0, width: 0 },
                need_redraw: true,
            }),
    {
        Self { buf: Buffer::default(), need_redraw: true, size: ScreenSize::default() }
    }
}

/// The welcome banner for a screen of `width` columns.
pub fn welcome_banner(width: u16) -> (text: String)
    ensures
        text@ == banner(width as nat),
{
    if width == 0 {
        proof {
            reveal_strlit(" ");
        }
        assert(" "@ =~= seq![' ']);
        return " ".to_owned();
    }
    let mut message = NAME.to_owned();
    message.append(" editor - version ");
    message.append(VERSION);
    let middle = center(message.as_str(), (width - 1) as usize);
    proof {
        reveal_strlit("~");
    }
    assert("~"@ =~= filler());
    let mut line = "~".to_owned();
    line.append(middle.as_str());
    truncate(line.as_str(), width as usize)
}

impl View {
    /// Queues one frame if the screen has to be drawn and has rows and
    /// columns, and clears the flag; does nothing otherwise.
    pub fn render(&mut self, term: &mut Terminal)
        ensures
            final(self)@ == old(self)@.rendered(),
            final(term)@ == old(term)@ + old(self)@.output(),
    {
        if !self.need_redraw {
            assert(term@ =~= old(term)@ + old(self)@.output());
            return ;
        }
        if self.size.width == 0 || self.size.height == 0 {
            assert(term@ =~= old(term)@ + old(self)@.output());
            return ;
        }
        if self.buf.is_empty() {
            View::render_welcome_screen(term, self.size);
        } else {
            self.render_buffer(term);
        }
        self.need_redraw = false;
    }

    /// Queues the rows of the screen for the buffer as it is: each line that
    /// the screen has a row for, cut to the width of the screen, and the
    /// filler in the rows below.
    pub fn render_buffer(&self, term: &mut Terminal)
        ensures
            final(term)@ == old(term)@ + buffer_rows(
                self@.lines,
                self@.size,
                self@.size.height as nat,
            ).flatten(),
    {
        let ScreenSize { height, width } = self.size;
        let mut row: u16 = 0;
        assert(term@ =~= old(term)@ + buffer_rows(self@.lines, self@.size, 0).flatten());
        while row < height
            invariant
                row <= height,
                height == self@.size.height,
                width == self@.size.width,
                term@ == old(term)@ + buffer_rows(self@.lines, self@.size, row as nat).flatten(),
            decreases height - row,
        {
            let ghost before = buffer_rows(self@.lines, self@.size, row as nat);
            let ghost this = line_ops(row, buffer_row(self@.lines, self@.size, row as int));
            if (row as usize) < self.buf.lines.len() {
                let string = truncate(self.buf.lines[row as usize].as_str(), width as usize);
                View::draw_row(term, row, string.as_str());
            } else {
                View::draw_empty_row(term, row);
            }
            proof {
                assert(buffer_rows(self@.lines, self@.size, (row + 1) as nat) =~= before.push(this));
                before.lemma_flatten_push(this);
                assert(term@ =~= old(term)@ + before.push(this).flatten());
            }
            row = row + 1;
        }
    }

    /// Queues the rows of the welcome screen for a screen of the given size.
    pub fn render_welcome_screen(term: &mut Terminal, size: ScreenSize)
        ensures
            final(term)@ == old(term)@ + welcome_rows(size, size.height as nat).flatten(),
    {
        let ScreenSize { height, width } = size;
        let mut row: u16 = 0;
        assert(term@ =~= old(term)@ + welcome_rows(size, 0).flatten());
        while row < height
            invariant
                row <= height,
                height == size.height,
                width == size.width,
                term@ == old(term)@ + welcome_rows(size, row as nat).flatten(),
            decreases height - row,
        {
            let ghost before = welcome_rows(size, row as nat);
            let ghost this = line_ops(row, welcome_row(size, row as int));
            if row == height / 3 {
                View::draw_welcome_msg(term, row, width);
            } else {
                View::draw_empty_row(term, row);
            }
            proof {
                assert(welcome_rows(size, (row + 1) as nat) =~= before.push(this));
                before.lemma_flatten_push(this);
                assert(term@ =~= old(term)@ + before.push(this).flatten());
            }
            row = row + 1;
        }
    }

    /// Queues the welcome banner as the content of row `at`.
    pub fn draw_welcome_msg(term: &mut Terminal, at: u16, width: u16)
        ensures
            final(term)@ == old(term)@ + line_ops(at, banner(width as nat)),
    {
        let welcome_msg = welcome_banner(width);
        View::draw_row(term, at, welcome_msg.as_str())
    }

    /// Queues the filler as the content of row `at`.
    pub fn draw_empty_row(term: &mut Terminal, at: u16)
        ensures
            final(term)@ == old(term)@ + line_ops(at, filler()),
    {
        proof {
            reveal_strlit("~");
        }
        assert("~"@ =~= filler());
        View::draw_row(term, at, "~")
    }

    /// Queues `text` as the content of row `at`.
    pub fn draw_row(term: &mut Terminal, at: u16, text: &str)
        ensures
            final(term)@ == old(term)@ + line_ops(at, text@),
    {
        move_carret_to(term, Position::new(at, 0));
        clear_line(term);
        print(term, text);
        assert(term@ =~= old(term)@ + line_ops(at, text@));
    }

    /// Takes the lines of a file from what reading the file gave. Where the
    /// read failed the buffer stays as it was. Either way the screen has to
    /// be drawn again.
    pub fn load(&mut self, source: Result<String, std::io::Error>)
        ensures
            final(self)@ == old(self)@.loaded(text_read(source)),
    {
        if let Ok(buffer) = Buffer::load(source) {
            self.buf = buffer;
        }
        self.need_redraw = true;
    }

    /// The size of the screen as it was last told.
    pub fn size(&self) -> (size: ScreenSize)
        ensures
            size == self@.size,
    {
        self.size
    }

    /// Takes a new size of the screen. The screen has to be drawn again,
    /// whether the size differs from the old one or not.
    pub fn resize(&mut self, to: ScreenSize)
        ensures
            final(self)@ == old(self)@.resized(to),
    {
        self.size = to;
        self.need_redraw = true;
    }
}

/// A frame of rows of three operations each holds three operations for
/// every row.
pub proof fn lemma_frame_len(rows: Seq<Seq<Op>>)
    requires
        forall|row: int| 0 <= row < rows.len() ==> (#[trigger] rows[row]).len() == 3,
    ensures
        rows.flatten().len() == 3 * rows.len(),
    decreases rows.len(),
{
    if rows.len() > 0 {
        let front = rows.drop_last();
        lemma_frame_len(front);
        front.lemma_flatten_push(rows.last());
        assert(front.push(rows.last()) =~= rows);
    }
}

/// On a screen with rows and columns, the frame for an empty buffer has one
/// row for each row of the screen. The row a third of the way down holds the
/// welcome banner, every other row the filler.
pub proof fn lemma_welcome_frame(view: ViewModel)
    requires
        view.lines.len() == 0,
        view.size.height > 0,
        view.size.width > 0,
    ensures
        view.rows().len() == view.size.height,
        view.frame().len() == 3 * view.size.height,
        forall|row: int|
            0 <= row < view.size.height ==> #[trigger] view.rows()[row] == line_ops(
                row as u16,
                if row == view.size.height / 3 {
                    banner(view.size.width as nat)
                } else {
                    filler()
                },
            ),
        view.need_redraw ==> view.output() == view.frame(),
{
    lemma_frame_len(view.rows());
}

/// The frame for a buffer with lines has one row for each row of the screen.
/// A row shows the line of its index, cut to the width of the screen, where
/// the buffer has such a line, and the filler where it has none.
pub proof fn lemma_buffer_frame(view: ViewModel)
    requires
        view.lines.len() > 0,
    ensures
        view.rows().len() == view.size.height,
        view.frame().len() == 3 * view.size.height,
        forall|row: int|
            0 <= row < view.size.height ==> #[trigger] view.rows()[row] == line_ops(
                row as u16,
                if row < view.lines.len() {
                    truncated(view.lines[row], view.size.width as nat)
                } else {
                    filler()
                },
            ),
        view.draws() ==> view.output() == view.frame(),
{
    lemma_frame_len(view.rows());
}

/// The welcome banner is as long as the screen is wide, and so never longer.
/// For a screen without columns it is a single space, and rendering on such
/// a screen queues nothing and changes nothing.
pub proof fn lemma_banner_fits(view: ViewModel)
    ensures
        view.size.width > 0 ==> banner(view.size.width as nat).len() == view.size.width,
        view.size.width == 0 ==> banner(view.size.width as nat) == seq![' '],
        view.size.width == 0 ==> view.output() == Seq::<Op>::empty() && view.rendered() == view,
{
}

/// Rendering twice in a row queues nothing the second time and leaves the
/// view as the first rendering left it.
pub proof fn lemma_render_twice(view: ViewModel)
    ensures
        view.rendered().output() == Seq::<Op>::empty(),
        view.rendered().rendered() == view.rendered(),
{
}

/// A resize sets the flag, whatever the flag was and whether or not the new
/// size differs from the old one; rendering then clears it again where the
/// screen has rows and columns.
pub proof fn lemma_resize_invalidates(view: ViewModel, to: ScreenSize)
    ensures
        view.resized(to).need_redraw,
        view.resized(to).size == to,
        view.resized(to).lines == view.lines,
        to.width > 0 && to.height > 0 ==> view.resized(to).draws() && !view.resized(
            to,
        ).rendered().need_redraw,
{
}

/// A load that could not read its source leaves the lines as they were and
/// sets the flag.
pub proof fn lemma_failed_load_keeps_lines(view: ViewModel)
    ensures
        view.loaded(None).lines == view.lines,
        view.loaded(None).size == view.size,
        view.loaded(None).need_redraw,
{
}

} // verus!
