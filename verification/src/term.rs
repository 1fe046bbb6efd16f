//! The terminal driver: a batch of operations that grows until it is written
//! out.
//!
//! Nothing here touches a terminal. The functions queue operations on a
//! [`Terminal`]; [`execute`] turns the batch into the bytes that the host
//! writes to its standard output. What only the host can do (raw mode, the
//! write itself, asking for the size or the cursor) comes in as plain values.

use crate::command::{all_encodable, encode_all, encoding, ops, ClearType, Command, Op};
use vstd::prelude::*;

verus! {

/// The error of an operation on the terminal or on a file. The library hands
/// such a value on and never looks inside.
#[verifier::external_type_specification]
#[verifier::external_body]
pub struct ExIoError(std::io::Error);

/// A cell of the screen, counted from the top left corner.
#[derive(Clone, Copy, Debug, PartialEq, Eq, Structural)]
pub struct Position {
    pub row: u16,
    pub column: u16,
}

/// The size of the screen in cells. A screen without rows or without columns
/// shows nothing.
#[derive(Clone, Copy, Debug, PartialEq, Eq, Structural)]
pub struct ScreenSize {
    pub height: u16,
    pub width: u16,
}

impl Position {
    pub fn new(row: u16, column: u16) -> (pos: Self)
        ensures
            pos == (Position { row, column }),
    {
        Self { row, column }
    }
}

impl Default for Position {
    /// The top left corner.
    fn default() -> (pos: Self)
        ensures
            pos == (Position { row: 0, column: 0 }),
    {
        Self { row: 0, column: 0 }
    }
}

impl Default for ScreenSize {
    /// The screen that shows nothing.
    fn default() -> (size: Self)
        ensures
            size == (ScreenSize { height: 0, width: 0 }),
    {
        Self { height: 0, width: 0 }
    }
}

/// The operations queued for the terminal and not yet written out.
pub struct Terminal {
    queue: Vec<Command>,
}

impl View for Terminal {
    type V = Seq<Op>;

    /// The queued operations, oldest first.
    closed spec fn view(&self) -> Seq<Op> {
        ops(self.queue@)
    }
}

impl Terminal {
    /// A terminal with nothing queued.
    pub fn new() -> (term: Self)
        ensures
            term@ == Seq::<Op>::empty(),
    {
        let term = Self { queue: Vec::new() };
        assert(term@ =~= Seq::<Op>::empty());
        term
    }

    /// The queued commands, oldest first.
    pub fn queued(&self) -> (queue: &Vec<Command>)
        ensures
            ops(queue@) == self@,
    {
        &self.queue
    }
}

/// What [`init`] queues: enter the alternate screen, wipe it, and put the
/// cursor in its top left corner.
pub open spec fn init_ops() -> Seq<Op> {
    seq![Op::EnterAlternateScreen, Op::Clear(ClearType::All), Op::MoveTo(0, 0)]
}

/// What [`terminate`] queues: leave the alternate screen, wipe the screen,
/// put the cursor in the top left corner and show it.
pub open spec fn terminate_ops() -> Seq<Op> {
    seq![Op::LeaveAlternateScreen, Op::Clear(ClearType::All), Op::MoveTo(0, 0), Op::Show]
}

/// What [`print_line`] queues: go to the start of row `at`, wipe the row, and
/// write `text`.
pub open spec fn line_ops(at: u16, text: Seq<char>) -> Seq<Op> {
    seq![Op::MoveTo(0, at), Op::Clear(ClearType::CurrentLine), Op::Print(text)]
}

/// Queues what prepares the terminal for the viewer. The host switches raw
/// mode on before it writes this out.
pub fn init(term: &mut Terminal)
    ensures
        final(term)@ == old(term)@ + init_ops(),
{
    enter_alternate_screen(term);
    clear_screen(term);
    move_carret_to(term, Position::default());
    assert(term@ =~= old(term)@ + init_ops());
}

/// Queues what gives the terminal back. The host writes this out and then
/// switches raw mode off.
pub fn terminate(term: &mut Terminal)
    ensures
        final(term)@ == old(term)@ + terminate_ops(),
{
    leave_alternate_screen(term);
    clear_screen(term);
    move_carret_to(term, Position::default());
    show_carret(term);
    assert(term@ =~= old(term)@ + terminate_ops());
}

pub fn enter_alternate_screen(term: &mut Terminal)
    ensures
        final(term)@ == old(term)@.push(Op::EnterAlternateScreen),
{
    queue_command(term, Command::EnterAlternateScreen);
}

pub fn leave_alternate_screen(term: &mut Terminal)
    ensures
        final(term)@ == old(term)@.push(Op::LeaveAlternateScreen),
{
    queue_command(term, Command::LeaveAlternateScreen);
}

pub fn clear_screen(term: &mut Terminal)
    ensures
        final(term)@ == old(term)@.push(Op::Clear(ClearType::All)),
{
    queue_command(term, Command::Clear(ClearType::All));
}

pub fn clear_line(term: &mut Terminal)
    ensures
        final(term)@ == old(term)@.push(Op::Clear(ClearType::CurrentLine)),
{
    queue_command(term, Command::Clear(ClearType::CurrentLine));
}

/// The size of the screen from what the terminal answered when asked for it:
/// its columns first, then its rows.
pub fn screen_size(reported: Result<(u16, u16), std::io::Error>) -> (size: Result<
    ScreenSize,
    std::io::Error,
>)
    ensures
        match reported {
            Ok((columns, rows)) => size == Ok::<ScreenSize, std::io::Error>(
                ScreenSize { height: rows, width: columns },
            ),
            Err(error) => size == Err::<ScreenSize, std::io::Error>(error),
        },
{
    match reported {
        Ok(size) => Ok(ScreenSize { height: size.1, width: size.0 }),
        Err(error) => Err(error),
    }
}

/// Takes the batch out of the terminal and returns its bytes for the host to
/// write. Where an operation of the batch has no encoding, nothing is taken
/// and `None` is returned.
pub fn execute(term: &mut Terminal) -> (bytes: Option<String>)
    ensures
        bytes is Some <==> all_encodable(old(term)@),
        bytes matches Some(text) ==> text@ == encoding(old(term)@) && final(term)@
            == Seq::<Op>::empty(),
        bytes is None ==> final(term)@ == old(term)@,
{
    let bytes = encode_all(&term.queue);
    if bytes.is_some() {
        term.queue = Vec::new();
        assert(term@ =~= Seq::<Op>::empty());
    }
    bytes
}

pub fn move_carret_to(term: &mut Terminal, pos: Position)
    ensures
        final(term)@ == old(term)@.push(Op::MoveTo(pos.column, pos.row)),
{
    queue_command(term, Command::MoveTo(pos.column, pos.row));
}

pub fn move_carret_begin_of_line(term: &mut Terminal, row_number: u16)
    ensures
        final(term)@ == old(term)@.push(Op::MoveTo(0, row_number)),
{
    move_carret_to(term, Position::new(row_number, 0))
}

/// Queues a move to the column behind the last one of row `row_number`, on a
/// screen of the given size. The terminal stops the cursor in the last
/// column.
pub fn move_carret_end_of_line(term: &mut Terminal, size: ScreenSize, row_number: u16)
    ensures
        final(term)@ == old(term)@.push(Op::MoveTo(size.width, row_number)),
{
    let ScreenSize { width, .. } = size;
    move_carret_to(term, Position::new(row_number, width))
}

pub fn move_carret_page_up(term: &mut Terminal, column_number: u16)
    ensures
        final(term)@ == old(term)@.push(Op::MoveTo(column_number, 0)),
{
    move_carret_to(term, Position::new(0, column_number))
}

/// Queues a move to the row below the last one, in column `column_number`, on
/// a screen of the given size. The terminal stops the cursor in the last row.
pub fn move_carret_page_down(term: &mut Terminal, size: ScreenSize, column_number: u16)
    ensures
        final(term)@ == old(term)@.push(Op::MoveTo(column_number, size.height)),
{
    let ScreenSize { height, .. } = size;
    move_carret_to(term, Position::new(height, column_number))
}

pub fn hide_carret(term: &mut Terminal)
    ensures
        final(term)@ == old(term)@.push(Op::Hide),
{
    queue_command(term, Command::Hide);
}

pub fn show_carret(term: &mut Terminal)
    ensures
        final(term)@ == old(term)@.push(Op::Show),
{
    queue_command(term, Command::Show);
}

/// Queues `msg` as the whole content of row `at`.
pub fn print_line(term: &mut Terminal, at: u16, msg: &str)
    ensures
        final(term)@ == old(term)@ + line_ops(at, msg@),
{
    move_carret_to(term, Position { row: at, column: 0 });
    clear_line(term);
    print(term, msg);
    assert(term@ =~= old(term)@ + line_ops(at, msg@));
}

pub fn print(term: &mut Terminal, string: &str)
    ensures
        final(term)@ == old(term)@.push(Op::Print(string@)),
{
    queue_command(term, Command::Print(string.to_owned()));
}

/// Appends `command` to the batch. Nothing is written.
pub fn queue_command(term: &mut Terminal, command: Command)
    ensures
        final(term)@ == old(term)@.push(command@),
{
    term.queue.push(command);
    assert(term@ =~= old(term)@.push(command@));
}

} // verus!
