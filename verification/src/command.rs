//! The operations that the viewer asks of a terminal, and the bytes that
//! stand for them on the wire.
//!
//! The bytes of each operation come from `crossterm`, whose encoders are
//! called on a `String` in place of the terminal. What they write is stated
//! here and believed, not proved.

use vstd::prelude::*;

verus! {

/// What a [`Command::Clear`] wipes.
#[derive(Clone, Copy, Debug, PartialEq, Eq, Structural)]
pub enum ClearType {
    /// Every cell of the screen.
    All,
    /// Every cell of the row that the cursor is in.
    CurrentLine,
}

/// One operation on the terminal.
#[derive(Clone, Debug, PartialEq, Eq)]
pub enum Command {
    /// Switch to the alternate screen.
    EnterAlternateScreen,
    /// Switch back to the main screen.
    LeaveAlternateScreen,
    /// Wipe cells.
    Clear(ClearType),
    /// Put the cursor at a column and a row, both counted from zero.
    MoveTo(u16, u16),
    /// Move the cursor up by a number of rows.
    MoveUp(u16),
    /// Move the cursor down by a number of rows.
    MoveDown(u16),
    /// Move the cursor left by a number of columns.
    MoveLeft(u16),
    /// Move the cursor right by a number of columns.
    MoveRight(u16),
    /// Hide the cursor.
    Hide,
    /// Show the cursor.
    Show,
    /// Write text where the cursor is.
    Print(String),
}

/// A [`Command`] as a value of specifications: the same operation, with its
/// text as a sequence of characters.
pub enum Op {
    EnterAlternateScreen,
    LeaveAlternateScreen,
    Clear(ClearType),
    MoveTo(u16, u16),
    MoveUp(u16),
    MoveDown(u16),
    MoveLeft(u16),
    MoveRight(u16),
    Hide,
    Show,
    Print(Seq<char>),
}

impl View for Command {
    type V = Op;

    open spec fn view(&self) -> Op {
        match *self {
            Command::EnterAlternateScreen => Op::EnterAlternateScreen,
            Command::LeaveAlternateScreen => Op::LeaveAlternateScreen,
            Command::Clear(what) => Op::Clear(what),
            Command::MoveTo(column, row) => Op::MoveTo(column, row),
            Command::MoveUp(cells) => Op::MoveUp(cells),
            Command::MoveDown(cells) => Op::MoveDown(cells),
            Command::MoveLeft(cells) => Op::MoveLeft(cells),
            Command::MoveRight(cells) => Op::MoveRight(cells),
            Command::Hide => Op::Hide,
            Command::Show => Op::Show,
            Command::Print(text) => Op::Print(text@),
        }
    }
}

/// The operations that a vector of commands holds, in order.
pub open spec fn ops(commands: Seq<Command>) -> Seq<Op> {
    commands.map_values(|command: Command| command@)
}

/// The decimal digit for a number below ten.
pub open spec fn digit(d: nat) -> char {
    seq!['0', '1', '2', '3', '4', '5', '6', '7', '8', '9'][d as int]
}

/// A number in decimal digits, without leading zeros.
pub open spec fn decimal(n: nat) -> Seq<char>
    decreases n,
{
    if n < 10 {
        seq![digit(n)]
    } else {
        decimal(n / 10).push(digit(n % 10))
    }
}

/// A control sequence: the escape character, an opening bracket, and what
/// tells the sequences apart.
pub open spec fn csi(body: Seq<char>) -> Seq<char> {
    seq!['\u{1b}', '['] + body
}

impl Op {
    /// Whether the operation can be put into bytes. The wire counts rows and
    /// columns from one, in sixteen bits, so a cursor address whose row or
    /// column is the largest `u16` has no encoding.
    pub open spec fn encodable(self) -> bool {
        match self {
            Op::MoveTo(column, row) => column < u16::MAX && row < u16::MAX,
            _ => true,
        }
    }

    /// The characters that stand for the operation on the wire.
    pub open spec fn ansi(self) -> Seq<char> {
        match self {
            Op::EnterAlternateScreen => csi("?1049h"@),
            Op::LeaveAlternateScreen => csi("?1049l"@),
            Op::Clear(ClearType::All) => csi("2J"@),
            Op::Clear(ClearType::CurrentLine) => csi("2K"@),
            Op::MoveTo(column, row) => csi(
                decimal((row + 1) as nat) + ";"@ + decimal((column + 1) as nat) + "H"@,
            ),
            Op::MoveUp(cells) => csi(decimal(cells as nat) + "A"@),
            Op::MoveDown(cells) => csi(decimal(cells as nat) + "B"@),
            Op::MoveLeft(cells) => csi(decimal(cells as nat) + "D"@),
            Op::MoveRight(cells) => csi(decimal(cells as nat) + "C"@),
            Op::Hide => csi("?25l"@),
            Op::Show => csi("?25h"@),
            Op::Print(text) => text,
        }
    }
}

/// Whether every operation of a batch can be put into bytes.
pub open spec fn all_encodable(batch: Seq<Op>) -> bool {
    forall|i: int| 0 <= i < batch.len() ==> (#[trigger] batch[i]).encodable()
}

/// The characters that stand for a batch of operations: those of each
/// operation, one after the other.
pub open spec fn encoding(batch: Seq<Op>) -> Seq<char> {
    batch.map_values(|op: Op| op.ansi()).flatten()
}

/// `<EnterAlternateScreen as crossterm::Command>::write_ansi` appends the
/// sequence that switches to the alternate screen.
#[verifier::external_body]
fn write_enter_alternate_screen(out: &mut String)
    ensures
        final(out)@ == old(out)@ + csi("?1049h"@),
{
    let _ = crossterm::Command::write_ansi(&crossterm::terminal::EnterAlternateScreen, out);
}

/// `<LeaveAlternateScreen as crossterm::Command>::write_ansi` appends the
/// sequence that switches back to the main screen.
#[verifier::external_body]
fn write_leave_alternate_screen(out: &mut String)
    ensures
        final(out)@ == old(out)@ + csi("?1049l"@),
{
    let _ = crossterm::Command::write_ansi(&crossterm::terminal::LeaveAlternateScreen, out);
}

/// `<Clear as crossterm::Command>::write_ansi` appends `2J` behind the
/// introducer for the whole screen and `2K` for the cursor's row.
#[verifier::external_body]
fn write_clear(out: &mut String, what: ClearType)
    ensures
        final(out)@ == old(out)@ + Op::Clear(what).ansi(),
{
    let what = match what {
        ClearType::All => crossterm::terminal::ClearType::All,
        ClearType::CurrentLine => crossterm::terminal::ClearType::CurrentLine,
    };
    let _ = crossterm::Command::write_ansi(&crossterm::terminal::Clear(what), out);
}

/// `<MoveTo as crossterm::Command>::write_ansi` appends the row and the
/// column, each raised by one and in decimal, the row first, with a semicolon
/// between them and `H` behind. It adds the one in `u16`, so neither may be
/// the largest `u16`.
#[verifier::external_body]
fn write_move_to(out: &mut String, column: u16, row: u16)
    requires
        column < u16::MAX,
        row < u16::MAX,
    ensures
        final(out)@ == old(out)@ + Op::MoveTo(column, row).ansi(),
{
    let _ = crossterm::Command::write_ansi(&crossterm::cursor::MoveTo(column, row), out);
}

/// `<MoveUp as crossterm::Command>::write_ansi` appends the number of rows in
/// decimal and `A`.
#[verifier::external_body]
fn write_move_up(out: &mut String, cells: u16)
    ensures
        final(out)@ == old(out)@ + Op::MoveUp(cells).ansi(),
{
    let _ = crossterm::Command::write_ansi(&crossterm::cursor::MoveUp(cells), out);
}

/// `<MoveDown as crossterm::Command>::write_ansi` appends the number of rows
/// in decimal and `B`.
#[verifier::external_body]
fn write_move_down(out: &mut String, cells: u16)
    ensures
        final(out)@ == old(out)@ + Op::MoveDown(cells).ansi(),
{
    let _ = crossterm::Command::write_ansi(&crossterm::cursor::MoveDown(cells), out);
}

/// `<MoveLeft as crossterm::Command>::write_ansi` appends the number of
/// columns in decimal and `D`.
#[verifier::external_body]
fn write_move_left(out: &mut String, cells: u16)
    ensures
        final(out)@ == old(out)@ + Op::MoveLeft(cells).ansi(),
{
    let _ = crossterm::Command::write_ansi(&crossterm::cursor::MoveLeft(cells), out);
}

/// `<MoveRight as crossterm::Command>::write_ansi` appends the number of
/// columns in decimal and `C`.
#[verifier::external_body]
fn write_move_right(out: &mut String, cells: u16)
    ensures
        final(out)@ == old(out)@ + Op::MoveRight(cells).ansi(),
{
    let _ = crossterm::Command::write_ansi(&crossterm::cursor::MoveRight(cells), out);
}

/// `<Hide as crossterm::Command>::write_ansi` appends the sequence that hides
/// the cursor.
#[verifier::external_body]
fn write_hide(out: &mut String)
    ensures
        final(out)@ == old(out)@ + csi("?25l"@),
{
    let _ = crossterm::Command::write_ansi(&crossterm::cursor::Hide, out);
}

/// `<Show as crossterm::Command>::write_ansi` appends the sequence that shows
/// the cursor.
#[verifier::external_body]
fn write_show(out: &mut String)
    ensures
        final(out)@ == old(out)@ + csi("?25h"@),
{
    let _ = crossterm::Command::write_ansi(&crossterm::cursor::Show, out);
}

/// `<Print<&str> as crossterm::Command>::write_ansi` appends the text as it
/// is.
#[verifier::external_body]
fn write_print(out: &mut String, text: &str)
    ensures
        final(out)@ == old(out)@ + text@,
{
    let _ = crossterm::Command::write_ansi(&crossterm::style::Print(text), out);
}

impl Command {
    /// Whether the command can be put into bytes.
    pub fn encodable(&self) -> (yes: bool)
        ensures
            yes == self@.encodable(),
    {
        match self {
            Command::MoveTo(column, row) => *column < u16::MAX && *row < u16::MAX,
            _ => true,
        }
    }

    /// Appends to `out` the characters that stand for the command.
    pub fn encode(&self, out: &mut String)
        requires
            self@.encodable(),
        ensures
            final(out)@ == old(out)@ + self@.ansi(),
    {
        match self {
            Command::EnterAlternateScreen => write_enter_alternate_screen(out),
            Command::LeaveAlternateScreen => write_leave_alternate_screen(out),
            Command::Clear(what) => write_clear(out, *what),
            Command::MoveTo(column, row) => write_move_to(out, *column, *row),
            Command::MoveUp(cells) => write_move_up(out, *cells),
            Command::MoveDown(cells) => write_move_down(out, *cells),
            Command::MoveLeft(cells) => write_move_left(out, *cells),
            Command::MoveRight(cells) => write_move_right(out, *cells),
            Command::Hide => write_hide(out),
            Command::Show => write_show(out),
            Command::Print(text) => write_print(out, text.as_str()),
        }
    }
}

/// The characters of a batch of commands, or `None` where one of them cannot
/// be put into bytes.
pub fn encode_all(commands: &Vec<Command>) -> (out: Option<String>)
    ensures
        out is Some <==> all_encodable(ops(commands@)),
        out matches Some(bytes) ==> bytes@ == encoding(ops(commands@)),
{
    let mut bytes = String::new();
    let mut done: usize = 0;
    assert(ops(commands@).take(0) =~= Seq::<Op>::empty());
    while done < commands.len()
        invariant
            done <= commands.len(),
            all_encodable(ops(commands@).take(done as int)),
            bytes@ == encoding(ops(commands@).take(done as int)),
        decreases commands.len() - done,
    {
        let command = &commands[done];
        if !command.encodable() {
            assert(!ops(commands@)[done as int].encodable());
            return None;
        }
        command.encode(&mut bytes);
        proof {
            let batch = ops(commands@);
            let before = batch.take(done as int);
            assert(batch.take(done + 1) =~= before.push(batch[done as int]));
            assert(before.push(batch[done as int]).map_values(|op: Op| op.ansi())
                =~= before.map_values(|op: Op| op.ansi()).push(batch[done as int].ansi()));
            before.map_values(|op: Op| op.ansi()).lemma_flatten_push(batch[done as int].ansi());
        }
        done = done + 1;
    }
    assert(ops(commands@).take(done as int) =~= ops(commands@));
    Some(bytes)
}

} // verus!
