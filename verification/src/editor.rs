//! The editor: the cursor, the view, the terminal, and the decisions of the
//! event loop.
//!
//! The loop itself belongs to the host, which alone can read events and talk
//! to the terminal. It calls [`Editor::run`] with what its last step gave,
//! writes out what [`Editor::flush`] returns, and does what the returned
//! [`Action`] names.

use crate::command::{all_encodable, encoding, Command, Op};
use crate::event::{Event, KeyCode, KeyEvent, KeyEventKind};
use crate::term::{
    execute, hide_carret, init, init_ops, move_carret_begin_of_line, move_carret_end_of_line,
    move_carret_page_down, move_carret_page_up, move_carret_to, print, queue_command,
    screen_size, show_carret, Position, ScreenSize, Terminal,
};
use crate::view::{text_read, ViewModel};
use vstd::prelude::*;
use vstd::view::View as _;

verus! {

/// What the host hands to [`Editor::run`].
pub enum Input {
    /// Nothing: the loop begins.
    Start,
    /// The event that was read.
    Event(Event),
    /// What the terminal answered when asked for its cursor: the column, then
    /// the row, or `None` where it gave no answer.
    Cursor(Option<(u16, u16)>),
}

/// What the host does after it has written out the queued operations.
#[derive(Clone, Copy, Debug, PartialEq, Eq, Structural)]
pub enum Action {
    /// Wait for the next event and hand it over.
    ReadEvent,
    /// Ask the terminal for its cursor and hand the answer over.
    QueryCursor,
    /// Leave the loop.
    Exit,
}

/// The message that is written when the editor quits.
pub open spec fn goodbye() -> Seq<char> {
    "Goodbye."@
}

/// Whether `code` is a key that moves the cursor.
pub open spec fn navigates(code: KeyCode) -> bool {
    code is Up || code is Down || code is Left || code is Right || code is Home || code is End
        || code is PageUp || code is PageDown
}

/// Whether `event` asks the editor to quit: the key `q` pressed with the
/// control key and no other modifier.
pub open spec fn quits(event: Event) -> bool {
    event matches Event::Key(key) && key.kind is Press && key.code == KeyCode::Char('q')
        && key.modifiers.only_control()
}

/// Whether `event` moves the cursor: a navigation key pressed, with any
/// modifiers.
pub open spec fn moves(event: Event) -> bool {
    event matches Event::Key(key) && key.kind is Press && navigates(key.code)
}

/// The cursor that the terminal reported, or the top left corner where it
/// reported none.
pub open spec fn reported_cursor(report: Option<(u16, u16)>) -> Position {
    match report {
        Some((column, row)) => Position { row, column },
        None => Position { row: 0, column: 0 },
    }
}

/// The size that the terminal reported, or the size of the screen that shows
/// nothing where it reported none.
pub open spec fn reported_size(report: Result<(u16, u16), std::io::Error>) -> ScreenSize {
    match report {
        Ok((columns, rows)) => ScreenSize { height: rows, width: columns },
        Err(_) => ScreenSize { height: 0, width: 0 },
    }
}

/// The text of the file named at startup: `None` where no file was named,
/// `Some(None)` where the file could not be read.
pub open spec fn file_read(file: Option<Result<String, std::io::Error>>) -> Option<
    Option<Seq<char>>,
> {
    match file {
        Some(source) => Some(text_read(source)),
        None => None,
    }
}

/// An [`Editor`] as a value of specifications.
pub struct EditorModel {
    /// Where the editor holds the cursor to be.
    pub cursor: Position,
    /// The view.
    pub view: ViewModel,
    /// Whether the editor has been asked to quit.
    pub quitting: bool,
    /// The operations queued and not yet written out.
    pub queue: Seq<Op>,
}

impl EditorModel {
    /// The editor at startup, for a screen of the given size and the text of
    /// the file named, if one was: the cursor in the top left corner, the
    /// screen to be drawn, and the terminal's preparation queued.
    pub open spec fn initial(size: ScreenSize, file: Option<Option<Seq<char>>>) -> EditorModel {
        let blank = ViewModel { lines: Seq::empty(), size, need_redraw: true };
        EditorModel {
            cursor: Position { row: 0, column: 0 },
            view: match file {
                Some(text) => blank.loaded(text),
                None => blank,
            },
            quitting: false,
            queue: init_ops(),
        }
    }

    /// What [`Editor::refresh_screen`] queues: hide the cursor, draw the
    /// frame if one is due, put the cursor where the editor holds it, and
    /// show it.
    pub open spec fn refresh_ops(self) -> Seq<Op> {
        seq![Op::Hide] + self.view.output() + seq![
            Op::MoveTo(self.cursor.column, self.cursor.row),
            Op::Show,
        ]
    }

    /// The editor after [`Editor::refresh_screen`].
    pub open spec fn refreshed(self) -> EditorModel {
        EditorModel {
            view: self.view.rendered(),
            queue: self.queue + self.refresh_ops(),
            ..self
        }
    }

    /// The operation that a key asks of the terminal, if it asks one: one
    /// cell in the direction of an arrow; the first column of the cursor's
    /// row for Home and the column behind the last for End; the first row of
    /// the cursor's column for PageUp and the row below the last for
    /// PageDown.
    pub open spec fn move_op(self, code: KeyCode) -> Option<Op> {
        match code {
            KeyCode::Up => Some(Op::MoveUp(1)),
            KeyCode::Down => Some(Op::MoveDown(1)),
            KeyCode::Right => Some(Op::MoveRight(1)),
            KeyCode::Left => Some(Op::MoveLeft(1)),
            KeyCode::Home => Some(Op::MoveTo(0, self.cursor.row)),
            KeyCode::End => Some(Op::MoveTo(self.view.size.width, self.cursor.row)),
            KeyCode::PageUp => Some(Op::MoveTo(self.cursor.column, 0)),
            KeyCode::PageDown => Some(Op::MoveTo(self.cursor.column, self.view.size.height)),
            _ => None,
        }
    }

    /// The editor after [`Editor::move_point`].
    pub open spec fn moved(self, code: KeyCode) -> EditorModel {
        match self.move_op(code) {
            Some(op) => EditorModel { queue: self.queue.push(op), ..self },
            None => self,
        }
    }

    /// The editor after [`Editor::update_carret_position`].
    pub open spec fn resynced(self, report: Option<(u16, u16)>) -> EditorModel {
        EditorModel { cursor: reported_cursor(report), ..self }
    }

    /// The editor after [`Editor::evalute_event`].
    pub open spec fn dispatched(self, event: Event) -> EditorModel {
        if quits(event) {
            EditorModel { quitting: true, ..self }
        } else if moves(event) {
            self.moved(event->Key_0.code)
        } else {
            match event {
                Event::Resize(width, height) => EditorModel {
                    view: self.view.resized(ScreenSize { height, width }),
                    ..self
                },
                _ => self,
            }
        }
    }

    /// The editor at the point of one pass of the loop where the host is
    /// needed again: the screen refreshed and, where the editor is quitting,
    /// the goodbye message queued.
    pub open spec fn passed(self) -> EditorModel {
        let shown = self.refreshed();
        if self.quitting {
            EditorModel { queue: shown.queue.push(Op::Print(goodbye())), ..shown }
        } else {
            shown
        }
    }

    /// The editor after [`Editor::run`].
    pub open spec fn run(self, input: Input) -> EditorModel {
        match input {
            Input::Start => self.passed(),
            Input::Event(event) => if moves(event) && !quits(event) {
                self.dispatched(event)
            } else {
                self.dispatched(event).passed()
            },
            Input::Cursor(report) => self.resynced(report).passed(),
        }
    }

    /// What [`Editor::run`] asks of the host.
    pub open spec fn action(self, input: Input) -> Action {
        if input matches Input::Event(event) && moves(event) && !quits(event) {
            Action::QueryCursor
        } else if self.run(input).quitting {
            Action::Exit
        } else {
            Action::ReadEvent
        }
    }
}

pub struct Editor {
    cursor_position: Position,
    view: crate::view::View,
    should_quit: bool,
    term: Terminal,
}

impl vstd::view::View for Editor {
    type V = EditorModel;

    closed spec fn view(&self) -> EditorModel {
        EditorModel {
            cursor: self.cursor_position,
            view: self.view@,
            quitting: self.should_quit,
            queue: self.term@,
        }
    }
}

impl Editor {
    /// The editor at startup.
    ///
    /// `size` is what the terminal answered when asked for its size, columns
    /// first; where it failed the screen counts as one that shows nothing.
    /// `file` is what reading the file named at startup gave, or `None` where
    /// no file was named; where the read failed the buffer stays empty.
    pub fn new(
        size: Result<(u16, u16), std::io::Error>,
        file: Option<Result<String, std::io::Error>>,
    ) -> (editor: Self)
        ensures
            editor@ == EditorModel::initial(reported_size(size), file_read(file)),
    {
        let mut term = Terminal::new();
        init(&mut term);
        let mut view = crate::view::View::default();
        match screen_size(size) {
            Ok(size) => {
                view.resize(size);
            },
            Err(_) => {},
        }
        match file {
            Some(source) => {
                view.load(source);
            },
            None => {},
        }
        assert(term@ =~= init_ops());
        Self { cursor_position: Position::default(), view, should_quit: false, term }
    }

    /// One pass of the event loop, from what the host's last step gave to the
    /// next point where the host is needed.
    ///
    /// An event is dispatched first. Where it moved the cursor, the host is
    /// asked for the terminal's cursor and nothing else happens. Otherwise,
    /// and at the start and after the answer on the cursor, the screen is
    /// refreshed; then the editor says goodbye and asks the host to leave the
    /// loop if it is quitting, else asks for the next event.
    pub fn run(&mut self, input: Input) -> (action: Action)
        ensures
            final(self)@ == old(self)@.run(input),
            action == old(self)@.action(input),
    {
        match input {
            Input::Start => {},
            Input::Event(event) => {
                if self.evalute_event(&event) {
                    return Action::QueryCursor;
                }
            },
            Input::Cursor(report) => {
                self.update_carret_position(report);
            },
        }
        self.refresh_screen();
        if self.should_quit {
            print(&mut self.term, "Goodbye.");
            Action::Exit
        } else {
            Action::ReadEvent
        }
    }

    /// Queues what brings the screen up to date: the frame, if one is due,
    /// between hiding the cursor and putting it back.
    pub fn refresh_screen(&mut self)
        ensures
            final(self)@ == old(self)@.refreshed(),
    {
        hide_carret(&mut self.term);
        self.view.render(&mut self.term);
        move_carret_to(&mut self.term, self.cursor_position);
        show_carret(&mut self.term);
        assert(self.term@ =~= old(self)@.queue + old(self)@.refresh_ops());
    }

    /// Takes an event: quits on the quit key, queues the move of a
    /// navigation key, hands a new size to the view, and ignores the rest.
    /// Returns whether the cursor was moved, so that the terminal has to be
    /// asked where it now is.
    pub fn evalute_event(&mut self, event: &Event) -> (moved: bool)
        ensures
            final(self)@ == old(self)@.dispatched(*event),
            moved == (moves(*event) && !quits(*event)),
    {
        match *event {
            Event::Key(KeyEvent { code, kind: KeyEventKind::Press, modifiers }) => {
                match code {
                    KeyCode::Char(c) => {
                        if c == 'q' && modifiers.is_only_control() {
                            self.should_quit = true;
                        }
                        false
                    },
                    KeyCode::Up
                    | KeyCode::Down
                    | KeyCode::Right
                    | KeyCode::Left
                    | KeyCode::Home
                    | KeyCode::End
                    | KeyCode::PageUp
                    | KeyCode::PageDown => {
                        self.move_point(code);
                        true
                    },
                    KeyCode::Other => false,
                }
            },
            Event::Resize(width, height) => {
                self.view.resize(ScreenSize { height, width });
                false
            },
            _ => false,
        }
    }

    /// Takes the cursor that the terminal reported as the editor's own, or
    /// the top left corner where it reported none.
    pub fn update_carret_position(&mut self, report: Option<(u16, u16)>)
        ensures
            final(self)@ == old(self)@.resynced(report),
    {
        let (col, row) = match report {
            Some(position) => position,
            None => (0, 0),
        };
        self.cursor_position = Position::new(row, col);
    }

    /// Queues the move that a navigation key asks for. Any other key queues
    /// nothing.
    pub fn move_point(&mut self, code: KeyCode)
        ensures
            final(self)@ == old(self)@.moved(code),
    {
        let size = self.view.size();
        match code {
            KeyCode::Up => queue_command(&mut self.term, Command::MoveUp(1)),
            KeyCode::Down => queue_command(&mut self.term, Command::MoveDown(1)),
            KeyCode::Right => queue_command(&mut self.term, Command::MoveRight(1)),
            KeyCode::Left => queue_command(&mut self.term, Command::MoveLeft(1)),
            KeyCode::Home => move_carret_begin_of_line(&mut self.term, self.cursor_position.row),
            KeyCode::End => move_carret_end_of_line(
                &mut self.term,
                size,
                self.cursor_position.row,
            ),
            KeyCode::PageUp => move_carret_page_up(&mut self.term, self.cursor_position.column),
            KeyCode::PageDown => move_carret_page_down(
                &mut self.term,
                size,
                self.cursor_position.column,
            ),
            _ => (),
        }
    }

    /// Takes the queued operations out of the editor and returns their bytes
    /// for the host to write. Where one of them has no encoding, nothing is
    /// taken and `None` is returned.
    pub fn flush(&mut self) -> (bytes: Option<String>)
        ensures
            bytes is Some <==> all_encodable(old(self)@.queue),
            bytes matches Some(text) ==> text@ == encoding(old(self)@.queue) && final(self)@ == (
            EditorModel { queue: Seq::empty(), ..old(self)@ }),
            bytes is None ==> final(self)@ == old(self)@,
    {
        execute(&mut self.term)
    }

    /// Where the editor holds the cursor to be.
    pub fn cursor_position(&self) -> (position: Position)
        ensures
            position == self@.cursor,
    {
        self.cursor_position
    }

    /// Whether the editor has been asked to quit.
    pub fn should_quit(&self) -> (quitting: bool)
        ensures
            quitting == self@.quitting,
    {
        self.should_quit
    }

    /// The terminal with what is queued.
    pub fn terminal(&self) -> (term: &Terminal)
        ensures
            term@ == self@.queue,
    {
        &self.term
    }
}

/// Whether `position` is a cell of a screen of the given size.
pub open spec fn on_screen(position: Position, size: ScreenSize) -> bool {
    position.row < size.height && position.column < size.width
}

/// After the answer on the cursor the editor holds the cursor where the
/// terminal reported it: on the screen wherever the terminal reported a cell
/// of the screen.
pub proof fn lemma_resync_on_screen(editor: EditorModel, report: Option<(u16, u16)>)
    requires
        on_screen(reported_cursor(report), editor.view.size),
    ensures
        editor.resynced(report).cursor == reported_cursor(report),
        on_screen(editor.resynced(report).cursor, editor.view.size),
        on_screen(editor.run(Input::Cursor(report)).cursor, editor.view.size),
        editor.run(Input::Cursor(report)).view.size == editor.view.size,
{
}

/// A navigation key changes nothing but the queue, and has the host ask the
/// terminal for its cursor before anything is drawn.
pub proof fn lemma_navigation_asks_cursor(editor: EditorModel, event: Event)
    requires
        moves(event),
    ensures
        !quits(event),
        editor.action(Input::Event(event)) == Action::QueryCursor,
        editor.run(Input::Event(event)).cursor == editor.cursor,
        editor.run(Input::Event(event)).view == editor.view,
        editor.run(Input::Event(event)).quitting == editor.quitting,
        editor.run(Input::Event(event)).queue == editor.queue.push(
            editor.move_op(event->Key_0.code)->0,
        ),
{
}

/// The quit key ends the loop after one more pass: the screen is refreshed
/// once, the goodbye message follows it, and the host is asked to leave.
pub proof fn lemma_quit_exits(editor: EditorModel, event: Event)
    requires
        quits(event),
    ensures
        editor.action(Input::Event(event)) == Action::Exit,
        editor.run(Input::Event(event)).quitting,
        editor.run(Input::Event(event)).queue == (editor.queue + editor.refresh_ops()).push(
            Op::Print(goodbye()),
        ),
        editor.run(Input::Event(event)).view == editor.view.rendered(),
        editor.run(Input::Event(event)).cursor == editor.cursor,
{
}

/// While the editor is not quitting, an event that is neither the quit key
/// nor a navigation key has the host wait for the next event.
pub proof fn lemma_other_events_continue(editor: EditorModel, event: Event)
    requires
        !editor.quitting,
        !quits(event),
        !moves(event),
    ensures
        editor.action(Input::Event(event)) == Action::ReadEvent,
        !editor.run(Input::Event(event)).quitting,
{
}

/// A resize event hands the new size to the view and has the next refresh
/// draw a frame on every screen with rows and columns, whether or not the
/// size differs from the old one.
pub proof fn lemma_resize_redraws(editor: EditorModel, width: u16, height: u16)
    ensures
        editor.dispatched(Event::Resize(width, height)).view == editor.view.resized(
            ScreenSize { height, width },
        ),
        editor.dispatched(Event::Resize(width, height)).view.need_redraw,
        width > 0 && height > 0 ==> editor.dispatched(
            Event::Resize(width, height),
        ).view.output() == editor.view.resized(ScreenSize { height, width }).frame(),
{
}

/// Two refreshes in a row draw at most one frame: the second queues only
/// what hides the cursor and puts it back.
pub proof fn lemma_refresh_twice(editor: EditorModel)
    ensures
        editor.refreshed().refresh_ops() == seq![
            Op::Hide,
            Op::MoveTo(editor.cursor.column, editor.cursor.row),
            Op::Show,
        ],
        editor.refreshed().refreshed().view == editor.refreshed().view,
{
    assert(editor.refreshed().refresh_ops() =~= seq![
        Op::Hide,
        Op::MoveTo(editor.cursor.column, editor.cursor.row),
        Op::Show,
    ]);
}

} // verus!
