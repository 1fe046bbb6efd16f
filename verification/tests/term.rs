use termview::command::{ClearType, Command};
use termview::term::{
    clear_line, clear_screen, enter_alternate_screen, execute, hide_carret, init,
    leave_alternate_screen, move_carret_begin_of_line, move_carret_end_of_line,
    move_carret_page_down, move_carret_page_up, move_carret_to, print, print_line,
    queue_command, screen_size, show_carret, terminate, Position, ScreenSize, Terminal,
};

#[test]
fn position_new_takes_the_row_first() {
    let pos = Position::new(3, 7);
    assert_eq!(pos.row, 3);
    assert_eq!(pos.column, 7);
    assert_eq!(Position::default(), Position { row: 0, column: 0 });
    assert_eq!(ScreenSize::default(), ScreenSize { height: 0, width: 0 });
}

#[test]
fn a_new_terminal_has_nothing_queued() {
    let mut term = Terminal::new();
    assert!(term.queued().is_empty());
    assert_eq!(execute(&mut term), Some(String::new()));
}

#[test]
fn init_queues_the_preparation() {
    let mut term = Terminal::new();
    init(&mut term);
    assert_eq!(
        term.queued(),
        &vec![Command::EnterAlternateScreen, Command::Clear(ClearType::All), Command::MoveTo(0, 0)]
    );
    assert_eq!(execute(&mut term), Some("\x1b[?1049h\x1b[2J\x1b[1;1H".to_string()));
}

#[test]
fn terminate_queues_the_teardown() {
    let mut term = Terminal::new();
    terminate(&mut term);
    assert_eq!(
        term.queued(),
        &vec![
            Command::LeaveAlternateScreen,
            Command::Clear(ClearType::All),
            Command::MoveTo(0, 0),
            Command::Show,
        ]
    );
    assert_eq!(execute(&mut term), Some("\x1b[?1049l\x1b[2J\x1b[1;1H\x1b[?25h".to_string()));
}

#[test]
fn each_operation_queues_one_command() {
    let mut term = Terminal::new();
    enter_alternate_screen(&mut term);
    leave_alternate_screen(&mut term);
    clear_screen(&mut term);
    clear_line(&mut term);
    hide_carret(&mut term);
    show_carret(&mut term);
    print(&mut term, "text");
    queue_command(&mut term, Command::MoveUp(1));
    assert_eq!(
        term.queued(),
        &vec![
            Command::EnterAlternateScreen,
            Command::LeaveAlternateScreen,
            Command::Clear(ClearType::All),
            Command::Clear(ClearType::CurrentLine),
            Command::Hide,
            Command::Show,
            Command::Print("text".to_string()),
            Command::MoveUp(1),
        ]
    );
}

#[test]
fn moves_put_the_column_first() {
    let size = ScreenSize { height: 24, width: 80 };
    let mut term = Terminal::new();
    move_carret_to(&mut term, Position::new(5, 9));
    move_carret_begin_of_line(&mut term, 4);
    move_carret_end_of_line(&mut term, size, 4);
    move_carret_page_up(&mut term, 6);
    move_carret_page_down(&mut term, size, 6);
    assert_eq!(
        term.queued(),
        &vec![
            Command::MoveTo(9, 5),
            Command::MoveTo(0, 4),
            Command::MoveTo(80, 4),
            Command::MoveTo(6, 0),
            Command::MoveTo(6, 24),
        ]
    );
}

#[test]
fn print_line_moves_clears_and_prints() {
    let mut term = Terminal::new();
    print_line(&mut term, 9, "hi");
    assert_eq!(
        term.queued(),
        &vec![
            Command::MoveTo(0, 9),
            Command::Clear(ClearType::CurrentLine),
            Command::Print("hi".to_string()),
        ]
    );
    assert_eq!(execute(&mut term), Some("\x1b[10;1H\x1b[2Khi".to_string()));
}

#[test]
fn execute_empties_the_queue() {
    let mut term = Terminal::new();
    hide_carret(&mut term);
    assert_eq!(execute(&mut term), Some("\x1b[?25l".to_string()));
    assert!(term.queued().is_empty());
    assert_eq!(execute(&mut term), Some(String::new()));
}

#[test]
fn execute_keeps_a_batch_that_has_no_encoding() {
    let mut term = Terminal::new();
    hide_carret(&mut term);
    move_carret_to(&mut term, Position::new(65535, 0));
    assert_eq!(execute(&mut term), None);
    assert_eq!(term.queued(), &vec![Command::Hide, Command::MoveTo(0, 65535)]);
}

#[test]
fn screen_size_takes_the_columns_first() {
    let size = screen_size(Ok((80, 24))).unwrap();
    assert_eq!(size, ScreenSize { height: 24, width: 80 });
}

#[test]
fn screen_size_hands_the_error_on() {
    let failed = screen_size(Err(std::io::Error::new(std::io::ErrorKind::Other, "no terminal")));
    let error = failed.unwrap_err();
    assert_eq!(error.kind(), std::io::ErrorKind::Other);
    assert_eq!(error.to_string(), "no terminal");
}
