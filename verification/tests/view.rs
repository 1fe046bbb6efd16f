use termview::command::{ClearType, Command};
use termview::term::{ScreenSize, Terminal};
use termview::view::{welcome_banner, View, NAME, VERSION};

fn not_found() -> std::io::Error {
    std::io::Error::new(std::io::ErrorKind::NotFound, "no such file")
}

fn view_of(height: u16, width: u16) -> View {
    let mut view = View::default();
    view.resize(ScreenSize { height, width });
    view
}

fn row(at: u16, text: &str) -> Vec<Command> {
    vec![
        Command::MoveTo(0, at),
        Command::Clear(ClearType::CurrentLine),
        Command::Print(text.to_string()),
    ]
}

fn frame(texts: &[String]) -> Vec<Command> {
    let mut commands = Vec::new();
    for (at, text) in texts.iter().enumerate() {
        commands.extend(row(at as u16, text));
    }
    commands
}

fn rendered(view: &mut View) -> Vec<Command> {
    let mut term = Terminal::new();
    view.render(&mut term);
    term.queued().clone()
}

#[test]
fn the_banner_names_the_viewer() {
    assert_eq!(NAME, "termview");
    assert_eq!(VERSION, "0.1.0");
    let message = "termview editor - version 0.1.0";
    assert_eq!(welcome_banner(80), format!("~{message:^79}"));
    assert_eq!(welcome_banner(80).len(), 80);
    assert_eq!(welcome_banner(33), format!("~{message} "));
    assert_eq!(welcome_banner(34), format!("~ {message} "));
    assert_eq!(welcome_banner(35), format!("~ {message}  "));
}

#[test]
fn the_banner_is_cut_to_a_narrow_screen() {
    assert_eq!(welcome_banner(1), "~");
    assert_eq!(welcome_banner(5), "~term");
    assert_eq!(welcome_banner(32), "~termview editor - version 0.1.0");
    assert_eq!(welcome_banner(31), "~termview editor - version 0.1.");
}

#[test]
fn the_banner_is_never_longer_than_the_screen_is_wide() {
    for width in 1..200u16 {
        assert_eq!(welcome_banner(width).chars().count(), width as usize);
    }
    assert_eq!(welcome_banner(u16::MAX).chars().count(), u16::MAX as usize);
}

#[test]
fn the_banner_for_no_columns_is_a_space() {
    assert_eq!(welcome_banner(0), " ");
}

#[test]
fn the_default_view_has_no_size_and_draws_nothing() {
    let mut view = View::default();
    assert_eq!(view.size(), ScreenSize { height: 0, width: 0 });
    assert_eq!(rendered(&mut view), Vec::new());
}

#[test]
fn a_screen_without_rows_or_columns_draws_nothing() {
    assert_eq!(rendered(&mut view_of(0, 80)), Vec::new());
    assert_eq!(rendered(&mut view_of(24, 0)), Vec::new());
    let mut view = view_of(24, 0);
    view.load(Ok("text\n".to_string()));
    assert_eq!(rendered(&mut view), Vec::new());
}

#[test]
fn a_skipped_frame_stays_due() {
    let mut view = view_of(0, 0);
    assert_eq!(rendered(&mut view), Vec::new());
    view.resize(ScreenSize { height: 1, width: 4 });
    assert_eq!(rendered(&mut view), row(0, "~ter"));
}

#[test]
fn welcome_screen_of_24_rows_and_80_columns() {
    let mut view = view_of(24, 80);
    let mut texts = vec!["~".to_string(); 24];
    texts[8] = format!("~{:^79}", "termview editor - version 0.1.0");
    let commands = rendered(&mut view);
    assert_eq!(commands.len(), 3 * 24);
    assert_eq!(commands, frame(&texts));
}

#[test]
fn welcome_screen_puts_the_banner_a_third_of_the_way_down() {
    for height in 1..40u16 {
        let commands = rendered(&mut view_of(height, 20));
        assert_eq!(commands.len(), 3 * height as usize);
        for at in 0..height {
            let expected = if at == height / 3 { welcome_banner(20) } else { "~".to_string() };
            let start = 3 * at as usize;
            assert_eq!(commands[start..start + 3], row(at, &expected)[..]);
        }
    }
}

#[test]
fn three_lines_on_a_screen_of_24_rows_and_80_columns() {
    let mut view = view_of(24, 80);
    let long = "0123456789".repeat(9);
    view.load(Ok(format!("first\n{long}\n\n")));
    let mut texts = vec!["~".to_string(); 24];
    texts[0] = "first".to_string();
    texts[1] = long[..80].to_string();
    texts[2] = String::new();
    assert_eq!(rendered(&mut view), frame(&texts));
}

#[test]
fn a_carriage_return_in_the_file_is_never_printed() {
    let mut view = view_of(3, 80);
    view.load(Ok("left\rright\r\nlast".to_string()));
    assert_eq!(
        rendered(&mut view),
        frame(&["left".to_string(), "right".to_string(), "last".to_string()])
    );
}

#[test]
fn lines_below_the_screen_are_not_drawn() {
    let mut view = view_of(2, 3);
    view.load(Ok("alpha\nbeta\ngamma\ndelta\n".to_string()));
    assert_eq!(rendered(&mut view), frame(&["alp".to_string(), "bet".to_string()]));
}

#[test]
fn render_buffer_never_draws_the_banner() {
    let view = view_of(3, 10);
    let mut term = Terminal::new();
    view.render_buffer(&mut term);
    assert_eq!(term.queued(), &frame(&vec!["~".to_string(); 3]));
}

#[test]
fn render_welcome_screen_draws_for_the_size_given() {
    let mut term = Terminal::new();
    View::render_welcome_screen(&mut term, ScreenSize { height: 3, width: 2 });
    assert_eq!(term.queued(), &frame(&["~".to_string(), "~t".to_string(), "~".to_string()]));
}

#[test]
fn rows_are_drawn_after_what_is_queued() {
    let mut term = Terminal::new();
    View::draw_row(&mut term, 4, "text");
    View::draw_empty_row(&mut term, 5);
    View::draw_welcome_msg(&mut term, 6, 3);
    View::draw_welcome_msg(&mut term, 7, 0);
    let mut expected = row(4, "text");
    expected.extend(row(5, "~"));
    expected.extend(row(6, "~te"));
    expected.extend(row(7, " "));
    assert_eq!(term.queued(), &expected);
}

#[test]
fn render_twice_draws_once() {
    let mut view = view_of(4, 10);
    let mut term = Terminal::new();
    view.render(&mut term);
    assert_eq!(term.queued().len(), 12);
    view.render(&mut term);
    assert_eq!(term.queued().len(), 12);
    assert_eq!(rendered(&mut view), Vec::new());
}

#[test]
fn resize_to_the_same_size_draws_again() {
    let mut view = view_of(4, 10);
    let first = rendered(&mut view);
    assert_eq!(rendered(&mut view), Vec::new());
    view.resize(ScreenSize { height: 4, width: 10 });
    assert_eq!(view.size(), ScreenSize { height: 4, width: 10 });
    assert_eq!(rendered(&mut view), first);
    assert_eq!(rendered(&mut view), Vec::new());
}

#[test]
fn resize_changes_the_frame() {
    let mut view = view_of(4, 10);
    view.load(Ok("0123456789abcdef\n".to_string()));
    assert_eq!(rendered(&mut view).len(), 12);
    view.resize(ScreenSize { height: 2, width: 12 });
    assert_eq!(rendered(&mut view), frame(&["0123456789ab".to_string(), "~".to_string()]));
}

#[test]
fn a_failed_first_load_leaves_the_welcome_screen() {
    let mut view = view_of(3, 6);
    view.load(Err(not_found()));
    assert_eq!(
        rendered(&mut view),
        frame(&["~".to_string(), "~termv".to_string(), "~".to_string()])
    );
}

#[test]
fn a_failed_load_keeps_the_lines_and_draws_again() {
    let mut view = view_of(2, 6);
    view.load(Ok("kept\n".to_string()));
    let first = rendered(&mut view);
    assert_eq!(first, frame(&["kept".to_string(), "~".to_string()]));
    assert_eq!(rendered(&mut view), Vec::new());
    view.load(Err(not_found()));
    assert_eq!(rendered(&mut view), first);
}

#[test]
fn a_load_replaces_the_lines() {
    let mut view = view_of(2, 6);
    view.load(Ok("old\nlines\n".to_string()));
    view.load(Ok("new\n".to_string()));
    assert_eq!(rendered(&mut view), frame(&["new".to_string(), "~".to_string()]));
    view.load(Ok(String::new()));
    assert_eq!(rendered(&mut view), frame(&["~termv".to_string(), "~".to_string()]));
}
