use tpaint::buffer::Buffer;
use tpaint::elements::MouseEvent;
use tpaint::state::{Action, Event, State};
use tpaint::tools::{KeyCode, KeyEvent, MouseButton, MouseEventKind};

fn mouse(kind: MouseEventKind, column: u16, row: u16) -> Event {
    Event::Mouse(MouseEvent { kind, column, row })
}

fn down(column: u16, row: u16) -> Event {
    mouse(MouseEventKind::Down(MouseButton::Left), column, row)
}

fn drag(column: u16, row: u16) -> Event {
    mouse(MouseEventKind::Drag(MouseButton::Left), column, row)
}

fn up(column: u16, row: u16) -> Event {
    mouse(MouseEventKind::Up(MouseButton::Left), column, row)
}

fn plain(c: char) -> Event {
    Event::Key(KeyEvent { code: KeyCode::Char(c), control: false })
}

fn control(c: char) -> Event {
    Event::Key(KeyEvent { code: KeyCode::Char(c), control: true })
}

fn click(state: &mut State, column: u16, row: u16) {
    assert_eq!(state.handle_event(down(column, row)), Action::Nothing);
    assert_eq!(state.handle_event(up(column, row)), Action::Nothing);
}

fn stroke(state: &mut State, from: (u16, u16), to: (u16, u16)) {
    state.handle_event(down(from.0, from.1));
    state.handle_event(drag(to.0, to.1));
    state.handle_event(up(to.0, to.1));
}

#[test]
fn session_begins_in_unicode_with_an_empty_picture() {
    let state = State::new(40, 12);
    assert!(!state.should_exit());
    assert!(state.should_clear());
    assert!(!state.ascii_mode());
    assert_eq!(state.flatten_to_text(), "");
}

#[test]
fn selecting_a_tool_and_drawing_with_it() {
    let mut state = State::new(40, 12);
    click(&mut state, 24, 0);
    stroke(&mut state, (1, 3), (4, 5));
    assert_eq!(state.flatten_to_text(), "\n ┏━━┓\n ┃  ┃\n ┗━━┛\n");
    stroke(&mut state, (3, 2), (6, 4));
    assert_eq!(state.flatten_to_text(), "   ┏━━┓\n ┏━╋┓ ┃\n ┃ ┗╋━┛\n ┗━━┛\n");
}

#[test]
fn mode_item_switches_the_alphabet() {
    let mut state = State::new(40, 12);
    click(&mut state, 24, 0);
    stroke(&mut state, (0, 2), (2, 4));
    click(&mut state, 8, 0);
    assert!(state.ascii_mode());
    assert_eq!(state.flatten_to_text(), "+-+\n| |\n+-+\n");
    click(&mut state, 8, 0);
    assert!(!state.ascii_mode());
    assert_eq!(state.flatten_to_text(), "┏━┓\n┃ ┃\n┗━┛\n");
}

#[test]
fn control_keys() {
    let mut state = State::new(40, 12);
    click(&mut state, 16, 0);
    stroke(&mut state, (0, 2), (2, 2));
    stroke(&mut state, (0, 3), (2, 3));
    assert_eq!(state.flatten_to_text(), "███\n███\n");
    assert_eq!(state.handle_event(control('s')), Action::Save);
    assert_eq!(state.flatten_to_text(), "███\n███\n");
    assert_eq!(state.handle_event(control('z')), Action::Nothing);
    assert_eq!(state.flatten_to_text(), "███\n");
    stroke(&mut state, (4, 2), (4, 2));
    assert_eq!(state.flatten_to_text(), "███ █\n");
    assert_eq!(state.handle_event(control('z')), Action::Nothing);
    assert_eq!(state.handle_event(control('z')), Action::Nothing);
    assert_eq!(state.handle_event(control('z')), Action::Nothing);
    assert_eq!(state.flatten_to_text(), "");
    assert!(!state.should_exit());
    assert_eq!(state.handle_event(plain('c')), Action::Nothing);
    assert!(!state.should_exit());
    assert_eq!(state.handle_event(control('c')), Action::Nothing);
    assert!(state.should_exit());
}

#[test]
fn typing_text_in_a_session() {
    let mut state = State::new(40, 12);
    click(&mut state, 29, 0);
    click(&mut state, 2, 3);
    for c in "hi".chars() {
        state.handle_event(plain(c));
    }
    assert_eq!(state.flatten_to_text(), "\n  hi<\n");
    state.handle_event(Event::Key(KeyEvent { code: KeyCode::Esc, control: false }));
    assert_eq!(state.flatten_to_text(), "\n  hi\n");
    click(&mut state, 0, 2);
    state.handle_event(plain('x'));
    click(&mut state, 9, 9);
    assert_eq!(state.flatten_to_text(), "x\n  hi\n");
}

#[test]
fn pointer_belongs_to_the_element_pressed_until_release() {
    let mut state = State::new(40, 12);
    click(&mut state, 16, 0);
    state.handle_event(down(2, 3));
    state.handle_event(drag(2, 0));
    state.handle_event(drag(16, 0));
    state.handle_event(drag(4, 3));
    state.handle_event(up(16, 0));
    assert_eq!(state.flatten_to_text(), "\n  ███\n");
    state.handle_event(drag(7, 4));
    state.handle_event(mouse(MouseEventKind::Moved, 7, 5));
    assert_eq!(state.flatten_to_text(), "\n  ███\n");
}

#[test]
fn scroll_bar_scrolls_the_view() {
    let mut state = State::new(12, 9);
    let mut buffer = Buffer::new();
    let pieces = state.render(&mut buffer);
    assert_eq!(pieces.len(), 9);
    assert_eq!(pieces[8].text, "▓▓▓▓▓▓▓▓▓▓");
    state.load("0123456789abcdefghijklmnopqrstuvwxyzABCD");
    let pieces = state.render(&mut buffer);
    assert_eq!(pieces[2].text, "0123456789a");
    assert_eq!(pieces[8].text, "▓▓░░░░░░░░");
    click(&mut state, 6, 8);
    let pieces = state.render(&mut buffer);
    assert_eq!(pieces[2].text, "jklmnopqrst");
    assert_eq!(pieces[8].text, "░░░░▓▓▓░░░");
}

#[test]
fn frame_pieces_and_their_places() {
    let mut state = State::new(12, 6);
    state.load("ab\ncd");
    let mut buffer = Buffer::new();
    let pieces = state.render(&mut buffer);
    let shown: Vec<(u32, u32, &str)> =
        pieces.iter().map(|p| (p.column, p.row, p.text.as_str())).collect();
    assert_eq!(
        shown,
        vec![
            (0, 0, "tpaint (mode) | # | & | [] | T"),
            (0, 1, "None       "),
            (0, 2, "ab         "),
            (0, 3, "cd         "),
            (0, 4, "           "),
            (1, 5, "▓▓▓▓▓▓▓▓▓▓"),
        ]
    );
    assert_eq!(buffer.get_point(1, 1), 'd');
}

#[test]
fn resizing_asks_for_a_cleared_screen() {
    let mut state = State::new(12, 6);
    state.set_should_clear(false);
    assert!(!state.should_clear());
    assert_eq!(state.handle_event(Event::Resize(20, 8)), Action::Nothing);
    assert!(state.should_clear());
    let mut buffer = Buffer::new();
    let pieces = state.render(&mut buffer);
    assert_eq!(pieces.len(), 8);
    assert_eq!(pieces[7].column, 1);
    assert_eq!(pieces[7].row, 7);
    assert_eq!(pieces[7].text.chars().count(), 18);
    assert_eq!(pieces[2].text.chars().count(), 19);
}

#[test]
fn session_helpers() {
    let mut state = State::new(12, 6);
    state.change_mode();
    assert!(state.ascii_mode());
    state.set_workspace_tool(tpaint::tools::ToolSelect::Line);
    stroke(&mut state, (0, 2), (2, 2));
    state.reset_current_mouse_element();
    state.set_workspace_view_offset_x(1);
    assert_eq!(state.flatten_to_text(), "---\n");
    let mut buffer = Buffer::new();
    assert_eq!(state.render(&mut buffer)[2].text, "--         ");
}
