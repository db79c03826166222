use tpaint::elements::horizontal_scroll::HorizontalScroll;
use tpaint::elements::tool_menu::{MenuElement, ToolMenu};
use tpaint::elements::MouseEvent;
use tpaint::tools::{Command, KeyCode, KeyEvent, MouseButton, MouseEventKind, ToolSelect};

fn press(column: u16, row: u16) -> MouseEvent {
    MouseEvent { kind: MouseEventKind::Down(MouseButton::Left), column, row }
}

#[test]
fn scroll_bar_lies_in_the_last_row() {
    let bar = HorizontalScroll::new(12, 9);
    assert_eq!(bar.position(), (1, 8));
    assert!(bar.coord_within(1, 8));
    assert!(bar.coord_within(10, 8));
    assert!(!bar.coord_within(11, 8));
    assert!(!bar.coord_within(0, 8));
    assert!(!bar.coord_within(5, 7));
}

#[test]
fn scroll_bar_shows_where_the_view_is() {
    let mut bar = HorizontalScroll::new(12, 9);
    bar.update_params(0, 10, 40);
    assert_eq!(bar.render(), "▓▓░░░░░░░░");
    bar.update_params(20, 30, 40);
    assert_eq!(bar.render(), "░░░░░▓▓░░░");
    bar.update_params(30, 40, 20);
    assert_eq!(bar.render(), "░░░░░░░▓▓▓");
    bar.update_params(0, 10, 10);
    assert_eq!(bar.render(), "▓▓▓▓▓▓▓▓▓▓");
    bar.update_params(0, 0, 0);
    assert_eq!(bar.render(), "░░░░░░░░░░");
}

#[test]
fn scroll_bar_press_scrolls_in_proportion() {
    let mut bar = HorizontalScroll::new(12, 9);
    bar.update_params(0, 10, 40);
    assert_eq!(bar.mouse_event(press(1, 8)), Command::SetViewOffsetX(0));
    assert_eq!(bar.mouse_event(press(6, 8)), Command::SetViewOffsetX(20));
    assert_eq!(bar.mouse_event(press(0, 8)), Command::SetViewOffsetX(0));
    let drag = MouseEvent { kind: MouseEventKind::Drag(MouseButton::Left), column: 4, row: 0 };
    assert_eq!(bar.mouse_event(drag), Command::SetViewOffsetX(12));
    let up = MouseEvent { kind: MouseEventKind::Up(MouseButton::Left), column: 4, row: 8 };
    assert_eq!(bar.mouse_event(up), Command::ResetFocus);
    let other = MouseEvent { kind: MouseEventKind::Down(MouseButton::Right), column: 4, row: 8 };
    assert_eq!(bar.mouse_event(other), Command::NoOp);
    assert_eq!(bar.key_event(KeyEvent { code: KeyCode::Enter, control: false }), Command::NoOp);
    bar.update_params(0, 10, usize::MAX);
    let far = MouseEvent { kind: MouseEventKind::Drag(MouseButton::Left), column: 31, row: 8 };
    assert_eq!(bar.mouse_event(far), Command::SetViewOffsetX(usize::MAX));
}

#[test]
fn scroll_bar_without_length_does_nothing() {
    let mut bar = HorizontalScroll::new(2, 0);
    assert_eq!(bar.position(), (1, 0));
    assert!(!bar.coord_within(1, 0));
    assert_eq!(bar.mouse_event(press(1, 0)), Command::NoOp);
    assert_eq!(bar.render(), "");
}

#[test]
fn resizing_the_scroll_bar_resets_the_reach() {
    let mut bar = HorizontalScroll::new(12, 9);
    bar.update_params(0, 5, 100);
    bar.resize_event(22, 5);
    assert_eq!(bar.position(), (1, 4));
    assert_eq!(bar.render(), "▓▓▓▓▓░░░░░░░░░░░░░░░");
}

#[test]
fn menu_item_widths() {
    assert_eq!(MenuElement::Divider.width(), 3);
    assert_eq!(MenuElement::Text("tpaint ").width(), 7);
    assert_eq!(MenuElement::Tool("[]", ToolSelect::Rectangle).width(), 2);
    assert_eq!(MenuElement::Mode("(mode)").width(), 6);
    assert_eq!(MenuElement::Text("░▓").width(), 2);
    assert_eq!(MenuElement::Divider.text(), " | ");
}

#[test]
fn menu_lines() {
    let menu = ToolMenu::new(40, 9);
    assert_eq!(menu.position(), (0, 0));
    let (first, second) = menu.render();
    assert_eq!(first, "tpaint (mode) | # | & | [] | T");
    assert_eq!(second, format!("{:<39}", "None"));
    let narrow = ToolMenu::new(3, 9);
    assert_eq!(narrow.render().1, "None");
}

#[test]
fn menu_presses() {
    let mut menu = ToolMenu::new(40, 9);
    assert!(menu.coord_within(38, 0));
    assert!(!menu.coord_within(39, 0));
    assert!(!menu.coord_within(3, 1));
    assert_eq!(menu.mouse_event(press(0, 0)), Command::ResetFocus);
    assert_eq!(menu.mouse_event(press(6, 0)), Command::ResetFocus);
    assert_eq!(menu.mouse_event(press(7, 0)), Command::ToggleMode);
    assert_eq!(menu.mouse_event(press(12, 0)), Command::ToggleMode);
    assert_eq!(menu.mouse_event(press(13, 0)), Command::ResetFocus);
    assert_eq!(menu.mouse_event(press(16, 0)), Command::SetTool(ToolSelect::Freehand));
    assert_eq!(menu.render().1, format!("{:<39}", "Freehand"));
    assert_eq!(menu.mouse_event(press(20, 0)), Command::SetTool(ToolSelect::Erase));
    assert_eq!(menu.mouse_event(press(24, 0)), Command::SetTool(ToolSelect::Rectangle));
    assert_eq!(menu.mouse_event(press(25, 0)), Command::SetTool(ToolSelect::Rectangle));
    assert_eq!(menu.mouse_event(press(29, 0)), Command::SetTool(ToolSelect::Text));
    assert_eq!(menu.mouse_event(press(30, 0)), Command::ResetFocus);
    assert_eq!(menu.render().1, format!("{:<39}", "Text"));
    let up = MouseEvent { kind: MouseEventKind::Up(MouseButton::Left), column: 16, row: 0 };
    assert_eq!(menu.mouse_event(up), Command::ResetFocus);
    let other = MouseEvent { kind: MouseEventKind::Down(MouseButton::Right), column: 16, row: 0 };
    assert_eq!(menu.mouse_event(other), Command::ResetFocus);
    assert_eq!(menu.key_event(KeyEvent { code: KeyCode::Enter, control: false }), Command::NoOp);
    assert_eq!(menu.render().1, format!("{:<39}", "Text"));
}
