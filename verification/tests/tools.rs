use tpaint::bresenham::bresenham_cells;
use tpaint::buffer::Buffer;
use tpaint::tool::Tool;
use tpaint::tools::block::Block;
use tpaint::tools::erase::Erase;
use tpaint::tools::freehand::Freehand;
use tpaint::tools::idle::Idle;
use tpaint::tools::line::Line;
use tpaint::tools::rectangle::Rectangle;
use tpaint::tools::text::Text;
use tpaint::tools::thick_line::ThickLine;
use tpaint::tools::trail::append_tail;
use tpaint::tools::{to_world, Command, KeyCode, KeyEvent, MouseButton, MouseEventKind, ToolSelect};

const DOWN: MouseEventKind = MouseEventKind::Down(MouseButton::Left);
const DRAG: MouseEventKind = MouseEventKind::Drag(MouseButton::Left);
const UP: MouseEventKind = MouseEventKind::Up(MouseButton::Left);

fn key(code: KeyCode) -> KeyEvent {
    KeyEvent { code, control: false }
}

fn line_between(from: (isize, isize), to: (isize, isize)) -> Line {
    let mut line = Line::new();
    assert_eq!(line.mouse_event(from.0, from.1, DOWN), Command::NoOp);
    assert_eq!(line.mouse_event(to.0, to.1, DRAG), Command::NoOp);
    line
}

fn picture_of(buffer: &Buffer, width: usize) -> Vec<String> {
    buffer.output(width)
}

#[test]
fn crossing_lines_join_in_a_cross() {
    for (ascii_mode, cross) in [(false, '╋'), (true, '+')] {
        let mut buffer = Buffer::new();
        line_between((2, 5), (6, 5)).render(&mut buffer, ascii_mode);
        line_between((4, 2), (4, 8)).render(&mut buffer, ascii_mode);
        assert_eq!(buffer.get_point(4, 5), cross);
    }
}

#[test]
fn horizontal_line_has_ends_and_a_middle() {
    let mut buffer = Buffer::new();
    line_between((2, 5), (6, 5)).render(&mut buffer, false);
    assert_eq!(picture_of(&buffer, 8)[5], "  ╺━━━╸ ");
    assert_eq!(buffer.get_point(1, 5), ' ');
    assert_eq!(buffer.get_point(7, 5), ' ');
}

#[test]
fn vertical_line_has_ends_and_a_middle() {
    let mut buffer = Buffer::new();
    line_between((4, 4), (4, 2)).render(&mut buffer, false);
    assert_eq!(buffer.get_point(4, 2), '╻');
    assert_eq!(buffer.get_point(4, 3), '┃');
    assert_eq!(buffer.get_point(4, 4), '╹');
    assert_eq!(buffer.get_point(4, 1), ' ');
}

#[test]
fn slanted_line_runs_along_the_longer_side_from_the_start() {
    let mut buffer = Buffer::new();
    line_between((1, 1), (4, 3)).render(&mut buffer, false);
    assert_eq!(picture_of(&buffer, 6), vec!["      ", " ╺━━╸ "]);
    let mut buffer = Buffer::new();
    line_between((4, 3), (3, 0)).render(&mut buffer, false);
    assert_eq!(picture_of(&buffer, 6), vec!["    ╻ ", "    ┃ ", "    ┃ ", "    ╹ "]);
}

#[test]
fn line_of_one_cell_points_right() {
    let mut line = Line::new();
    line.mouse_event(3, 0, DOWN);
    assert!(!line.complete());
    assert_eq!(line.bounding_box(), Some((3, 3, 0, 0)));
    let mut buffer = Buffer::new();
    line.render(&mut buffer, false);
    assert_eq!(picture_of(&buffer, 5), vec!["   ╺ "]);
}

#[test]
fn line_state_machine() {
    let mut line = Line::new();
    assert!(!line.complete());
    assert_eq!(line.bounding_box(), None);
    assert_eq!(line.mouse_event(-1, 4, DOWN), Command::NoOp);
    assert_eq!(line.bounding_box(), None);
    assert_eq!(line.mouse_event(5, 4, DOWN), Command::NoOp);
    assert!(!line.complete());
    assert_eq!(line.mouse_event(2, 9, MouseEventKind::Moved), Command::NoOp);
    assert_eq!(line.bounding_box(), Some((5, 5, 4, 4)));
    assert_eq!(line.mouse_event(2, 9, DOWN), Command::NoOp);
    assert!(line.complete());
    assert_eq!(line.bounding_box(), Some((2, 5, 4, 9)));
    assert_eq!(line.mouse_event(7, -3, DRAG), Command::NoOp);
    assert_eq!(line.bounding_box(), Some((2, 5, 4, 9)));
    assert_eq!(line.mouse_event(0, 0, UP), Command::FinishStroke);
    assert_eq!(line.bounding_box(), Some((2, 5, 4, 9)));
    assert_eq!(line.key_event(key(KeyCode::Char('x'))), Command::NoOp);
}

#[test]
fn line_renders_nothing_before_the_first_press() {
    let mut buffer = Buffer::new();
    Line::new().render(&mut buffer, false);
    Line::new().render_bounded(0, 10, 0, 10, &mut buffer, false);
    assert_eq!(buffer.into_inner(), Vec::<Vec<char>>::new());
}

#[test]
fn line_clipped_to_a_window() {
    let line = line_between((2, 5), (6, 5));
    let mut buffer = Buffer::new();
    line.render_bounded(3, 5, 0, 10, &mut buffer, false);
    assert_eq!(picture_of(&buffer, 8)[5], "   ━━   ");
    let mut buffer = Buffer::new();
    line.render_bounded(0, 10, 0, 5, &mut buffer, false);
    assert_eq!(buffer.into_inner(), Vec::<Vec<char>>::new());
}

#[test]
fn freehand_drag_fills_the_gap() {
    let mut tool = ToolSelect::Freehand.to_tool();
    assert_eq!(tool.mouse_event(0, 0, DOWN), Command::NoOp);
    assert_eq!(tool.mouse_event(3, 0, DRAG), Command::NoOp);
    let mut buffer = Buffer::new();
    tool.render(&mut buffer, false);
    for x in 0..4 {
        assert_eq!(buffer.get_point(x, 0), '█');
    }
    assert_eq!(buffer.get_point(4, 0), ' ');
    assert_eq!(buffer.into_inner(), vec![vec!['█', '█', '█', '█']]);
}

#[test]
fn freehand_state_machine() {
    let mut tool = Freehand::new();
    assert!(!tool.complete());
    assert_eq!(tool.bounding_box(), None);
    assert_eq!(tool.mouse_event(-2, 0, DOWN), Command::NoOp);
    assert!(!tool.complete());
    assert_eq!(tool.mouse_event(2, 1, DOWN), Command::NoOp);
    assert!(!tool.complete());
    assert_eq!(tool.bounding_box(), Some((2, 2, 1, 1)));
    assert_eq!(tool.mouse_event(2, 4, DRAG), Command::NoOp);
    assert!(tool.complete());
    assert_eq!(tool.bounding_box(), Some((2, 2, 1, 4)));
    assert_eq!(tool.mouse_event(0, 4, UP), Command::FinishStroke);
    assert_eq!(tool.bounding_box(), Some((0, 2, 1, 4)));
    assert_eq!(tool.key_event(key(KeyCode::Enter)), Command::NoOp);
    let mut buffer = Buffer::new();
    tool.render(&mut buffer, true);
    assert_eq!(picture_of(&buffer, 3), vec!["   ", "  █", "  █", "  █", "███"]);
}

#[test]
fn a_click_alone_completes_no_trail_and_no_shape() {
    for selection in [
        ToolSelect::Freehand,
        ToolSelect::Erase,
        ToolSelect::Rectangle,
        ToolSelect::Line,
        ToolSelect::ThickLine,
    ] {
        let mut tool = selection.to_tool();
        assert_eq!(tool.mouse_event(1, 1, DOWN), Command::NoOp);
        assert_eq!(tool.mouse_event(1, 1, UP), Command::FinishStroke);
        assert!(!tool.complete());
        assert_eq!(tool.bounding_box(), Some((1, 1, 1, 1)));
        assert_eq!(tool.mouse_event(1, 1, DOWN), Command::NoOp);
        assert!(tool.complete());
    }
}

#[test]
fn a_drag_before_any_press() {
    let mut tool = Line::new();
    assert_eq!(tool.mouse_event(4, 4, DRAG), Command::NoOp);
    assert!(!tool.complete());
    assert_eq!(tool.bounding_box(), None);
    let mut tool = Freehand::new();
    assert_eq!(tool.mouse_event(4, 4, DRAG), Command::NoOp);
    assert!(tool.complete());
    assert_eq!(tool.bounding_box(), Some((4, 4, 4, 4)));
}

#[test]
fn freehand_diagonal_follows_the_walk() {
    let mut tool = Freehand::new();
    tool.mouse_event(0, 0, DOWN);
    tool.mouse_event(3, 3, DRAG);
    let mut buffer = Buffer::new();
    tool.render(&mut buffer, false);
    assert_eq!(picture_of(&buffer, 4), vec!["█   ", " █  ", "  █ ", "   █"]);
}

#[test]
fn freehand_clipped_to_a_window() {
    let mut tool = Freehand::new();
    tool.mouse_event(0, 0, DOWN);
    tool.mouse_event(5, 0, DRAG);
    let mut buffer = Buffer::new();
    buffer.new_frame_bounded(2, 0);
    tool.render_bounded(2, 4, 0, 1, &mut buffer, false);
    assert_eq!(buffer.into_inner(), vec![vec!['█', '█']]);
}

#[test]
fn append_tail_leaves_the_first_cell_out() {
    let mut points = vec![(9, 9)];
    append_tail(&mut points, &vec![(9, 9), (8, 8), (7, 7)]);
    assert_eq!(points, vec![(9, 9), (8, 8), (7, 7)]);
    append_tail(&mut points, &vec![]);
    append_tail(&mut points, &vec![(1, 1)]);
    assert_eq!(points, vec![(9, 9), (8, 8), (7, 7)]);
}

#[test]
fn bresenham_walk_includes_both_ends() {
    assert_eq!(
        bresenham_cells((0, 0), (5, 6)),
        Some(vec![(0, 0), (0, 1), (1, 2), (2, 3), (3, 4), (4, 5), (5, 6)])
    );
    assert_eq!(bresenham_cells((3, 1), (1, 1)), Some(vec![(3, 1), (2, 1), (1, 1)]));
    assert_eq!(bresenham_cells((2, 2), (2, 2)), Some(vec![(2, 2)]));
    assert_eq!(bresenham_cells((0, 0), (usize::MAX, 0)), None);
    assert_eq!(bresenham_cells((0, isize::MAX as usize), (0, 0)), None);
}

#[test]
fn erase_writes_spaces_along_its_trail() {
    let mut buffer = Buffer::new();
    line_between((0, 0), (5, 0)).render(&mut buffer, false);
    let mut erase = Erase::new();
    assert!(!erase.complete());
    assert_eq!(erase.mouse_event(1, 0, DOWN), Command::NoOp);
    assert_eq!(erase.mouse_event(3, 0, DRAG), Command::NoOp);
    assert_eq!(erase.mouse_event(3, 0, UP), Command::FinishStroke);
    assert!(erase.complete());
    assert_eq!(erase.bounding_box(), Some((1, 3, 0, 0)));
    erase.render(&mut buffer, false);
    assert_eq!(picture_of(&buffer, 6), vec!["╺   ━╸"]);
    let mut buffer = Buffer::new();
    line_between((0, 0), (5, 0)).render(&mut buffer, false);
    erase.render_bounded(2, 3, 0, 1, &mut buffer, false);
    assert_eq!(picture_of(&buffer, 6), vec!["╺━ ━━╸"]);
}

#[test]
fn rectangle_has_eight_boundary_cells_and_an_empty_middle() {
    let mut tool = ToolSelect::Rectangle.to_tool();
    tool.mouse_event(0, 0, DOWN);
    tool.mouse_event(2, 2, DRAG);
    let mut buffer = Buffer::new();
    tool.render(&mut buffer, false);
    assert_eq!(picture_of(&buffer, 3), vec!["┏━┓", "┃ ┃", "┗━┛"]);
    assert_eq!(buffer.get_point(1, 1), ' ');
    assert_eq!(buffer.into_inner(), vec![vec!['┏', '━', '┓'], vec!['┃', ' ', '┃'], vec!['┗', '━', '┛']]);
}

#[test]
fn rectangle_in_ascii() {
    let mut tool = Rectangle::new();
    tool.mouse_event(3, 2, DOWN);
    tool.mouse_event(0, 0, DRAG);
    let mut buffer = Buffer::new();
    tool.render(&mut buffer, true);
    assert_eq!(picture_of(&buffer, 4), vec!["+--+", "|  |", "+--+"]);
}

#[test]
fn rectangle_state_machine_and_box() {
    let mut tool = Rectangle::new();
    assert_eq!(tool.bounding_box(), None);
    assert!(!tool.complete());
    assert_eq!(tool.mouse_event(4, 1, DOWN), Command::NoOp);
    assert_eq!(tool.bounding_box(), Some((4, 4, 1, 1)));
    assert!(!tool.complete());
    assert_eq!(tool.mouse_event(1, 3, DRAG), Command::NoOp);
    assert!(tool.complete());
    assert_eq!(tool.bounding_box(), Some((1, 4, 1, 3)));
    assert_eq!(tool.mouse_event(1, 3, UP), Command::FinishStroke);
    assert_eq!(tool.key_event(key(KeyCode::Esc)), Command::NoOp);
}

#[test]
fn rectangle_of_one_cell_and_of_one_row() {
    let mut tool = Rectangle::new();
    tool.mouse_event(1, 1, DOWN);
    let mut buffer = Buffer::new();
    tool.render(&mut buffer, false);
    assert_eq!(buffer.get_point(1, 1), '╋');
    tool.mouse_event(3, 1, DRAG);
    let mut buffer = Buffer::new();
    tool.render(&mut buffer, false);
    assert_eq!(picture_of(&buffer, 5), vec!["     ", " ┣━┫ "]);
}

#[test]
fn rectangle_clipped_to_a_window() {
    let mut tool = Rectangle::new();
    tool.mouse_event(0, 0, DOWN);
    tool.mouse_event(4, 3, DRAG);
    let mut buffer = Buffer::new();
    tool.render_bounded(0, 3, 0, 2, &mut buffer, false);
    assert_eq!(picture_of(&buffer, 5), vec!["┏━━  ", "┃    "]);
}

#[test]
fn rectangle_over_a_line_joins_it() {
    let mut buffer = Buffer::new();
    line_between((0, 1), (4, 1)).render(&mut buffer, false);
    let mut tool = Rectangle::new();
    tool.mouse_event(1, 0, DOWN);
    tool.mouse_event(3, 2, DRAG);
    tool.render(&mut buffer, false);
    assert_eq!(picture_of(&buffer, 5), vec![" ┏━┓ ", "╺╋━╋╸", " ┗━┛ "]);
}

#[test]
fn thick_line_walks_from_start_to_end() {
    let mut tool = ThickLine::new();
    assert_eq!(tool.bounding_box(), None);
    assert_eq!(tool.mouse_event(0, 0, DOWN), Command::NoOp);
    assert!(!tool.complete());
    assert_eq!(tool.mouse_event(5, 6, DRAG), Command::NoOp);
    assert!(tool.complete());
    assert_eq!(tool.bounding_box(), Some((0, 5, 0, 6)));
    assert_eq!(tool.mouse_event(5, 6, UP), Command::FinishStroke);
    let mut buffer = Buffer::new();
    tool.render(&mut buffer, false);
    assert_eq!(
        picture_of(&buffer, 6),
        vec!["█     ", "█     ", " █    ", "  █   ", "   █  ", "    █ ", "     █"]
    );
    let mut buffer = Buffer::new();
    tool.render(&mut buffer, true);
    assert_eq!(buffer.get_point(2, 3), '#');
    let mut buffer = Buffer::new();
    tool.render_bounded(1, 4, 2, 5, &mut buffer, true);
    assert_eq!(picture_of(&buffer, 6), vec!["      ", "      ", " #    ", "  #   ", "   #  "]);
}

#[test]
fn thick_line_ignores_cells_outside_the_world() {
    let mut tool = ThickLine::new();
    tool.mouse_event(isize::MAX, 0, DOWN);
    assert_eq!(tool.bounding_box(), None);
    tool.mouse_event(1, 1, DOWN);
    tool.mouse_event(-1, 5, DRAG);
    tool.mouse_event(5, isize::MAX, DRAG);
    assert_eq!(tool.bounding_box(), Some((1, 1, 1, 1)));
    assert!(!tool.complete());
}

#[test]
fn text_is_typed_line_by_line() {
    let mut tool = Text::new();
    assert_eq!(tool.bounding_box(), None);
    assert_eq!(tool.mouse_event(2, 1, DOWN), Command::NoOp);
    assert_eq!(tool.bounding_box(), Some((2, 2, 1, 1)));
    assert_eq!(tool.mouse_event(2, 1, UP), Command::NoOp);
    for c in "hi".chars() {
        assert_eq!(tool.key_event(key(KeyCode::Char(c))), Command::NoOp);
    }
    assert_eq!(tool.key_event(key(KeyCode::Enter)), Command::NoOp);
    for c in "you".chars() {
        tool.key_event(key(KeyCode::Char(c)));
    }
    assert_eq!(tool.key_event(key(KeyCode::Other)), Command::NoOp);
    assert_eq!(tool.bounding_box(), Some((2, 5, 1, 3)));
    assert!(!tool.complete());
    let mut buffer = Buffer::new();
    tool.render(&mut buffer, false);
    assert_eq!(picture_of(&buffer, 7), vec!["       ", "  hi   ", "  you< "]);
    assert_eq!(tool.key_event(key(KeyCode::Esc)), Command::FinishStroke);
    assert!(tool.complete());
    let mut buffer = Buffer::new();
    tool.render(&mut buffer, false);
    assert_eq!(picture_of(&buffer, 7), vec!["       ", "  hi   ", "  you  "]);
}

#[test]
fn text_backspace_takes_characters_and_empty_lines() {
    let mut tool = Text::new();
    tool.mouse_event(0, 0, DOWN);
    assert_eq!(tool.key_event(key(KeyCode::Backspace)), Command::NoOp);
    tool.key_event(key(KeyCode::Char('a')));
    tool.key_event(key(KeyCode::Enter));
    tool.key_event(key(KeyCode::Char('b')));
    tool.key_event(key(KeyCode::Backspace));
    let mut buffer = Buffer::new();
    tool.render(&mut buffer, false);
    assert_eq!(picture_of(&buffer, 2), vec!["a ", "< "]);
    tool.key_event(key(KeyCode::Backspace));
    let mut buffer = Buffer::new();
    tool.render(&mut buffer, false);
    assert_eq!(picture_of(&buffer, 2), vec!["a<"]);
    tool.key_event(key(KeyCode::Backspace));
    tool.key_event(key(KeyCode::Backspace));
    let mut buffer = Buffer::new();
    tool.render(&mut buffer, false);
    assert_eq!(picture_of(&buffer, 2), vec!["< "]);
    assert_eq!(tool.bounding_box(), Some((0, 0, 0, 0)));
}

#[test]
fn text_second_press_ends_the_entry() {
    let mut tool = Text::new();
    assert_eq!(tool.mouse_event(-1, 0, DOWN), Command::NoOp);
    assert_eq!(tool.mouse_event(1, 0, DRAG), Command::NoOp);
    assert_eq!(tool.bounding_box(), None);
    assert_eq!(tool.mouse_event(1, 0, DOWN), Command::NoOp);
    tool.key_event(key(KeyCode::Char('x')));
    assert_eq!(tool.mouse_event(7, 7, DOWN), Command::FinishStroke);
    assert!(tool.complete());
    assert_eq!(tool.bounding_box(), Some((1, 2, 0, 1)));
}

#[test]
fn finished_text_takes_no_more_input() {
    for by_press in [false, true] {
        let mut tool = Text::new();
        tool.mouse_event(1, 1, DOWN);
        tool.key_event(key(KeyCode::Char('a')));
        tool.key_event(key(KeyCode::Enter));
        tool.key_event(key(KeyCode::Char('b')));
        if by_press {
            assert_eq!(tool.mouse_event(5, 5, DOWN), Command::FinishStroke);
        } else {
            assert_eq!(tool.key_event(key(KeyCode::Esc)), Command::FinishStroke);
        }
        assert!(tool.complete());
        let mut before = Buffer::new();
        tool.render(&mut before, false);
        let shown = picture_of(&before, 4);
        assert_eq!(shown, vec!["    ", " a  ", " b  "]);
        for code in [
            KeyCode::Char('c'),
            KeyCode::Enter,
            KeyCode::Backspace,
            KeyCode::Esc,
            KeyCode::Other,
        ] {
            assert_eq!(tool.key_event(key(code)), Command::NoOp);
        }
        for kind in [DOWN, DRAG, UP] {
            assert_eq!(tool.mouse_event(3, 0, kind), Command::NoOp);
        }
        assert!(tool.complete());
        assert_eq!(tool.bounding_box(), Some((1, 2, 1, 3)));
        let mut after = Buffer::new();
        tool.render(&mut after, false);
        assert_eq!(picture_of(&after, 4), shown);
    }
}

#[test]
fn text_clipped_to_a_window_clips_the_cursor_too() {
    let mut tool = Text::new();
    tool.mouse_event(0, 0, DOWN);
    for c in "abcd".chars() {
        tool.key_event(key(KeyCode::Char(c)));
    }
    let mut buffer = Buffer::new();
    tool.render_bounded(1, 3, 0, 1, &mut buffer, false);
    assert_eq!(picture_of(&buffer, 6), vec![" bc   "]);
    let mut buffer = Buffer::new();
    tool.render_bounded(1, 5, 0, 1, &mut buffer, false);
    assert_eq!(picture_of(&buffer, 6), vec![" bcd< "]);
}

#[test]
fn block_maps_lines_to_rows_and_leaves_spaces_out() {
    let mut tool = Block::new("ab c\n\n  d\r\ne");
    assert!(tool.complete());
    assert_eq!(tool.bounding_box(), Some((0, 3, 0, 3)));
    assert_eq!(tool.mouse_event(0, 0, DOWN), Command::NoOp);
    assert_eq!(tool.key_event(key(KeyCode::Char('x'))), Command::NoOp);
    let mut buffer = Buffer::new();
    buffer.render_point(2, 0, '#');
    buffer.render_point(0, 2, '#');
    tool.render(&mut buffer, false);
    assert_eq!(picture_of(&buffer, 4), vec!["ab#c", "    ", "# d ", "e   "]);
    let mut buffer = Buffer::new();
    tool.render_bounded(1, 4, 0, 3, &mut buffer, false);
    assert_eq!(picture_of(&buffer, 4), vec![" b c", "    ", "  d "]);
}

#[test]
fn block_of_empty_text_has_no_box() {
    assert_eq!(Block::new("").bounding_box(), None);
    assert_eq!(Block::new("  \n ").bounding_box(), None);
}

#[test]
fn idle_draws_nothing_and_hands_the_pointer_back() {
    let mut tool = Idle::new();
    assert_eq!(tool.mouse_event(1, 1, DOWN), Command::ResetFocus);
    assert_eq!(tool.mouse_event(1, 1, DRAG), Command::ResetFocus);
    assert_eq!(tool.key_event(key(KeyCode::Char('a'))), Command::NoOp);
    assert_eq!(tool.bounding_box(), None);
    assert!(!tool.complete());
    let mut buffer = Buffer::new();
    tool.render(&mut buffer, false);
    tool.render_bounded(0, 9, 0, 9, &mut buffer, false);
    assert_eq!(buffer.into_inner(), Vec::<Vec<char>>::new());
}

#[test]
fn tool_names() {
    assert_eq!(ToolSelect::Idle.name(), "None");
    assert_eq!(ToolSelect::Freehand.name(), "Freehand");
    assert_eq!(ToolSelect::Erase.name(), "Erase");
    assert_eq!(ToolSelect::Rectangle.name(), "Rectangle");
    assert_eq!(ToolSelect::Text.name(), "Text");
    assert_eq!(ToolSelect::Line.name(), "Line");
    assert_eq!(ToolSelect::ThickLine.name(), "Thick Line");
}

#[test]
fn fresh_tools_are_not_complete() {
    for selection in [
        ToolSelect::Idle,
        ToolSelect::Freehand,
        ToolSelect::Erase,
        ToolSelect::Rectangle,
        ToolSelect::Text,
        ToolSelect::Line,
        ToolSelect::ThickLine,
    ] {
        let tool = selection.to_tool();
        assert!(!tool.complete());
        assert_eq!(tool.bounding_box(), None);
    }
}

#[test]
fn world_cells() {
    assert_eq!(to_world(0, 0), Some((0, 0)));
    assert_eq!(to_world(7, 9), Some((7, 9)));
    assert_eq!(to_world(-1, 9), None);
    assert_eq!(to_world(7, -1), None);
    assert_eq!(to_world(isize::MAX, 0), None);
    assert_eq!(to_world(isize::MAX - 1, 0), Some((isize::MAX as usize - 1, 0)));
}

#[test]
fn clipped_rendering_marks_what_the_whole_rendering_marks_inside_the_window() {
    let mut tools: Vec<Tool> = Vec::new();
    let mut t = ToolSelect::Rectangle.to_tool();
    t.mouse_event(1, 1, DOWN);
    t.mouse_event(6, 4, DRAG);
    tools.push(t);
    let mut t = ToolSelect::Line.to_tool();
    t.mouse_event(0, 2, DOWN);
    t.mouse_event(7, 2, DRAG);
    tools.push(t);
    let mut t = ToolSelect::ThickLine.to_tool();
    t.mouse_event(0, 5, DOWN);
    t.mouse_event(7, 0, DRAG);
    tools.push(t);
    let mut t = ToolSelect::Text.to_tool();
    t.mouse_event(2, 3, DOWN);
    t.key_event(key(KeyCode::Char('o')));
    t.key_event(key(KeyCode::Char('k')));
    tools.push(t);
    for ascii_mode in [false, true] {
        let mut whole = Buffer::new();
        let mut view = Buffer::new();
        view.new_frame_bounded(2, 1);
        for tool in &tools {
            tool.render(&mut whole, ascii_mode);
            tool.render_bounded(2, 6, 1, 4, &mut view, ascii_mode);
        }
        for y in 0..8 {
            for x in 0..10 {
                let inside = 2 <= x && x < 6 && 1 <= y && y < 4;
                let expected = if inside { whole.get_point(x, y) } else { ' ' };
                assert_eq!(view.get_point(x, y), expected);
            }
        }
    }
}
