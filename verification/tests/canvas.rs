use tpaint::box_drawing::BoxFlags;
use tpaint::buffer::Buffer;

#[test]
fn fresh_canvas_reads_as_spaces() {
    let buffer = Buffer::new();
    assert_eq!(buffer.get_point(0, 0), ' ');
    assert_eq!(buffer.get_point(17, 4), ' ');
    assert_eq!(buffer.get_point(usize::MAX, usize::MAX), ' ');
    assert_eq!(buffer.output(3), Vec::<String>::new());
}

#[test]
fn last_write_wins_and_untouched_cells_stay_spaces() {
    let mut buffer = Buffer::new();
    buffer.render_point(3, 1, 'a');
    buffer.render_point(0, 2, 'b');
    buffer.render_point(3, 1, 'c');
    assert_eq!(buffer.get_point(3, 1), 'c');
    assert_eq!(buffer.get_point(0, 2), 'b');
    assert_eq!(buffer.get_point(2, 1), ' ');
    assert_eq!(buffer.get_point(4, 1), ' ');
    assert_eq!(buffer.get_point(3, 0), ' ');
    assert_eq!(buffer.get_point(3, 3), ' ');
}

#[test]
fn rows_and_columns_grow_independently() {
    let mut buffer = Buffer::new();
    buffer.render_point(2, 2, 'x');
    buffer.render_point(0, 0, 'y');
    let rows = buffer.into_inner();
    assert_eq!(rows, vec![vec!['y'], vec![], vec![' ', ' ', 'x']]);
}

#[test]
fn rows_never_shrink() {
    let mut buffer = Buffer::new();
    buffer.render_point(4, 0, 'x');
    buffer.render_point(1, 0, 'y');
    assert_eq!(buffer.into_inner(), vec![vec![' ', 'y', ' ', ' ', 'x']]);
}

#[test]
fn output_pads_and_truncates_to_the_width() {
    let mut buffer = Buffer::new();
    buffer.render_point(0, 0, 'a');
    buffer.render_point(4, 1, 'b');
    assert_eq!(buffer.output(3), vec![String::from("a  "), String::from("   ")]);
    assert_eq!(buffer.output(5), vec![String::from("a    "), String::from("    b")]);
    assert_eq!(buffer.output(0), vec![String::new(), String::new()]);
}

#[test]
fn bounded_frame_stores_relative_to_its_origin() {
    let mut buffer = Buffer::new();
    buffer.new_frame_bounded(10, 20);
    buffer.render_point(12, 21, 'z');
    assert_eq!(buffer.get_point(12, 21), 'z');
    assert_eq!(buffer.get_point(2, 1), ' ');
    assert_eq!(buffer.output(4), vec![String::from("    "), String::from("  z ")]);
}

#[test]
fn writes_left_of_or_above_the_origin_are_left_out() {
    let mut buffer = Buffer::new();
    buffer.new_frame_bounded(10, 20);
    buffer.render_point(9, 25, 'z');
    buffer.render_point(15, 19, 'z');
    assert_eq!(buffer.get_point(9, 25), ' ');
    assert_eq!(buffer.get_point(15, 19), ' ');
    assert_eq!(buffer.into_inner(), Vec::<Vec<char>>::new());
}

#[test]
fn a_cell_that_cannot_be_counted_to_is_left_out() {
    let mut buffer = Buffer::new();
    buffer.render_point(usize::MAX, 0, 'z');
    buffer.render_point(0, usize::MAX, 'z');
    assert_eq!(buffer.get_point(usize::MAX, 0), ' ');
    assert_eq!(buffer.into_inner(), Vec::<Vec<char>>::new());
}

#[test]
fn new_frame_empties_the_canvas() {
    let mut buffer = Buffer::new();
    buffer.new_frame_bounded(3, 3);
    buffer.render_point(5, 5, 'q');
    buffer.new_frame();
    assert_eq!(buffer.get_point(5, 5), ' ');
    buffer.render_point(1, 0, 'r');
    assert_eq!(buffer.output(2), vec![String::from(" r")]);
}

#[test]
fn merge_point_joins_what_is_there() {
    let mut buffer = Buffer::new();
    let across = BoxFlags { up: false, down: false, left: true, right: true };
    let along = BoxFlags { up: true, down: true, left: false, right: false };
    buffer.merge_point(1, 1, across, false);
    assert_eq!(buffer.get_point(1, 1), '━');
    buffer.merge_point(1, 1, along, false);
    assert_eq!(buffer.get_point(1, 1), '╋');
    buffer.render_point(2, 2, 'x');
    buffer.merge_point(2, 2, along, false);
    assert_eq!(buffer.get_point(2, 2), '┃');
}
