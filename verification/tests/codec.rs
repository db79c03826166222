use tpaint::box_drawing::{merge, BoxFlags};

fn flags(mask: u8) -> BoxFlags {
    BoxFlags::from_bits_truncate(mask)
}

#[test]
fn masks_are_numbered_by_direction() {
    assert_eq!(flags(1), BoxFlags { up: true, down: false, left: false, right: false });
    assert_eq!(flags(2), BoxFlags { up: false, down: true, left: false, right: false });
    assert_eq!(flags(4), BoxFlags { up: false, down: false, left: true, right: false });
    assert_eq!(flags(8), BoxFlags { up: false, down: false, left: false, right: true });
    assert_eq!(flags(0), BoxFlags::empty());
    assert_eq!(flags(16 + 5), flags(5));
    for mask in 0..16u8 {
        assert_eq!(flags(mask).bits(), mask);
    }
}

#[test]
fn union_and_contains() {
    assert_eq!(flags(5).union(flags(6)), flags(7));
    assert_eq!(flags(0).union(flags(8)), flags(8));
    assert!(flags(7).contains(flags(5)));
    assert!(flags(7).contains(flags(0)));
    assert!(!flags(5).contains(flags(7)));
    assert!(!flags(3).contains(flags(8)));
}

#[test]
fn rich_round_trip_of_all_sixteen_masks() {
    for mask in 0..16u8 {
        let f = flags(mask);
        assert_eq!(BoxFlags::from_char(f.to_char(false), false), f);
    }
}

#[test]
fn rich_glyphs_are_the_table() {
    let expected = [
        ' ', '╹', '╻', '┃', '╸', '┛', '┓', '┫', '╺', '┗', '┏', '┣', '━', '┻', '┳', '╋',
    ];
    for mask in 0..16u8 {
        assert_eq!(flags(mask).to_char(false), expected[mask as usize]);
    }
}

#[test]
fn ascii_glyphs_are_the_table() {
    let expected = [
        ' ', '|', '|', '|', '-', '+', '+', '+', '-', '+', '+', '+', '-', '+', '+', '+',
    ];
    for mask in 0..16u8 {
        assert_eq!(flags(mask).to_char(true), expected[mask as usize]);
    }
}

#[test]
fn ascii_decoding() {
    assert_eq!(BoxFlags::from_char('+', true), flags(15));
    assert_eq!(BoxFlags::from_char('|', true), flags(3));
    assert_eq!(BoxFlags::from_char('-', true), flags(12));
    assert_eq!(BoxFlags::from_char(' ', true), flags(0));
    assert_eq!(BoxFlags::from_char('x', true), flags(0));
    assert_eq!(BoxFlags::from_char('╋', true), flags(0));
}

#[test]
fn rich_decoding_of_other_characters_is_empty() {
    assert_eq!(BoxFlags::from_char('x', false), flags(0));
    assert_eq!(BoxFlags::from_char('+', false), flags(0));
    assert_eq!(BoxFlags::from_char(' ', false), flags(0));
}

#[test]
fn rich_merge_commutes() {
    let cells = [' ', 'x', '╋', '┃', '━', '┏', '╹', '╺'];
    for cell in cells {
        for a in 0..16u8 {
            for b in 0..16u8 {
                let ab = merge(merge(cell, flags(a), false), flags(b), false);
                let ba = merge(merge(cell, flags(b), false), flags(a), false);
                assert_eq!(ab, ba);
            }
        }
    }
}

#[test]
fn ascii_merge_commutes() {
    for cell in [' ', 'x', '+', '|', '-', '╋'] {
        for a in 0..16u8 {
            for b in 0..16u8 {
                let ab = merge(merge(cell, flags(a), true), flags(b), true);
                let ba = merge(merge(cell, flags(b), true), flags(a), true);
                assert_eq!(ab, ba);
                let all = BoxFlags::from_char(cell, true).union(flags(a)).union(flags(b));
                assert_eq!(ab, all.to_char(true));
            }
        }
    }
}

#[test]
fn ascii_merge_of_a_bar_and_a_direction_to_the_left() {
    let along = flags(3);
    let left = flags(4);
    assert_eq!(merge(merge(' ', along, true), left, true), '+');
    assert_eq!(merge(merge(' ', left, true), along, true), '+');
    assert_eq!(merge(' ', flags(0), true), ' ');
    assert_eq!(merge('|', flags(0), true), '|');
}

#[test]
fn crossing_merges_to_a_cross() {
    assert_eq!(merge('━', flags(3), false), '╋');
    assert_eq!(merge('-', flags(3), true), '+');
}
