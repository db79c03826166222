//! The junction codec: which box-drawing glyph stands for which set of
//! directions, in the Unicode alphabet and in the plain ASCII one.

use vstd::prelude::*;

verus! {

/// A set of the four directions in which a line may leave a cell.
#[derive(Clone, Copy, Debug, PartialEq, Eq, Structural)]
pub struct BoxFlags {
    pub up: bool,
    pub down: bool,
    pub left: bool,
    pub right: bool,
}

/// The directions that the glyph `c` joins. A character outside the alphabet
/// of the mode joins nothing. In ASCII mode a vertical bar stands for up
/// and down, a hyphen for left and right, and `+` for all four directions,
/// whatever was merged into them.
pub open spec fn decode(c: char, ascii_mode: bool) -> BoxFlags {
    if ascii_mode {
        if c == '+' {
            BoxFlags { up: true, down: true, left: true, right: true }
        } else if c == '|' {
            BoxFlags { up: true, down: true, left: false, right: false }
        } else if c == '-' {
            BoxFlags { up: false, down: false, left: true, right: true }
        } else {
            BoxFlags { up: false, down: false, left: false, right: false }
        }
    } else {
        if c == '╋' {
            BoxFlags { up: true, down: true, left: true, right: true }
        } else if c == '┳' {
            BoxFlags { up: false, down: true, left: true, right: true }
        } else if c == '┻' {
            BoxFlags { up: true, down: false, left: true, right: true }
        } else if c == '┣' {
            BoxFlags { up: true, down: true, left: false, right: true }
        } else if c == '┫' {
            BoxFlags { up: true, down: true, left: true, right: false }
        } else if c == '┛' {
            BoxFlags { up: true, down: false, left: true, right: false }
        } else if c == '┗' {
            BoxFlags { up: true, down: false, left: false, right: true }
        } else if c == '┓' {
            BoxFlags { up: false, down: true, left: true, right: false }
        } else if c == '┏' {
            BoxFlags { up: false, down: true, left: false, right: true }
        } else if c == '┃' {
            BoxFlags { up: true, down: true, left: false, right: false }
        } else if c == '━' {
            BoxFlags { up: false, down: false, left: true, right: true }
        } else if c == '╹' {
            BoxFlags { up: true, down: false, left: false, right: false }
        } else if c == '╻' {
            BoxFlags { up: false, down: true, left: false, right: false }
        } else if c == '╸' {
            BoxFlags { up: false, down: false, left: true, right: false }
        } else if c == '╺' {
            BoxFlags { up: false, down: false, left: false, right: true }
        } else {
            BoxFlags { up: false, down: false, left: false, right: false }
        }
    }
}

/// The glyph that shows `flags`. The Unicode alphabet has one glyph for each
/// of the sixteen sets, a space for the empty one. The ASCII alphabet has
/// four characters: a vertical bar for up, down or both, a hyphen for left,
/// right or both, `+` for every set with a vertical and a horizontal
/// direction, and a space for the empty set.
pub open spec fn encode(flags: BoxFlags, ascii_mode: bool) -> char {
    if ascii_mode {
        if flags.vertical() && flags.horizontal() {
            '+'
        } else if flags.vertical() {
            '|'
        } else if flags.horizontal() {
            '-'
        } else {
            ' '
        }
    } else {
        match (flags.up, flags.down, flags.left, flags.right) {
            (true, true, true, true) => '╋',
            (false, true, true, true) => '┳',
            (true, false, true, true) => '┻',
            (true, true, false, true) => '┣',
            (true, true, true, false) => '┫',
            (true, false, true, false) => '┛',
            (true, false, false, true) => '┗',
            (false, true, true, false) => '┓',
            (false, true, false, true) => '┏',
            (true, true, false, false) => '┃',
            (false, false, true, true) => '━',
            (true, false, false, false) => '╹',
            (false, true, false, false) => '╻',
            (false, false, true, false) => '╸',
            (false, false, false, true) => '╺',
            (false, false, false, false) => ' ',
        }
    }
}

/// What a cell that shows `existing` shows once `flags` has been merged into
/// it: the glyph of the directions already there together with the new ones.
pub open spec fn merged(existing: char, flags: BoxFlags, ascii_mode: bool) -> char {
    encode(decode(existing, ascii_mode).spec_union(flags), ascii_mode)
}

impl BoxFlags {
    /// The number of the set: 1 for up, 2 for down, 4 for left and 8 for
    /// right, added up.
    pub open spec fn mask(self) -> int {
        (if self.up { 1int } else { 0int }) + (if self.down { 2int } else { 0int }) + (if self.left {
            4int
        } else {
            0int
        }) + (if self.right { 8int } else { 0int })
    }

    /// Whether the set has a vertical direction: up or down.
    pub open spec fn vertical(self) -> bool {
        self.up || self.down
    }

    /// Whether the set has a horizontal direction: left or right.
    pub open spec fn horizontal(self) -> bool {
        self.left || self.right
    }

    /// The directions that are in `self` or in `other`.
    pub open spec fn spec_union(self, other: BoxFlags) -> BoxFlags {
        BoxFlags {
            up: self.up || other.up,
            down: self.down || other.down,
            left: self.left || other.left,
            right: self.right || other.right,
        }
    }

    /// Whether every direction of `other` is in `self`.
    pub open spec fn spec_contains(self, other: BoxFlags) -> bool {
        &&& other.up ==> self.up
        &&& other.down ==> self.down
        &&& other.left ==> self.left
        &&& other.right ==> self.right
    }

    /// The empty set.
    pub fn empty() -> (flags: BoxFlags)
        ensures
            flags.mask() == 0,
    {
        BoxFlags { up: false, down: false, left: false, right: false }
    }

    /// The number of the set.
    pub fn bits(self) -> (bits: u8)
        ensures
            bits == self.mask(),
    {
        let up: u8 = if self.up { 1 } else { 0 };
        let down: u8 = if self.down { 2 } else { 0 };
        let left: u8 = if self.left { 4 } else { 0 };
        let right: u8 = if self.right { 8 } else { 0 };
        up + down + left + right
    }

    /// The set with the number that the four low bits of `bits` make.
    pub fn from_bits_truncate(bits: u8) -> (flags: BoxFlags)
        ensures
            flags.mask() == bits % 16,
    {
        BoxFlags {
            up: bits % 2 == 1,
            down: (bits / 2) % 2 == 1,
            left: (bits / 4) % 2 == 1,
            right: (bits / 8) % 2 == 1,
        }
    }

    /// The directions that are in `self` or in `other`.
    pub fn union(self, other: BoxFlags) -> (flags: BoxFlags)
        ensures
            flags == self.spec_union(other),
    {
        BoxFlags {
            up: self.up || other.up,
            down: self.down || other.down,
            left: self.left || other.left,
            right: self.right || other.right,
        }
    }

    /// Whether every direction of `other` is in `self`.
    pub fn contains(self, other: BoxFlags) -> (found: bool)
        ensures
            found == self.spec_contains(other),
    {
        (!other.up || self.up) && (!other.down || self.down) && (!other.left || self.left) && (
        !other.right || self.right)
    }

    pub fn from_char(c: char, ascii_mode: bool) -> (flags: BoxFlags)
        ensures
            flags == decode(c, ascii_mode),
    {
        if ascii_mode {
            match c {
                '+' => BoxFlags { up: true, down: true, left: true, right: true },
                '|' => BoxFlags { up: true, down: true, left: false, right: false },
                '-' => BoxFlags { up: false, down: false, left: true, right: true },
                _ => BoxFlags { up: false, down: false, left: false, right: false },
            }
        } else {
            match c {
                '╋' => BoxFlags { up: true, down: true, left: true, right: true },
                '┳' => BoxFlags { up: false, down: true, left: true, right: true },
                '┻' => BoxFlags { up: true, down: false, left: true, right: true },
                '┣' => BoxFlags { up: true, down: true, left: false, right: true },
                '┫' => BoxFlags { up: true, down: true, left: true, right: false },
                '┛' => BoxFlags { up: true, down: false, left: true, right: false },
                '┗' => BoxFlags { up: true, down: false, left: false, right: true },
                '┓' => BoxFlags { up: false, down: true, left: true, right: false },
                '┏' => BoxFlags { up: false, down: true, left: false, right: true },
                '┃' => BoxFlags { up: true, down: true, left: false, right: false },
                '━' => BoxFlags { up: false, down: false, left: true, right: true },
                '╹' => BoxFlags { up: true, down: false, left: false, right: false },
                '╻' => BoxFlags { up: false, down: true, left: false, right: false },
                '╸' => BoxFlags { up: false, down: false, left: true, right: false },
                '╺' => BoxFlags { up: false, down: false, left: false, right: true },
                _ => BoxFlags { up: false, down: false, left: false, right: false },
            }
        }
    }

    pub fn to_char(self, ascii_mode: bool) -> (c: char)
        ensures
            c == encode(self, ascii_mode),
    {
        if ascii_mode {
            let vertical = self.up || self.down;
            let horizontal = self.left || self.right;
            if vertical && horizontal {
                '+'
            } else if vertical {
                '|'
            } else if horizontal {
                '-'
            } else {
                ' '
            }
        } else {
            match (self.up, self.down, self.left, self.right) {
                (true, true, true, true) => '╋',
                (false, true, true, true) => '┳',
                (true, false, true, true) => '┻',
                (true, true, false, true) => '┣',
                (true, true, true, false) => '┫',
                (true, false, true, false) => '┛',
                (true, false, false, true) => '┗',
                (false, true, true, false) => '┓',
                (false, true, false, true) => '┏',
                (true, true, false, false) => '┃',
                (false, false, true, true) => '━',
                (true, false, false, false) => '╹',
                (false, true, false, false) => '╻',
                (false, false, true, false) => '╸',
                (false, false, false, true) => '╺',
                _ => ' ',
            }
        }
    }
}

/// Merges `flags` into a cell that shows `existing` and gives the glyph that
/// the cell shows afterwards.
pub fn merge(existing: char, flags: BoxFlags, ascii_mode: bool) -> (c: char)
    ensures
        c == merged(existing, flags, ascii_mode),
{
    BoxFlags::from_char(existing, ascii_mode).union(flags).to_char(ascii_mode)
}

/// A set is the set of its number: there are sixteen sets, one for each
/// number below sixteen.
pub proof fn lemma_mask(a: BoxFlags, b: BoxFlags)
    ensures
        0 <= a.mask() < 16,
        a.mask() == b.mask() <==> a == b,
{
}

/// In the Unicode alphabet decoding undoes encoding: each of the sixteen
/// sets of directions comes back from its glyph.
pub proof fn lemma_decode_encode(flags: BoxFlags)
    ensures
        decode(encode(flags, false), false) == flags,
{
}

/// Merging does not depend on the order: in either alphabet two merges give
/// the glyph of the cell's directions together with both sets, in whichever
/// order they come. In the Unicode alphabet a cell keeps every direction
/// ever merged into it; in the ASCII alphabet it keeps whether one of them
/// was vertical and whether one was horizontal, which is all that its glyph
/// shows.
pub proof fn lemma_merge_commutes(existing: char, a: BoxFlags, b: BoxFlags, ascii_mode: bool)
    ensures
        merged(merged(existing, a, ascii_mode), b, ascii_mode) == merged(
            merged(existing, b, ascii_mode),
            a,
            ascii_mode,
        ),
        merged(merged(existing, a, ascii_mode), b, ascii_mode) == encode(
            decode(existing, ascii_mode).spec_union(a).spec_union(b),
            ascii_mode,
        ),
{
    let here = decode(existing, ascii_mode);
    if ascii_mode {
        lemma_decode_encode_ascii(here.spec_union(a));
        lemma_decode_encode_ascii(here.spec_union(b));
    } else {
        lemma_decode_encode(here.spec_union(a));
        lemma_decode_encode(here.spec_union(b));
        assert(here.spec_union(a).spec_union(b) == here.spec_union(b).spec_union(a));
    }
}

/// In the ASCII alphabet a glyph read back has a vertical direction if the
/// set that it shows had one, and a horizontal direction likewise, and
/// nothing else decides which glyph a set is shown as.
pub proof fn lemma_decode_encode_ascii(flags: BoxFlags)
    ensures
        decode(encode(flags, true), true).vertical() == flags.vertical(),
        decode(encode(flags, true), true).horizontal() == flags.horizontal(),
{
}

} // verus!
