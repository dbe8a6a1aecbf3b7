//! What the terminal screen makes of the bytes that a command writes.

use crate::screen::{
    all_digits, byte_parts, csi_end, csi_numbers, digits_value, osc_end, parameter, parameters,
    token_len, unsigned_digits, without_marks, ScreenView,
};
use vstd::prelude::*;
use vstd::utf8::{
    encode_scalar, encode_utf8, encode_utf8_decode_utf8, encode_utf8_first_scalar,
    encode_utf8_valid_utf8, is_leading_byte_width_1, pop_first_scalar, valid_utf8,
};

verus! {

/// A number as a program writes it: its decimal digits.
pub open spec fn number_bytes(n: nat) -> Seq<u8>
    decreases n,
{
    if n < 10 {
        seq![(0x30 + n) as u8]
    } else {
        number_bytes(n / 10).push((0x30 + n % 10) as u8)
    }
}

/// The control sequence `ESC [`, a number, and a final byte.
pub open spec fn control(n: nat, last: u8) -> Seq<u8> {
    seq![0x1bu8, 0x5b] + number_bytes(n) + seq![last]
}

/// The control sequence `ESC [`, two numbers with a semicolon between them, and a final byte.
pub open spec fn control_of_two(a: nat, b: nat, last: u8) -> Seq<u8> {
    seq![0x1bu8, 0x5b] + (number_bytes(a) + seq![0x3bu8] + number_bytes(b)) + seq![last]
}

/// The control sequence without a number.
pub open spec fn bare(last: u8) -> Seq<u8> {
    seq![0x1bu8, 0x5b] + Seq::<u8>::empty() + seq![last]
}

/// A screen between two tokens, with its cursor where a machine can count to.
pub open spec fn at_rest(s: ScreenView) -> bool {
    &&& s.pending.len() == 0
    &&& 0 <= s.row <= usize::MAX
    &&& 0 <= s.col <= usize::MAX
}

/// The cursor somewhere else, and all else as it was.
pub open spec fn with_cursor(s: ScreenView, row: int, col: int) -> ScreenView {
    ScreenView { lines: s.lines, row, col, pending: s.pending }
}

/// What stands in row `r` at column `c`: a blank, where nothing was written.
pub open spec fn cell(s: ScreenView, r: int, c: int) -> char {
    if 0 <= r < s.lines.len() && 0 <= c < s.lines[r].len() {
        s.lines[r][c]
    } else {
        ' '
    }
}

/* ---------------- how bytes are read ---------------- */

proof fn number_is_read(n: nat)
    ensures
        number_bytes(n).len() > 0,
        all_digits(number_bytes(n)),
        digits_value(number_bytes(n)) == n,
    decreases n,
{
    if n < 10 {
        let s = number_bytes(n);
        assert(s.drop_last().len() == 0);
        assert(digits_value(s.drop_last()) == 0);
        assert(s.last() - 0x30 == n);
        assert(digits_value(s) == 0 * 10 + n);
    } else {
        number_is_read(n / 10);
        let s = number_bytes(n);
        assert(s.drop_last() == number_bytes(n / 10));
        assert(s.last() == (0x30 + n % 10) as u8);
        assert(digits_value(s) == (n / 10) * 10 + n % 10);
    }
}

proof fn ascii_is_valid(s: Seq<u8>)
    requires
        forall|i: int| 0 <= i < s.len() ==> #[trigger] s[i] <= 0x7f,
    ensures
        valid_utf8(s),
    decreases s.len(),
{
    if s.len() > 0 {
        assert(is_leading_byte_width_1(s[0]));
        let b = s[0];
        assert((b & 0x7f) <= 0x7f) by (bit_vector);
        let rest = pop_first_scalar(s);
        assert(rest == s.skip(1));
        assert forall|i: int| 0 <= i < rest.len() implies #[trigger] rest[i] <= 0x7f by {
            assert(rest[i] == s[i + 1]);
        }
        ascii_is_valid(rest);
    }
}

proof fn one_part(s: Seq<u8>)
    requires
        forall|i: int| 0 <= i < s.len() ==> #[trigger] s[i] != 0x3b,
    ensures
        byte_parts(s, 0x3b) == seq![s],
    decreases s.len(),
{
    if s.len() > 0 {
        let m = s.drop_last();
        assert forall|i: int| 0 <= i < m.len() implies #[trigger] m[i] != 0x3b by {
            assert(m[i] == s[i]);
        }
        one_part(m);
        assert(s.last() != 0x3b);
        assert(m.push(s.last()) == s);
        assert(seq![m].drop_last().push(s) == seq![s]);
    } else {
        assert(s == Seq::<u8>::empty());
    }
}

proof fn two_parts(a: Seq<u8>, b: Seq<u8>)
    requires
        forall|i: int| 0 <= i < a.len() ==> #[trigger] a[i] != 0x3b,
        forall|i: int| 0 <= i < b.len() ==> #[trigger] b[i] != 0x3b,
    ensures
        byte_parts(a + seq![0x3bu8] + b, 0x3b) == seq![a, b],
    decreases b.len(),
{
    let s = a + seq![0x3bu8] + b;
    if b.len() == 0 {
        assert(s.drop_last() == a);
        assert(s.last() == 0x3b);
        one_part(a);
        assert(b == Seq::<u8>::empty());
        assert(seq![a].push(b) == seq![a, b]);
    } else {
        let m = b.drop_last();
        assert forall|i: int| 0 <= i < m.len() implies #[trigger] m[i] != 0x3b by {
            assert(m[i] == b[i]);
        }
        two_parts(a, m);
        assert(s.drop_last() == a + seq![0x3bu8] + m);
        assert(s.last() == b.last());
        assert(m.push(b.last()) == b);
        assert(seq![a, m].drop_last().push(b) == seq![a, b]);
    }
}

proof fn number_is_a_parameter(n: nat)
    requires
        n <= usize::MAX,
    ensures
        parameter(number_bytes(n)) == n,
{
    number_is_read(n);
    let s = number_bytes(n);
    assert(0x30 <= s[0] <= 0x39);
    assert(without_marks(s) == s);
    assert(unsigned_digits(s) == s);
}

proof fn numbers_are_read(n: nat, m: nat)
    requires
        n <= usize::MAX,
        m <= usize::MAX,
    ensures
        csi_numbers(number_bytes(n)) == seq![n as int],
        csi_numbers(number_bytes(n) + seq![0x3bu8] + number_bytes(m)) == seq![n as int, m as int],
        csi_numbers(Seq::<u8>::empty()) == seq![0int],
{
    number_is_read(n);
    number_is_read(m);
    number_is_a_parameter(n);
    number_is_a_parameter(m);
    let a = number_bytes(n);
    let b = number_bytes(m);
    ascii_is_valid(a);
    ascii_is_valid(b);
    one_part(a);
    assert(parameters(seq![a]) == seq![n as int]);
    two_parts(a, b);
    let t = a + seq![0x3bu8] + b;
    assert forall|i: int| 0 <= i < t.len() implies #[trigger] t[i] <= 0x7f by {
        if i < a.len() {
            assert(t[i] == a[i]);
        } else if i > a.len() {
            assert(t[i] == b[i - a.len() - 1]);
        }
    }
    ascii_is_valid(t);
    assert(parameters(seq![a, b]) == seq![n as int, m as int]);
    let none = Seq::<u8>::empty();
    one_part(none);
    assert(without_marks(none) == none);
    assert(unsigned_digits(none) == none);
    assert(parameters(seq![none]) == seq![0int]);
}

proof fn sequence_ends(buf: Seq<u8>, j: int, k: int)
    requires
        0 <= j <= k < buf.len(),
        forall|i: int| j <= i < k ==> !(0x40 <= #[trigger] buf[i] <= 0x7e),
        0x40 <= buf[k] <= 0x7e,
    ensures
        csi_end(buf, j) == Some(k),
    decreases k - j,
{
    if j < k {
        assert(!(0x40 <= buf[j] <= 0x7e));
        sequence_ends(buf, j + 1, k);
    }
}

proof fn one_token(s: ScreenView, token: Seq<u8>)
    requires
        s.pending.len() == 0,
        token.len() > 0,
        token_len(token) == Some(token.len() as int),
        s.apply(token).pending.len() == 0,
    ensures
        s.fed(token) == s.apply(token),
{
    let start = ScreenView { pending: Seq::empty(), ..s };
    assert(start == s);
    assert(s.pending + token == token);
    let n = token.len() as int;
    assert(token.take(n) == token);
    let rest = token.skip(n);
    assert(rest.len() == 0);
    let t = s.apply(token);
    assert(t.run(rest) == (ScreenView { pending: rest, ..t }));
    assert(t.run(rest) == t);
}

proof fn control_token(s: ScreenView, params: Seq<u8>, last: u8)
    requires
        s.pending.len() == 0,
        forall|i: int| 0 <= i < params.len() ==> #[trigger] params[i] < 0x40,
        0x40 <= last <= 0x7e,
        s.csi(params, last).pending.len() == 0,
    ensures
        s.fed(seq![0x1bu8, 0x5b] + params + seq![last]) == s.csi(params, last),
{
    let t = seq![0x1bu8, 0x5b] + params + seq![last];
    let n = t.len() as int;
    assert forall|i: int| 2 <= i < n - 1 implies !(0x40 <= #[trigger] t[i] <= 0x7e) by {
        assert(t[i] == params[i - 2]);
    }
    sequence_ends(t, 2, n - 1);
    assert(t[0] == 0x1b && t[1] == 0x5b && t.last() == last);
    assert(t.subrange(2, n - 1) == params);
    one_token(s, t);
}

proof fn controls(s: ScreenView, n: nat, m: nat, last: u8)
    requires
        s.pending.len() == 0,
        n <= usize::MAX,
        m <= usize::MAX,
        0x40 <= last <= 0x7e,
    ensures
        s.fed(control(n, last)) == s.csi(number_bytes(n), last),
        s.fed(bare(last)) == s.csi(Seq::empty(), last),
        s.fed(control_of_two(n, m, last)) == s.csi(
            number_bytes(n) + seq![0x3bu8] + number_bytes(m),
            last,
        ),
{
    number_is_read(n);
    number_is_read(m);
    let a = number_bytes(n);
    let b = number_bytes(m);
    control_token(s, a, last);
    control_token(s, Seq::empty(), last);
    let t = a + seq![0x3bu8] + b;
    assert forall|i: int| 0 <= i < t.len() implies #[trigger] t[i] < 0x40 by {
        if i < a.len() {
            assert(t[i] == a[i]);
        } else if i > a.len() {
            assert(t[i] == b[i - a.len() - 1]);
        }
    }
    control_token(s, t, last);
}

/* ---------------- the cursor ---------------- */

/// `ESC [ n A` moves the cursor up by `n` rows, at most to the first; `ESC [ n B` moves it down
/// by `n` rows. Neither changes the column or what was written, and each takes the other back.
pub proof fn cursor_goes_up_and_down(s: ScreenView, n: nat)
    requires
        at_rest(s),
        n > 0,
        s.row + n <= usize::MAX,
    ensures
        s.fed(control(n, 0x42)) == with_cursor(s, s.row + n, s.col),
        n <= s.row ==> s.fed(control(n, 0x41)) == with_cursor(s, s.row - n, s.col),
        n >= s.row ==> s.fed(control(n, 0x41)) == with_cursor(s, 0, s.col),
        s.fed(control(n, 0x42)).fed(control(n, 0x41)) == s,
        n <= s.row ==> s.fed(control(n, 0x41)).fed(control(n, 0x42)) == s,
{
    numbers_are_read(n, n);
    controls(s, n, n, 0x41);
    controls(s, n, n, 0x42);
    controls(with_cursor(s, s.row + n, s.col), n, n, 0x41);
    controls(with_cursor(s, s.row - n, s.col), n, n, 0x42);
}

/// `ESC [ n C` moves the cursor right by `n` columns; `ESC [ n D` moves it left by `n` columns, at
/// most to the first. Neither changes the row or what was written, and each takes the other back.
pub proof fn cursor_goes_right_and_left(s: ScreenView, n: nat)
    requires
        at_rest(s),
        n > 0,
        s.col + n <= usize::MAX,
    ensures
        s.fed(control(n, 0x43)) == with_cursor(s, s.row, s.col + n),
        n <= s.col ==> s.fed(control(n, 0x44)) == with_cursor(s, s.row, s.col - n),
        n >= s.col ==> s.fed(control(n, 0x44)) == with_cursor(s, s.row, 0),
        s.fed(control(n, 0x43)).fed(control(n, 0x44)) == s,
        n <= s.col ==> s.fed(control(n, 0x44)).fed(control(n, 0x43)) == s,
{
    numbers_are_read(n, n);
    controls(s, n, n, 0x43);
    controls(s, n, n, 0x44);
    controls(with_cursor(s, s.row, s.col + n), n, n, 0x44);
    controls(with_cursor(s, s.row, s.col - n), n, n, 0x43);
}

/// `ESC [ n E` and `ESC [ n F` move as `B` and `A` do, and to the first column.
pub proof fn cursor_goes_to_line_starts(s: ScreenView, n: nat)
    requires
        at_rest(s),
        n > 0,
        s.row + n <= usize::MAX,
    ensures
        s.fed(control(n, 0x45)) == with_cursor(s, s.row + n, 0),
        n <= s.row ==> s.fed(control(n, 0x46)) == with_cursor(s, s.row - n, 0),
        n >= s.row ==> s.fed(control(n, 0x46)) == with_cursor(s, 0, 0),
{
    numbers_are_read(n, n);
    controls(s, n, n, 0x45);
    controls(s, n, n, 0x46);
}

/// Where a move names no number, or the number zero, it is a move by one.
pub proof fn moves_without_a_number_go_one_step(s: ScreenView, last: u8)
    requires
        at_rest(s),
        0x41 <= last <= 0x46,
    ensures
        s.fed(bare(last)) == s.fed(control(1, last)),
        s.fed(control(0, last)) == s.fed(control(1, last)),
{
    numbers_are_read(1, 1);
    numbers_are_read(0, 0);
    controls(s, 1, 1, last);
    controls(s, 0, 0, last);
}

/// `ESC [ n G` names a column of the row, `ESC [ n ; m H` a row and a column; both count from one.
/// Without numbers, they name the first. `f` is another name for `H`.
pub proof fn cursor_goes_to_a_place(s: ScreenView, n: nat, m: nat)
    requires
        at_rest(s),
        0 < n <= usize::MAX,
        0 < m <= usize::MAX,
    ensures
        s.fed(control(n, 0x47)) == with_cursor(s, s.row, n - 1),
        s.fed(bare(0x47)) == with_cursor(s, s.row, 0),
        s.fed(control(0, 0x47)) == with_cursor(s, s.row, 0),
        s.fed(control_of_two(n, m, 0x48)) == with_cursor(s, n - 1, m - 1),
        s.fed(control_of_two(n, m, 0x66)) == with_cursor(s, n - 1, m - 1),
        s.fed(control(n, 0x48)) == with_cursor(s, n - 1, 0),
        s.fed(bare(0x48)) == with_cursor(s, 0, 0),
        s.fed(bare(0x66)) == with_cursor(s, 0, 0),
{
    numbers_are_read(n, m);
    numbers_are_read(0, 0);
    controls(s, n, m, 0x47);
    controls(s, 0, 0, 0x47);
    controls(s, n, m, 0x48);
    controls(s, n, m, 0x66);
}

/// A carriage return leads to the first column of the row, a backspace one column back, and a tab
/// to the next column that is a multiple of eight. None of them changes what was written.
pub proof fn control_characters_move(s: ScreenView)
    requires
        at_rest(s),
        s.col + 8 <= usize::MAX,
    ensures
        s.fed(seq![0x0du8]) == with_cursor(s, s.row, 0),
        s.col > 0 ==> s.fed(seq![0x08u8]) == with_cursor(s, s.row, s.col - 1),
        s.col == 0 ==> s.fed(seq![0x08u8]) == s,
        ({
            let t = s.fed(seq![0x09u8]);
            &&& t == with_cursor(s, s.row, t.col)
            &&& s.col < t.col <= s.col + 8
            &&& t.col % 8 == 0
        }),
{
    one_token(s, seq![0x0du8]);
    one_token(s, seq![0x08u8]);
    one_token(s, seq![0x09u8]);
}

/// A line feed leads to the first column of the next row, which exists from then on; every cell
/// keeps what it holds.
pub proof fn line_feed_leads_down(s: ScreenView)
    requires
        at_rest(s),
        s.row < usize::MAX,
    ensures
        ({
            let t = s.fed(seq![0x0au8]);
            &&& t.row == s.row + 1 && t.col == 0 && t.pending.len() == 0
            &&& t.lines.len() > t.row
            &&& t.lines.len() >= s.lines.len()
            &&& forall|r: int, c: int| #[trigger] cell(t, r, c) == cell(s, r, c)
            &&& forall|r: int| 0 <= r < s.lines.len() ==> #[trigger] t.lines[r] == s.lines[r]
            &&& forall|r: int| s.lines.len() <= r < t.lines.len() ==> (#[trigger] t.lines[r]).len() == 0
        }),
{
    one_token(s, seq![0x0au8]);
}

/* ---------------- what is written ---------------- */

proof fn character_token(c: char)
    requires
        c >= ' ',
    ensures
        ({
            let b = encode_utf8(seq![c]);
            &&& b.len() > 0
            &&& b[0] >= 0x20
            &&& b[0] != 0x1b
            &&& token_len(b) == Some(b.len() as int)
            &&& crate::screen::glyph(b) == c
        }),
{
    let one = seq![c];
    let b = encode_utf8(one);
    assert(one.drop_first().len() == 0);
    assert(encode_utf8(one.drop_first()) == Seq::<u8>::empty());
    let u = c as u32;
    assert(b == encode_scalar(u));
    encode_utf8_first_scalar(one);
    encode_utf8_valid_utf8(one);
    encode_utf8_decode_utf8(one);
    if u < 0x80 {
        assert((u & 0x7f) as u8 >= 0x20 && (u & 0x7f) as u8 <= 0x7f) by (bit_vector)
            requires
                0x20 <= u < 0x80,
        ;
    }
}

/// A character is written where the cursor stands, over what stood there, and the cursor moves
/// right by one. Every other cell keeps what it holds, and the row reaches to the character.
pub proof fn character_is_written(s: ScreenView, ch: char)
    requires
        at_rest(s),
        s.col < usize::MAX,
        ch >= ' ',
    ensures
        ({
            let t = s.fed(encode_utf8(seq![ch]));
            &&& t.row == s.row && t.col == s.col + 1 && t.pending.len() == 0
            &&& t.lines.len() > s.row && t.lines[s.row].len() > s.col
            &&& cell(t, s.row, s.col) == ch
            &&& forall|r: int, c: int|
                r != s.row || c != s.col ==> #[trigger] cell(t, r, c) == cell(s, r, c)
            &&& forall|r: int| 0 <= r < s.lines.len() && r != s.row ==> #[trigger] t.lines[r] == s.lines[r]
            &&& s.row < s.lines.len() ==> t.lines.len() == s.lines.len()
            &&& s.row < s.lines.len() && s.col < s.lines[s.row].len() ==> t.lines[s.row].len()
                == s.lines[s.row].len()
            &&& s.row < s.lines.len() && s.col >= s.lines[s.row].len() ==> t.lines[s.row].len()
                == s.col + 1
        }),
{
    character_token(ch);
    one_token(s, encode_utf8(seq![ch]));
}

/// `ESC [ K` takes away what stands in the row from the cursor on; with the number one, what
/// stands before the cursor; with two, all of the row. The cursor stays.
pub proof fn erase_in_line(s: ScreenView)
    requires
        at_rest(s),
    ensures
        s.fed(bare(0x4b)) == s.fed(control(0, 0x4b)),
        ({
            let t = s.fed(bare(0x4b));
            &&& t.row == s.row && t.col == s.col
            &&& forall|r: int, c: int|
                #[trigger] cell(t, r, c) == (if r == s.row && c >= s.col {
                    ' '
                } else {
                    cell(s, r, c)
                })
            &&& t.lines[s.row].len() <= s.col
        }),
        ({
            let t = s.fed(control(1, 0x4b));
            &&& t.row == s.row && t.col == s.col
            &&& forall|r: int, c: int|
                #[trigger] cell(t, r, c) == (if r == s.row && c < s.col {
                    ' '
                } else {
                    cell(s, r, c)
                })
        }),
        ({
            let t = s.fed(control(2, 0x4b));
            &&& t.row == s.row && t.col == s.col
            &&& forall|r: int, c: int|
                #[trigger] cell(t, r, c) == (if r == s.row {
                    ' '
                } else {
                    cell(s, r, c)
                })
            &&& t.lines[s.row].len() == 0
        }),
{
    numbers_are_read(0, 0);
    numbers_are_read(1, 1);
    numbers_are_read(2, 2);
    controls(s, 0, 0, 0x4b);
    controls(s, 1, 1, 0x4b);
    controls(s, 2, 2, 0x4b);
}

/// `ESC [ J` takes away what stands behind the cursor, in its row and below; with the number one,
/// what stands before it; with two, everything, and the cursor goes home.
pub proof fn erase_in_display(s: ScreenView)
    requires
        at_rest(s),
    ensures
        s.fed(bare(0x4a)) == s.fed(control(0, 0x4a)),
        ({
            let t = s.fed(bare(0x4a));
            &&& t.row == s.row && t.col == s.col
            &&& t.lines.len() == s.row + 1
            &&& forall|r: int, c: int|
                #[trigger] cell(t, r, c) == (if r > s.row || (r == s.row && c >= s.col) {
                    ' '
                } else {
                    cell(s, r, c)
                })
        }),
        ({
            let t = s.fed(control(1, 0x4a));
            &&& t.row == s.row && t.col == s.col
            &&& forall|r: int, c: int|
                #[trigger] cell(t, r, c) == (if r < s.row || (r == s.row && c < s.col) {
                    ' '
                } else {
                    cell(s, r, c)
                })
        }),
        ({
            let t = s.fed(control(2, 0x4a));
            &&& t.row == 0 && t.col == 0
            &&& t.lines.len() == 0
        }),
{
    numbers_are_read(0, 0);
    numbers_are_read(1, 1);
    numbers_are_read(2, 2);
    controls(s, 0, 0, 0x4a);
    controls(s, 1, 1, 0x4a);
    controls(s, 2, 2, 0x4a);
}

/* ---------------- what is passed over ---------------- */

/// Colours and other settings are passed over: a control sequence that ends in a small letter
/// other than `f` changes nothing, whatever its parameters are.
pub proof fn settings_are_passed_over(s: ScreenView, params: Seq<u8>, last: u8)
    requires
        at_rest(s),
        forall|i: int| 0 <= i < params.len() ==> #[trigger] params[i] < 0x40,
        0x61 <= last <= 0x7a,
        last != 0x66,
    ensures
        s.fed(seq![0x1bu8, 0x5b] + params + seq![last]) == s,
{
    control_token(s, params, last);
}

proof fn title_ends(buf: Seq<u8>, j: int, k: int)
    requires
        0 <= j <= k < buf.len(),
        forall|i: int| j <= i < k ==> #[trigger] buf[i] != 0x07 && buf[i] != 0x1b,
        buf[k] == 0x07,
    ensures
        osc_end(buf, j) == Some(k + 1),
    decreases k - j,
{
    if j < k {
        assert(buf[j] != 0x07 && buf[j] != 0x1b);
        title_ends(buf, j + 1, k);
    }
}

/// So are titles: what stands between `ESC ]` and a bell is not written.
pub proof fn titles_are_passed_over(s: ScreenView, title: Seq<u8>)
    requires
        at_rest(s),
        forall|i: int| 0 <= i < title.len() ==> #[trigger] title[i] != 0x07 && title[i] != 0x1b,
    ensures
        s.fed(seq![0x1bu8, 0x5d] + title + seq![0x07u8]) == s,
{
    let t = seq![0x1bu8, 0x5d] + title + seq![0x07u8];
    let n = t.len() as int;
    assert forall|i: int| 2 <= i < n - 1 implies #[trigger] t[i] != 0x07 && t[i] != 0x1b by {
        assert(t[i] == title[i - 2]);
    }
    title_ends(t, 2, n - 1);
    assert(t[0] == 0x1b && t[1] == 0x5d);
    one_token(s, t);
}

/// And so are other short escape sequences: those that choose a character set take one byte more.
pub proof fn short_escapes_are_passed_over(s: ScreenView, kind: u8, set: u8)
    requires
        at_rest(s),
        kind != 0x5b,
        kind != 0x5d,
    ensures
        !(0x28 <= kind <= 0x2b) ==> s.fed(seq![0x1bu8, kind]) == s,
        0x28 <= kind <= 0x2b ==> s.fed(seq![0x1bu8, kind, set]) == s,
{
    if 0x28 <= kind <= 0x2b {
        one_token(s, seq![0x1bu8, kind, set]);
    } else {
        one_token(s, seq![0x1bu8, kind]);
    }
}

/// What is not yet a whole sequence or character changes nothing that is seen, and is kept.
pub proof fn parts_are_kept(s: ScreenView, n: nat)
    requires
        at_rest(s),
        n <= usize::MAX,
    ensures
        ({
            let part = seq![0x1bu8, 0x5b] + number_bytes(n);
            &&& s.fed(part).lines == s.lines
            &&& s.fed(part).row == s.row && s.fed(part).col == s.col
            &&& s.fed(part).pending == part
        }),
{
    number_is_read(n);
    let part = seq![0x1bu8, 0x5b] + number_bytes(n);
    assert(s.pending + part == part);
    assert forall|i: int| 2 <= i < part.len() implies !(0x40 <= #[trigger] part[i] <= 0x7e) by {
        assert(part[i] == number_bytes(n)[i - 2]);
    }
    no_end(part, 2);
    assert(part[0] == 0x1b && part[1] == 0x5b);
}

proof fn no_end(buf: Seq<u8>, j: int)
    requires
        0 <= j <= buf.len(),
        forall|i: int| j <= i < buf.len() ==> !(0x40 <= #[trigger] buf[i] <= 0x7e),
    ensures
        csi_end(buf, j) is None,
    decreases buf.len() - j,
{
    if j < buf.len() {
        assert(!(0x40 <= buf[j] <= 0x7e));
        no_end(buf, j + 1);
    }
}

} // verus!
