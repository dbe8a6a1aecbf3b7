//! A terminal screen, small enough to replay the progress that a command writes in place.

use vstd::prelude::*;
use vstd::utf8::{decode_utf8, valid_utf8};

verus! {

/// A minimal terminal screen: carriage returns, cursor moves and line or screen erases are
/// honoured. Colours and other sequences are parsed and ignored.
pub struct Screen {
    pub lines: Vec<Vec<char>>,
    pub row: usize,
    pub col: usize,
    /// Bytes left over from an escape sequence or UTF-8 character split across reads.
    pub pending: Vec<u8>,
}

/// What a [`Screen`] shows and where its cursor stands.
#[verifier::ext_equal]
pub struct ScreenView {
    pub lines: Seq<Seq<char>>,
    pub row: int,
    pub col: int,
    pub pending: Seq<u8>,
}

/// The characters of some rows.
pub open spec fn rows(lines: Seq<Vec<char>>) -> Seq<Seq<char>> {
    Seq::new(lines.len(), |i: int| lines[i]@)
}

impl View for Screen {
    type V = ScreenView;

    open spec fn view(&self) -> ScreenView {
        ScreenView {
            lines: rows(self.lines@),
            row: self.row as int,
            col: self.col as int,
            pending: self.pending@,
        }
    }
}

/// A cursor position that does not fit in a `usize` is the last one that does.
pub open spec fn clipped(n: int) -> int {
    if n < 0 {
        0
    } else if n > usize::MAX {
        usize::MAX as int
    } else {
        n
    }
}

/// The rows, with empty ones added so that row `row` exists.
pub open spec fn with_row(lines: Seq<Seq<char>>, row: int) -> Seq<Seq<char>> {
    if lines.len() > row {
        lines
    } else {
        lines + Seq::new((row + 1 - lines.len()) as nat, |i: int| Seq::<char>::empty())
    }
}

/// A row with the character `ch` at column `col`, and blanks before it where there was nothing.
pub open spec fn with_char(line: Seq<char>, col: int, ch: char) -> Seq<char> {
    if col < line.len() {
        line.update(col, ch)
    } else {
        (line + Seq::new((col - line.len()) as nat, |i: int| ' ')).push(ch)
    }
}

/// A row cut at column `col`.
pub open spec fn cut(line: Seq<char>, col: int) -> Seq<char> {
    if col <= line.len() {
        line.take(col)
    } else {
        line
    }
}

/// A row with blanks before column `col`.
pub open spec fn blanked_before(line: Seq<char>, col: int) -> Seq<char> {
    Seq::new(line.len(), |i: int| if i < col { ' ' } else { line[i] })
}

impl ScreenView {
    pub open spec fn empty() -> ScreenView {
        ScreenView { lines: Seq::empty(), row: 0, col: 0, pending: Seq::empty() }
    }

    /// A character is written at the cursor, which moves right.
    pub open spec fn put(self, ch: char) -> ScreenView {
        let grown = with_row(self.lines, self.row);
        ScreenView {
            lines: grown.update(self.row, with_char(grown[self.row], self.col, ch)),
            col: clipped(self.col + 1),
            ..self
        }
    }

    /// The cursor moves to the start of the next row, which exists from then on.
    pub open spec fn newline(self) -> ScreenView {
        let row = clipped(self.row + 1);
        ScreenView { lines: with_row(self.lines, row), row, col: 0, ..self }
    }

    /// Erase in line: to the end (0), to the start (1), all of it (2).
    pub open spec fn erase_line(self, mode: int) -> ScreenView {
        let grown = with_row(self.lines, self.row);
        let r = self.row;
        let line = if mode == 0 {
            cut(grown[r], self.col)
        } else if mode == 1 {
            blanked_before(grown[r], self.col)
        } else if mode == 2 {
            Seq::empty()
        } else {
            grown[r]
        };
        ScreenView { lines: grown.update(r, line), ..self }
    }

    /// Erase in display: to the end (0), to the start (1), all of it (any other mode; the cursor
    /// goes home).
    pub open spec fn erase_display(self, mode: int) -> ScreenView {
        let grown = with_row(self.lines, self.row);
        let r = self.row;
        if mode == 0 {
            ScreenView { lines: grown.update(r, cut(grown[r], self.col)).take(r + 1), ..self }
        } else if mode == 1 {
            ScreenView {
                lines: Seq::new(
                    grown.len(),
                    |i: int|
                        if i < r {
                            Seq::empty()
                        } else if i == r {
                            blanked_before(grown[r], self.col)
                        } else {
                            grown[i]
                        },
                ),
                ..self
            }
        } else {
            ScreenView { lines: Seq::empty(), row: 0, col: 0, ..self }
        }
    }

    /// The effect of a control sequence with parameter bytes `params` and final byte `last`.
    pub open spec fn csi(self, params: Seq<u8>, last: u8) -> ScreenView {
        let nums = csi_numbers(params);
        let p0 = nums[0];
        let n = if p0 == 0 {
            1
        } else {
            p0
        };
        if last == 0x41 {
            ScreenView { row: clipped(self.row - n), ..self }
        } else if last == 0x42 {
            ScreenView { row: clipped(self.row + n), ..self }
        } else if last == 0x43 {
            ScreenView { col: clipped(self.col + n), ..self }
        } else if last == 0x44 {
            ScreenView { col: clipped(self.col - n), ..self }
        } else if last == 0x45 {
            ScreenView { row: clipped(self.row + n), col: 0, ..self }
        } else if last == 0x46 {
            ScreenView { row: clipped(self.row - n), col: 0, ..self }
        } else if last == 0x47 {
            ScreenView { col: clipped(p0 - 1), ..self }
        } else if last == 0x48 || last == 0x66 {
            ScreenView {
                row: clipped(p0 - 1),
                col: if nums.len() > 1 {
                    clipped(nums[1] - 1)
                } else {
                    0
                },
                ..self
            }
        } else if last == 0x4a {
            self.erase_display(p0)
        } else if last == 0x4b {
            self.erase_line(p0)
        } else {
            self
        }
    }

    /// The effect of one whole token: a control character, an escape sequence or a character.
    pub open spec fn apply(self, token: Seq<u8>) -> ScreenView {
        let b = token[0];
        if b == 0x1b {
            if token[1] == 0x5b {
                self.csi(token.subrange(2, token.len() - 1), token.last())
            } else {
                self
            }
        } else if b == 0x0d {
            ScreenView { col: 0, ..self }
        } else if b == 0x0a {
            self.newline()
        } else if b == 0x09 {
            ScreenView { col: clipped((self.col / 8 + 1) * 8), ..self }
        } else if b == 0x08 {
            ScreenView { col: clipped(self.col - 1), ..self }
        } else if b < 0x20 {
            self
        } else {
            self.put(glyph(token))
        }
    }

    /// The screen after all whole tokens of `buf`; what is left of `buf` is kept for later.
    pub open spec fn run(self, buf: Seq<u8>) -> ScreenView
        decreases buf.len(),
    {
        if buf.len() == 0 {
            ScreenView { pending: buf, ..self }
        } else {
            match token_len(buf) {
                Some(n) => {
                    proof {
                        token_bounds(buf);
                    }
                    self.apply(buf.take(n)).run(buf.skip(n))
                },
                None => ScreenView { pending: buf, ..self },
            }
        }
    }

    /// The screen after it was handed `data`.
    pub open spec fn fed(self, data: Seq<u8>) -> ScreenView {
        ScreenView { pending: Seq::empty(), ..self }.run(self.pending + data)
    }
}

/// The character that some bytes encode; the replacement character, if they encode none.
pub open spec fn glyph(bytes: Seq<u8>) -> char {
    if valid_utf8(bytes) {
        decode_utf8(bytes)[0]
    } else {
        '\u{fffd}'
    }
}

/// The bytes that a UTF-8 character takes, by its first byte.
pub open spec fn char_len(b: u8) -> int {
    if 0xc0 <= b <= 0xdf {
        2
    } else if 0xe0 <= b <= 0xef {
        3
    } else if 0xf0 <= b <= 0xf7 {
        4
    } else {
        1
    }
}

/// The first position from `j` on of a byte that ends a control sequence.
pub open spec fn csi_end(buf: Seq<u8>, j: int) -> Option<int>
    decreases buf.len() - j,
{
    if j >= buf.len() {
        None
    } else if 0x40 <= buf[j] <= 0x7e {
        Some(j)
    } else {
        csi_end(buf, j + 1)
    }
}

/// The position just behind the first bell, or escape and backslash, from `j` on.
pub open spec fn osc_end(buf: Seq<u8>, j: int) -> Option<int>
    decreases buf.len() - j,
{
    if j >= buf.len() {
        None
    } else if buf[j] == 0x07 {
        Some(j + 1)
    } else if buf[j] == 0x1b && j + 1 < buf.len() && buf[j + 1] == 0x5c {
        Some(j + 2)
    } else {
        osc_end(buf, j + 1)
    }
}

/// The length of the escape sequence that `buf` begins with, if all of it is there.
pub open spec fn escape_len(buf: Seq<u8>) -> Option<int> {
    if buf.len() < 2 {
        None
    } else if buf[1] == 0x5b {
        match csi_end(buf, 2) {
            Some(j) => Some(j + 1),
            None => None,
        }
    } else if buf[1] == 0x5d {
        osc_end(buf, 2)
    } else if 0x28 <= buf[1] <= 0x2b {
        if buf.len() > 2 {
            Some(3)
        } else {
            None
        }
    } else {
        Some(2)
    }
}

/// The length of the token that `buf` begins with, if all of it is there.
pub open spec fn token_len(buf: Seq<u8>) -> Option<int> {
    if buf[0] == 0x1b {
        escape_len(buf)
    } else if buf[0] < 0x20 {
        Some(1)
    } else if char_len(buf[0]) <= buf.len() {
        Some(char_len(buf[0]))
    } else {
        None
    }
}

proof fn csi_end_bounds(buf: Seq<u8>, j: int)
    requires
        0 <= j,
    ensures
        csi_end(buf, j) matches Some(k) ==> j <= k < buf.len() && 0x40 <= buf[k] <= 0x7e,
    decreases buf.len() - j,
{
    if j < buf.len() {
        csi_end_bounds(buf, j + 1);
    }
}

proof fn osc_end_bounds(buf: Seq<u8>, j: int)
    requires
        0 <= j,
    ensures
        osc_end(buf, j) matches Some(k) ==> j < k <= buf.len(),
    decreases buf.len() - j,
{
    if j < buf.len() {
        osc_end_bounds(buf, j + 1);
    }
}

/// A token is not empty, and no longer than what is there.
pub proof fn token_bounds(buf: Seq<u8>)
    requires
        buf.len() > 0,
    ensures
        token_len(buf) matches Some(n) ==> 0 < n <= buf.len(),
{
    csi_end_bounds(buf, 2);
    osc_end_bounds(buf, 2);
}

proof fn csi_end_stable(buf: Seq<u8>, more: Seq<u8>, j: int)
    requires
        0 <= j,
    ensures
        csi_end(buf, j) is Some ==> csi_end(buf + more, j) == csi_end(buf, j),
    decreases buf.len() - j,
{
    if j < buf.len() {
        csi_end_stable(buf, more, j + 1);
    }
}

proof fn osc_end_stable(buf: Seq<u8>, more: Seq<u8>, j: int)
    requires
        0 <= j,
    ensures
        osc_end(buf, j) is Some ==> osc_end(buf + more, j) == osc_end(buf, j),
    decreases buf.len() - j,
{
    if j < buf.len() {
        osc_end_stable(buf, more, j + 1);
        if buf[j] == 0x1b && j + 1 == buf.len() {
            assert(osc_end(buf, j + 1) is None);
        }
    }
}

/// What follows a whole token does not change it.
pub proof fn token_stable(buf: Seq<u8>, more: Seq<u8>)
    requires
        buf.len() > 0,
        token_len(buf) is Some,
    ensures
        token_len(buf + more) == token_len(buf),
{
    csi_end_stable(buf, more, 2);
    osc_end_stable(buf, more, 2);
}

proof fn run_in_two(s: ScreenView, x: Seq<u8>, y: Seq<u8>)
    requires
        s.pending == Seq::<u8>::empty(),
    ensures
        s.run(x).fed(y) == s.run(x + y),
    decreases x.len(),
{
    if x.len() == 0 {
        assert(x + y == y);
        assert(s.run(x) == s);
        assert(s.pending + y == y);
    } else {
        match token_len(x) {
            Some(n) => {
                token_bounds(x);
                token_stable(x, y);
                let t = s.apply(x.take(n));
                assert((x + y).take(n) == x.take(n));
                assert((x + y).skip(n) == x.skip(n) + y);
                run_in_two(t, x.skip(n), y);
            },
            None => {
                assert(ScreenView { pending: Seq::empty(), ..s.run(x) } == s);
            },
        }
    }
}

/// Output may arrive in any pieces: to hand the screen `a` and then `b` is to hand it `a + b`.
/// So an escape sequence or a character that was split between two reads is still honoured.
pub proof fn feed_in_pieces(s: ScreenView, a: Seq<u8>, b: Seq<u8>)
    ensures
        s.fed(a).fed(b) == s.fed(a + b),
{
    let start = ScreenView { pending: Seq::empty(), ..s };
    run_in_two(start, s.pending + a, b);
    assert((s.pending + a) + b == s.pending + (a + b));
}

/// The parts of some bytes between the occurrences of a separator.
pub open spec fn byte_parts(s: Seq<u8>, sep: u8) -> Seq<Seq<u8>>
    decreases s.len(),
{
    if s.len() == 0 {
        seq![Seq::empty()]
    } else {
        let before = byte_parts(s.drop_last(), sep);
        if s.last() == sep {
            before.push(Seq::empty())
        } else {
            before.drop_last().push(before.last().push(s.last()))
        }
    }
}

proof fn byte_parts_nonempty(s: Seq<u8>, sep: u8)
    ensures
        byte_parts(s, sep).len() > 0,
    decreases s.len(),
{
    if s.len() > 0 {
        byte_parts_nonempty(s.drop_last(), sep);
    }
}

/// Bytes without the question marks that they begin with.
pub open spec fn without_marks(s: Seq<u8>) -> Seq<u8>
    decreases s.len(),
{
    if s.len() > 0 && s[0] == 0x3f {
        without_marks(s.drop_first())
    } else {
        s
    }
}

pub open spec fn all_digits(s: Seq<u8>) -> bool {
    forall|i: int| 0 <= i < s.len() ==> 0x30 <= #[trigger] s[i] <= 0x39
}

pub open spec fn digits_value(s: Seq<u8>) -> int
    decreases s.len(),
{
    if s.len() == 0 {
        0
    } else {
        digits_value(s.drop_last()) * 10 + (s.last() - 0x30)
    }
}

/// The digits of a number that may have a plus sign before it.
pub open spec fn unsigned_digits(s: Seq<u8>) -> Seq<u8> {
    if s.len() > 0 && s[0] == 0x2b {
        s.drop_first()
    } else {
        s
    }
}

/// The number that one parameter stands for: 0 where it is none, or too large.
pub open spec fn parameter(s: Seq<u8>) -> int {
    let d = unsigned_digits(without_marks(s));
    if d.len() > 0 && all_digits(d) && digits_value(d) <= usize::MAX {
        digits_value(d)
    } else {
        0
    }
}

pub open spec fn parameters(l: Seq<Seq<u8>>) -> Seq<int> {
    Seq::new(l.len(), |i: int| parameter(l[i]))
}

pub open spec fn as_ints(s: Seq<usize>) -> Seq<int> {
    Seq::new(s.len(), |i: int| s[i] as int)
}

/// The numbers of a control sequence.
pub open spec fn csi_numbers(params: Seq<u8>) -> Seq<int> {
    if valid_utf8(params) {
        parameters(byte_parts(params, 0x3b))
    } else {
        seq![0]
    }
}

/// Sequences that neither move the cursor nor erase, such as those for colours, change nothing.
pub proof fn other_sequences_ignored(s: ScreenView, params: Seq<u8>, last: u8)
    requires
        !(0x41 <= last <= 0x48),
        last != 0x66,
        last != 0x4a,
        last != 0x4b,
    ensures
        s.csi(params, last) == s,
{
}

/// `std::str::from_utf8`: the characters, if the bytes are valid UTF-8.
#[verifier::external_body]
fn utf8_text(bytes: &[u8]) -> (r: Option<String>)
    ensures
        r is Some == valid_utf8(bytes@),
        r matches Some(s) ==> s@ == decode_utf8(bytes@),
{
    std::str::from_utf8(bytes).ok().map(|s| s.to_string())
}

fn decode_glyph(bytes: &[u8]) -> (r: char)
    requires
        bytes@.len() > 0,
    ensures
        r == glyph(bytes@),
{
    match utf8_text(bytes) {
        Some(s) => s.as_str().get_char(0),
        None => '\u{fffd}',
    }
}

pub fn utf8_len(b: u8) -> (r: usize)
    ensures
        r == char_len(b),
{
    if 0xc0 <= b && b <= 0xdf {
        2
    } else if 0xe0 <= b && b <= 0xef {
        3
    } else if 0xf0 <= b && b <= 0xf7 {
        4
    } else {
        1
    }
}

/// The number that `s[from..to]` stands for.
fn parse_parameter(s: &[u8], from: usize, to: usize) -> (r: usize)
    requires
        from <= to <= s@.len(),
    ensures
        r == parameter(s@.subrange(from as int, to as int)),
{
    let ghost p = s@.subrange(from as int, to as int);
    let mut i: usize = from;
    while i < to && s[i] == 0x3f
        invariant
            from <= i <= to <= s@.len(),
            p == s@.subrange(from as int, to as int),
            without_marks(s@.subrange(i as int, to as int)) == without_marks(p),
        decreases to - i,
    {
        assert(s@.subrange(i as int, to as int).drop_first() == s@.subrange(i + 1, to as int));
        i += 1;
    }
    assert(without_marks(p) == s@.subrange(i as int, to as int));
    if i < to && s[i] == 0x2b {
        assert(s@.subrange(i as int, to as int).drop_first() == s@.subrange(i + 1, to as int));
        i += 1;
    }
    let ghost d = s@.subrange(i as int, to as int);
    assert(d == unsigned_digits(without_marks(p)));
    if i == to {
        return 0;
    }
    let start: usize = i;
    let mut acc: usize = 0;
    let mut over: bool = false;
    assert(digits_value(d.take(0)) == 0);
    while i < to
        invariant
            start <= i <= to <= s@.len(),
            start < to,
            p == s@.subrange(from as int, to as int),
            d == s@.subrange(start as int, to as int),
            d == unsigned_digits(without_marks(p)),
            all_digits(d.take(i - start)),
            over ==> digits_value(d.take(i - start)) > usize::MAX,
            !over ==> digits_value(d.take(i - start)) == acc,
        decreases to - i,
    {
        let b = s[i];
        assert(d[i - start] == b);
        if b < 0x30 || b > 0x39 {
            return 0;
        }
        assert(d.take(i + 1 - start).drop_last() == d.take(i - start));
        if !over {
            let v: usize = (b - 0x30) as usize;
            if acc > usize::MAX / 10 || acc * 10 > usize::MAX - v {
                over = true;
            } else {
                acc = acc * 10 + v;
            }
        }
        i += 1;
    }
    assert(d.take(d.len() as int) == d);
    if over {
        0
    } else {
        acc
    }
}

fn parse_parameters(params: &[u8]) -> (r: Vec<usize>)
    ensures
        as_ints(r@) == csi_numbers(params@),
        r@.len() > 0,
{
    let mut out: Vec<usize> = Vec::new();
    if utf8_text(params).is_none() {
        out.push(0);
        assert(as_ints(out@) == seq![0int]);
        return out;
    }
    let ghost mut done: Seq<Seq<u8>> = Seq::empty();
    let mut from: usize = 0;
    let mut i: usize = 0;
    assert(params@.take(0) == Seq::<u8>::empty());
    assert(params@.subrange(0, 0) == Seq::<u8>::empty());
    assert(done.push(params@.subrange(0, 0)) == byte_parts(params@.take(0), 0x3b));
    while i < params.len()
        invariant
            from <= i <= params@.len(),
            done.push(params@.subrange(from as int, i as int)) == byte_parts(
                params@.take(i as int),
                0x3b,
            ),
            as_ints(out@) == parameters(done),
        decreases params@.len() - i,
    {
        let ghost before = byte_parts(params@.take(i as int), 0x3b);
        assert(params@.take(i + 1).drop_last() == params@.take(i as int));
        assert(before.drop_last() == done);
        if params[i] == 0x3b {
            let n = parse_parameter(params, from, i);
            assert(before == done.push(params@.subrange(from as int, i as int)));
            let ghost found = out@;
            out.push(n);
            assert(as_ints(out@) == as_ints(found).push(n as int));
            assert(parameters(before) == parameters(done).push(n as int));
            proof {
                done = before;
            }
            from = i + 1;
            assert(params@.subrange(from as int, i + 1) == Seq::<u8>::empty());
        } else {
            assert(params@.subrange(from as int, i + 1) == params@.subrange(
                from as int,
                i as int,
            ).push(params@[i as int]));
        }
        i += 1;
    }
    assert(params@.take(params@.len() as int) == params@);
    let ghost all = done.push(params@.subrange(from as int, params@.len() as int));
    let n = parse_parameter(params, from, params.len());
    let ghost found = out@;
    out.push(n);
    assert(as_ints(out@) == as_ints(found).push(n as int));
    assert(parameters(all) == parameters(done).push(n as int));
    out
}

impl Screen {
    pub fn new() -> (r: Screen)
        ensures
            r@ == ScreenView::empty(),
    {
        Screen { lines: Vec::new(), row: 0, col: 0, pending: Vec::new() }
    }

    fn ensure_row(&mut self, row: usize)
        ensures
            final(self)@ == (ScreenView { lines: with_row(old(self)@.lines, row as int), ..old(self)@ }),
    {
        let ghost start = rows(self.lines@);
        let ghost o = self@;
        assert(self@.lines == start + Seq::new(0, |i: int| Seq::<char>::empty()));
        while self.lines.len() <= row
            invariant
                start.len() <= self.lines@.len(),
                self.lines@.len() <= row + 1 || self.lines@.len() == start.len(),
                self@ == (ScreenView {
                    lines: start + Seq::new(
                        (self.lines@.len() - start.len()) as nat,
                        |i: int| Seq::<char>::empty(),
                    ),
                    ..o
                }),
            decreases row + 1 - self.lines@.len(),
        {
            let ghost before = rows(self.lines@);
            self.lines.push(Vec::new());
            assert(rows(self.lines@) == before.push(Seq::empty()));
        }
        assert(start + Seq::new(0, |i: int| Seq::<char>::empty()) == start);
    }

    pub fn newline(&mut self)
        ensures
            final(self)@ == old(self)@.newline(),
    {
        self.row = self.row.saturating_add(1);
        self.col = 0;
        self.ensure_row(self.row);
    }

    pub fn put(&mut self, ch: char)
        ensures
            final(self)@ == old(self)@.put(ch),
    {
        self.ensure_row(self.row);
        let ghost grown = self@.lines;
        assert(grown == rows(self.lines@) && grown.len() == self.lines@.len());
        let row: usize = self.row;
        let col: usize = self.col;
        let mut line: Vec<char> = Vec::new();
        core::mem::swap(&mut line, &mut self.lines[row]);
        let ghost first = line@;
        assert(first == grown[row as int]);
        assert(first + Seq::new(0, |i: int| ' ') == first);
        while line.len() < col
            invariant
                first.len() <= line@.len(),
                line@.len() <= col || line@.len() == first.len(),
                line@ == first + Seq::new((line@.len() - first.len()) as nat, |i: int| ' '),
            decreases col - line@.len(),
        {
            line.push(' ');
        }
        if col < line.len() {
            line[col] = ch;
        } else {
            line.push(ch);
        }
        assert(line@ == with_char(first, col as int, ch));
        self.lines[row] = line;
        self.col = self.col.saturating_add(1);
        assert(rows(self.lines@) == grown.update(row as int, line@));
    }
}

impl Screen {
    fn erase_line(&mut self, mode: usize)
        ensures
            final(self)@ == old(self)@.erase_line(mode as int),
    {
        self.ensure_row(self.row);
        let ghost grown = self@.lines;
        assert(grown == rows(self.lines@) && grown.len() == self.lines@.len());
        let row: usize = self.row;
        let col: usize = self.col;
        let mut line: Vec<char> = Vec::new();
        core::mem::swap(&mut line, &mut self.lines[row]);
        assert(line@ == grown[row as int]);
        match mode {
            0 => {
                line.truncate(col);
            },
            1 => {
                blank_before(&mut line, col);
            },
            2 => {
                line.clear();
            },
            _ => {},
        }
        self.lines[row] = line;
        assert(rows(self.lines@) == grown.update(row as int, line@));
    }

    fn erase_display(&mut self, mode: usize)
        ensures
            final(self)@ == old(self)@.erase_display(mode as int),
    {
        match mode {
            0 => {
                self.ensure_row(self.row);
                let ghost grown = self@.lines;
                assert(grown == rows(self.lines@) && grown.len() == self.lines@.len());
                let row: usize = self.row;
                let mut line: Vec<char> = Vec::new();
                core::mem::swap(&mut line, &mut self.lines[row]);
                assert(line@ == grown[row as int]);
                line.truncate(self.col);
                self.lines[row] = line;
                assert(rows(self.lines@) == grown.update(row as int, line@));
                if row < self.lines.len() - 1 {
                    self.lines.truncate(row + 1);
                }
                assert(rows(self.lines@) == grown.update(row as int, line@).take(row + 1));
            },
            1 => {
                self.ensure_row(self.row);
                let ghost grown = self@.lines;
                let ghost o = self@;
                assert(grown == rows(self.lines@) && grown.len() == self.lines@.len());
                let row: usize = self.row;
                let mut r: usize = 0;
                while r < row
                    invariant
                        r <= row < self.lines@.len(),
                        self.lines@.len() == grown.len(),
                        self@ == (ScreenView { lines: self@.lines, ..o }),
                        forall|i: int| 0 <= i < r ==> self.lines@[i]@ == Seq::<char>::empty(),
                        forall|i: int| r <= i < grown.len() ==> self.lines@[i]@ == grown[i],
                    decreases row - r,
                {
                    self.lines[r] = Vec::new();
                    r += 1;
                }
                let mut line: Vec<char> = Vec::new();
                core::mem::swap(&mut line, &mut self.lines[row]);
                assert(line@ == grown[row as int]);
                blank_before(&mut line, self.col);
                self.lines[row] = line;
            },
            _ => {
                self.lines.clear();
                self.row = 0;
                self.col = 0;
                assert(rows(self.lines@) == Seq::<Seq<char>>::empty());
            },
        }
    }

    fn dispatch_csi(&mut self, params: &[u8], final_byte: u8)
        ensures
            final(self)@ == old(self)@.csi(params@, final_byte),
    {
        let nums = parse_parameters(params);
        assert(as_ints(nums@)[0] == nums@[0]);
        assert(nums@.len() > 1 ==> as_ints(nums@)[1] == nums@[1]);
        let p0: usize = nums[0];
        let n: usize = if p0 == 0 {
            1
        } else {
            p0
        };
        match final_byte {
            0x41 => {
                self.row = self.row.saturating_sub(n);
            },
            0x42 => {
                self.row = self.row.saturating_add(n);
            },
            0x43 => {
                self.col = self.col.saturating_add(n);
            },
            0x44 => {
                self.col = self.col.saturating_sub(n);
            },
            0x45 => {
                self.row = self.row.saturating_add(n);
                self.col = 0;
            },
            0x46 => {
                self.row = self.row.saturating_sub(n);
                self.col = 0;
            },
            0x47 => {
                self.col = p0.saturating_sub(1);
            },
            0x48 | 0x66 => {
                self.row = p0.saturating_sub(1);
                self.col = if nums.len() > 1 {
                    nums[1].saturating_sub(1)
                } else {
                    0
                };
            },
            0x4a => self.erase_display(p0),
            0x4b => self.erase_line(p0),
            _ => {},
        }
    }

    /// Handles the escape sequence that `buf` holds at `i`. Returns the position just behind it,
    /// or `None` if the buffer ends within it.
    fn parse_escape(&mut self, buf: &[u8], i: usize) -> (r: Option<usize>)
        requires
            i < buf@.len(),
            buf@[i as int] == 0x1b,
        ensures
            match r {
                Some(next) => {
                    &&& i < next <= buf@.len()
                    &&& token_len(buf@.skip(i as int)) == Some(next - i)
                    &&& final(self)@ == old(self)@.apply(buf@.subrange(i as int, next as int))
                },
                None => token_len(buf@.skip(i as int)) is None && final(self)@ == old(self)@,
            },
    {
        let ghost rest = buf@.skip(i as int);
        let n: usize = buf.len();
        if i + 1 >= n {
            return None;
        }
        let kind: u8 = buf[i + 1];
        assert(rest[1] == kind);
        if kind == 0x5b {
            let mut j: usize = i + 2;
            while j < n
                invariant
                    i + 2 <= j <= n,
                    n == buf@.len(),
                    rest == buf@.skip(i as int),
                    csi_end(rest, 2) == csi_end(rest, j - i),
                    rest[0] == 0x1b,
                    rest[1] == 0x5b,
                    self@ == old(self)@,
                decreases n - j,
            {
                let c: u8 = buf[j];
                assert(rest[j - i] == c);
                if 0x40 <= c && c <= 0x7e {
                    let params = vstd::slice::slice_subrange(buf, i + 2, j);
                    let ghost token = buf@.subrange(i as int, j + 1);
                    assert(token.subrange(2, token.len() - 1) == params@);
                    assert(token[0] == rest[0] && token[1] == rest[1] && token.last() == c);
                    self.dispatch_csi(params, c);
                    return Some(j + 1);
                }
                j += 1;
            }
            None
        } else if kind == 0x5d {
            let mut j: usize = i + 2;
            while j < n
                invariant
                    i + 2 <= j <= n,
                    n == buf@.len(),
                    rest == buf@.skip(i as int),
                    osc_end(rest, 2) == osc_end(rest, j - i),
                    rest[0] == 0x1b,
                    rest[1] == 0x5d,
                    self@ == old(self)@,
                decreases n - j,
            {
                assert(rest[j - i] == buf@[j as int]);
                if buf[j] == 0x07 {
                    return Some(j + 1);
                }
                if buf[j] == 0x1b && j + 1 < n && buf[j + 1] == 0x5c {
                    assert(rest[j + 1 - i] == buf@[j + 1]);
                    return Some(j + 2);
                }
                assert(j + 1 < n ==> rest[j + 1 - i] == buf@[j + 1]);
                j += 1;
            }
            None
        } else if 0x28 <= kind && kind <= 0x2b {
            if n > i + 2 {
                Some(i + 3)
            } else {
                None
            }
        } else {
            Some(i + 2)
        }
    }

    /// Hands some output to the screen.
    pub fn feed(&mut self, data: &[u8])
        ensures
            final(self)@ == old(self)@.fed(data@),
    {
        let mut buf: Vec<u8> = Vec::new();
        core::mem::swap(&mut buf, &mut self.pending);
        buf.extend_from_slice(data);
        assert(buf@ == old(self)@.pending + data@);
        let ghost goal = old(self)@.fed(data@);
        let n: usize = buf.len();
        let mut i: usize = 0;
        let mut whole: bool = true;
        assert(buf@.skip(0) == buf@);
        assert(self@ == (ScreenView { pending: Seq::empty(), ..old(self)@ }));
        while i < n && whole
            invariant
                i <= n,
                n == buf@.len(),
                self@.pending == Seq::<u8>::empty(),
                self@.run(buf@.skip(i as int)) == goal,
                !whole ==> i < n && token_len(buf@.skip(i as int)) is None,
            decreases n - i,
                if whole {
                    1int
                } else {
                    0int
                },
        {
            let b: u8 = buf[i];
            let ghost rest = buf@.skip(i as int);
            assert(rest[0] == b);
            if b == 0x1b {
                match self.parse_escape(buf.as_slice(), i) {
                    Some(next) => {
                        assert(rest.take(next - i) == buf@.subrange(i as int, next as int));
                        assert(rest.skip(next - i) == buf@.skip(next as int));
                        i = next;
                    },
                    None => {
                        whole = false;
                    },
                }
            } else if b < 0x20 {
                assert(rest.take(1)[0] == b);
                assert(rest.skip(1) == buf@.skip(i + 1));
                match b {
                    0x0d => {
                        self.col = 0;
                    },
                    0x0a => self.newline(),
                    0x09 => {
                        self.col = (self.col - self.col % 8).saturating_add(8);
                    },
                    0x08 => {
                        self.col = self.col.saturating_sub(1);
                    },
                    _ => {},
                }
                i += 1;
            } else {
                let len = utf8_len(b);
                if len > n - i {
                    whole = false;
                } else {
                    let token = vstd::slice::slice_subrange(buf.as_slice(), i, i + len);
                    assert(token@ == rest.take(len as int));
                    assert(token@[0] == b);
                    assert(rest.skip(len as int) == buf@.skip(i + len));
                    let ch = decode_glyph(token);
                    self.put(ch);
                    i += len;
                }
            }
        }
        let rest = vstd::slice::slice_subrange(buf.as_slice(), i, n);
        self.pending = vstd::slice::slice_to_vec(rest);
        assert(rest@ == buf@.skip(i as int));
    }
}

fn blank_before(line: &mut Vec<char>, col: usize)
    ensures
        final(line)@ == blanked_before(old(line)@, col as int),
{
    let mut i: usize = 0;
    let ghost first = line@;
    while i < col && i < line.len()
        invariant
            i <= first.len(),
            i <= col,
            line@.len() == first.len(),
            forall|j: int| 0 <= j < i ==> line@[j] == ' ',
            forall|j: int| i <= j < first.len() ==> line@[j] == first[j],
        decreases first.len() - i,
    {
        line[i] = ' ';
        i += 1;
    }
}

} // verus!
