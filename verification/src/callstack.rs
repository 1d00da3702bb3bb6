//! Frames of a script call stack: reading a line of an engine stack trace,
//! `at function (file:line:col)` or `at file:line:col`, and writing it back.

use vstd::prelude::*;

use crate::text::{
    append_decimal, digit_char, chars_of, decimal, is_white_space_char, push_char, string_of, trim_chars,
    trailing_white_space_start, trim_text, white_space_end,
};

verus! {

/// Whether a character is an ASCII digit.
pub open spec fn is_digit(c: char) -> bool {
    '0' <= c && c <= '9'
}

/// A non-empty run of ASCII digits.
pub open spec fn all_digits(s: Seq<char>) -> bool {
    s.len() > 0 && forall|i: int| 0 <= i < s.len() ==> is_digit(#[trigger] s[i])
}

/// The number written by a run of decimal digits.
pub open spec fn digits_value(s: Seq<char>) -> nat
    decreases s.len(),
{
    if s.len() == 0 {
        0
    } else {
        digits_value(s.drop_last()) * 10 + ((s.last() as nat) - 48) as nat
    }
}

/// Whether a text holds no line feed.
pub open spec fn no_newline(s: Seq<char>) -> bool {
    forall|i: int| 0 <= i < s.len() ==> #[trigger] s[i] != '\n'
}

/// The position of the last `:` of `s` before `end`, or `-1`.
pub open spec fn last_colon(s: Seq<char>, end: int) -> int
    decreases end,
{
    if end <= 0 {
        -1
    } else if s[end - 1] == ':' {
        end - 1
    } else {
        last_colon(s, end - 1)
    }
}

/// Reads `file:line:col`, optionally followed by `)`, up to the end of the
/// text: the file is what comes before the last two colons, non-empty and
/// without line feed; line and column are runs of digits that fit a `u32`.
pub open spec fn parse_tail(t: Seq<char>) -> Option<(Seq<char>, nat, nat)> {
    let u = if t.len() > 0 && t.last() == ')' {
        t.drop_last()
    } else {
        t
    };
    let j2 = last_colon(u, u.len() as int);
    let j1 = last_colon(u, j2);
    if j2 < 0 || j1 < 0 {
        None
    } else {
        let file = u.subrange(0, j1);
        let l = u.subrange(j1 + 1, j2);
        let c = u.subrange(j2 + 1, u.len() as int);
        if file.len() > 0 && no_newline(file) && all_digits(l) && all_digits(c) && digits_value(l)
            <= u32::MAX && digits_value(c) <= u32::MAX {
            Some((file, digits_value(l), digits_value(c)))
        } else {
            None
        }
    }
}

/// Reads ` function (file:line:col)` from `r`, trying the shortest function
/// name first, from `i - 1` characters on.
pub open spec fn split_frame(r: Seq<char>, i: int) -> Option<(Seq<char>, Seq<char>, nat, nat)>
    decreases r.len() - i,
{
    if i < 2 || i + 2 > r.len() {
        None
    } else if r[0] == ' ' && r[i] == ' ' && r[i + 1] == '(' && no_newline(r.subrange(1, i))
        && parse_tail(r.subrange(i + 2, r.len() as int)) is Some {
        let t = parse_tail(r.subrange(i + 2, r.len() as int))->0;
        Some((r.subrange(1, i), t.0, t.1, t.2))
    } else {
        split_frame(r, i + 1)
    }
}

/// A line of a stack trace read as function, file, line and column: white
/// space, `at`, then ` function (` when some function name lets the rest
/// read as `file:line:col)`, else `file:line:col` with an empty function.
pub open spec fn parse_frame(line: Seq<char>) -> Option<(Seq<char>, Seq<char>, nat, nat)> {
    let k = white_space_end(line, 0);
    if k + 2 <= line.len() && line[k] == 'a' && line[k + 1] == 't' {
        let r = line.subrange(k + 2, line.len() as int);
        match split_frame(r, 2) {
            Some(f) => Some(f),
            None => match parse_tail(r) {
                Some(t) => Some((Seq::empty(), t.0, t.1, t.2)),
                None => None,
            },
        }
    } else {
        None
    }
}

/// One frame of a script call stack.
#[derive(Debug)]
pub struct CallStackFrame {
    function: String,
    file: String,
    line: u32,
    col: u32,
}

/// A line that is not a stack frame.
#[derive(Clone, Copy, Debug, PartialEq, Eq, Structural)]
pub enum FrameParseError {
    /// The line does not read as `at function (file:line:col)` or
    /// `at file:line:col`.
    Malformed,
}

/// The text of a frame: `    at function (file:line:col)`, or
/// `    at file:line:col` without a function name.
pub open spec fn frame_text(function: Seq<char>, file: Seq<char>, line: nat, col: nat) -> Seq<char> {
    let place = file + seq![':'] + decimal(line) + seq![':'] + decimal(col);
    if function.len() == 0 {
        seq![' ', ' ', ' ', ' ', 'a', 't', ' '] + place
    } else {
        seq![' ', ' ', ' ', ' ', 'a', 't', ' '] + function + seq![' ', '('] + place + seq![')']
    }
}

impl CallStackFrame {
    /// The function name, empty when there is none.
    pub closed spec fn function(&self) -> Seq<char> {
        self.function@
    }

    /// The file.
    pub closed spec fn file(&self) -> Seq<char> {
        self.file@
    }

    /// The line.
    pub closed spec fn line(&self) -> u32 {
        self.line
    }

    /// The column.
    pub closed spec fn col(&self) -> u32 {
        self.col
    }

    /// The text of this frame, as stack traces show it.
    pub fn to_display_string(&self) -> (s: String)
        ensures
            s@ == frame_text(self.function(), self.file(), self.line() as nat, self.col() as nat),
    {
        let mut s = String::new();
        s.append("    at ");
        if self.function.as_str().unicode_len() > 0 {
            s.append(self.function.as_str());
            s.append(" (");
        }
        s.append(self.file.as_str());
        push_char(&mut s, ':');
        append_decimal(&mut s, self.line as u64);
        push_char(&mut s, ':');
        append_decimal(&mut s, self.col as u64);
        if self.function.as_str().unicode_len() > 0 {
            push_char(&mut s, ')');
        }
        proof {
            reveal_strlit("    at ");
            reveal_strlit(" (");
        }
        assert(s@ =~= frame_text(self.function(), self.file(), self.line() as nat, self.col() as nat));
        s
    }
}

/// The characters `lo..` of `v`.
fn tail_of(v: &Vec<char>, lo: usize) -> (t: Vec<char>)
    requires
        lo <= v.len(),
    ensures
        t@ == v@.subrange(lo as int, v.len() as int),
{
    let mut t: Vec<char> = Vec::new();
    let mut i: usize = lo;
    while i < v.len()
        invariant
            lo <= i <= v.len(),
            t@ == v@.subrange(lo as int, i as int),
        decreases v.len() - i,
    {
        t.push(v[i]);
        i = i + 1;
        assert(t@ =~= v@.subrange(lo as int, i as int));
    }
    t
}

/// The position of the last `:` of `v` before `end`, if any.
fn find_last_colon(v: &Vec<char>, end: usize) -> (j: Option<usize>)
    requires
        end <= v.len(),
    ensures
        match j {
            Some(p) => p == last_colon(v@, end as int) && p < end,
            None => last_colon(v@, end as int) == -1,
        },
    decreases end,
{
    if end == 0 {
        None
    } else if v[end - 1] == ':' {
        Some(end - 1)
    } else {
        find_last_colon(v, end - 1)
    }
}

/// Whether `lo..hi` of `v` holds no line feed.
fn newline_free(v: &Vec<char>, lo: usize, hi: usize) -> (b: bool)
    requires
        lo <= hi <= v.len(),
    ensures
        b == no_newline(v@.subrange(lo as int, hi as int)),
{
    let mut i: usize = lo;
    while i < hi
        invariant
            lo <= i <= hi <= v.len(),
            forall|k: int| lo <= k < i ==> v@[k] != '\n',
        decreases hi - i,
    {
        if v[i] == '\n' {
            assert(v@.subrange(lo as int, hi as int)[i - lo] == '\n');
            return false;
        }
        i = i + 1;
    }
    assert forall|k: int| 0 <= k < hi - lo implies #[trigger] v@.subrange(lo as int, hi as int)[k]
        != '\n' by {
        assert(v@.subrange(lo as int, hi as int)[k] == v@[lo + k]);
    }
    true
}

/// Appending a digit to a run of digits does not make its value smaller.
proof fn lemma_digits_value_grows(s: Seq<char>, n: int)
    requires
        0 <= n <= s.len(),
        forall|i: int| 0 <= i < s.len() ==> is_digit(#[trigger] s[i]),
    ensures
        digits_value(s.subrange(0, n)) <= digits_value(s),
    decreases s.len() - n,
{
    if n < s.len() {
        lemma_digits_value_grows(s, n + 1);
        assert(s.subrange(0, n + 1).drop_last() =~= s.subrange(0, n));
    } else {
        assert(s.subrange(0, n) =~= s);
    }
}

/// The value of the digits `lo..hi` of `v`, when they are all digits and
/// their value fits a `u32`.
fn digits_u32(v: &Vec<char>, lo: usize, hi: usize) -> (r: Option<u32>)
    requires
        lo <= hi <= v.len(),
    ensures
        ({
            let s = v@.subrange(lo as int, hi as int);
            match r {
                Some(x) => all_digits(s) && digits_value(s) <= u32::MAX && x == digits_value(s),
                None => !(all_digits(s) && digits_value(s) <= u32::MAX),
            }
        }),
{
    let ghost s = v@.subrange(lo as int, hi as int);
    if lo == hi {
        return None;
    }
    let mut i: usize = lo;
    while i < hi
        invariant
            lo <= i <= hi <= v.len(),
            s == v@.subrange(lo as int, hi as int),
            forall|k: int| lo <= k < i ==> is_digit(#[trigger] v@[k]),
        decreases hi - i,
    {
        if !('0' <= v[i] && v[i] <= '9') {
            assert(!is_digit(s[i - lo]));
            return None;
        }
        i = i + 1;
    }
    assert forall|k: int| 0 <= k < s.len() implies is_digit(#[trigger] s[k]) by {
        assert(s[k] == v@[lo + k]);
    }
    let mut acc: u64 = 0;
    let mut i: usize = lo;
    while i < hi
        invariant
            lo <= i <= hi <= v.len(),
            s == v@.subrange(lo as int, hi as int),
            forall|k: int| 0 <= k < s.len() ==> is_digit(#[trigger] s[k]),
            acc == digits_value(s.subrange(0, i - lo)),
            acc <= u32::MAX,
        decreases hi - i,
    {
        proof {
            assert(s.subrange(0, i + 1 - lo).drop_last() =~= s.subrange(0, i - lo));
            assert(s[i - lo] == v@[i as int]);
            assert(is_digit(s[i - lo]));
        }
        let d = (v[i] as u32 - 48) as u64;
        if acc * 10 + d > 0xffff_ffff {
            proof {
                lemma_digits_value_grows(s, i + 1 - lo);
            }
            return None;
        }
        acc = acc * 10 + d;
        i = i + 1;
    }
    assert(s.subrange(0, hi - lo) =~= s);
    Some(acc as u32)
}

/// Reads `file:line:col`, optionally followed by `)`, from all of `t`.
fn parse_tail_exec(t: &Vec<char>) -> (r: Option<(String, u32, u32)>)
    ensures
        match parse_tail(t@) {
            Some(p) => r matches Some(q) && q.0@ == p.0 && q.1 == p.1 && q.2 == p.2,
            None => r is None,
        },
{
    let n = if t.len() > 0 && t[t.len() - 1] == ')' {
        t.len() - 1
    } else {
        t.len()
    };
    let ghost u = if t@.len() > 0 && t@.last() == ')' {
        t@.drop_last()
    } else {
        t@
    };
    assert(u =~= t@.subrange(0, n as int));
    proof {
        lemma_last_colon_prefix(t@, n as int, n as int);
    }
    let j2 = match find_last_colon(t, n) {
        Some(j) => j,
        None => return None,
    };
    proof {
        lemma_last_colon_prefix(t@, n as int, j2 as int);
    }
    let j1 = match find_last_colon(t, j2) {
        Some(j) => j,
        None => return None,
    };
    assert(u.subrange(0, j1 as int) =~= t@.subrange(0, j1 as int));
    assert(u.subrange(j1 + 1, j2 as int) =~= t@.subrange(j1 + 1, j2 as int));
    assert(u.subrange(j2 + 1, u.len() as int) =~= t@.subrange(j2 + 1, n as int));
    if j1 == 0 || !newline_free(t, 0, j1) {
        return None;
    }
    let l = match digits_u32(t, j1 + 1, j2) {
        Some(x) => x,
        None => return None,
    };
    let c = match digits_u32(t, j2 + 1, n) {
        Some(x) => x,
        None => return None,
    };
    Some((string_of(t, 0, j1), l, c))
}

/// The last colon before `end` is the same in a sequence and in its first
/// `n` elements, for `end <= n`.
proof fn lemma_last_colon_prefix(s: Seq<char>, n: int, end: int)
    requires
        0 <= end <= n <= s.len(),
    ensures
        last_colon(s.subrange(0, n), end) == last_colon(s, end),
    decreases end,
{
    if end > 0 {
        lemma_last_colon_prefix(s, n, end - 1);
    }
}

/// Reads a line of a stack trace: `at function (file:line:col)` or
/// `at file:line:col`, after any white space.
pub fn parse_callstack_line(line: &str) -> (r: Result<CallStackFrame, FrameParseError>)
    ensures
        match parse_frame(line@) {
            Some(p) => r matches Ok(f) && f.function() == p.0 && f.file() == p.1 && f.line() == p.2
                && f.col() == p.3,
            None => r == Err::<CallStackFrame, FrameParseError>(FrameParseError::Malformed),
        },
{
    let v = chars_of(line);
    let mut k: usize = 0;
    while k < v.len() && is_white_space_char(v[k])
        invariant
            k <= v.len(),
            white_space_end(v@, 0) == white_space_end(v@, k as int),
        decreases v.len() - k,
    {
        k = k + 1;
    }
    if !(k < v.len() && v.len() - k >= 2 && v[k] == 'a' && v[k + 1] == 't') {
        return Err(FrameParseError::Malformed);
    }
    let r = tail_of(&v, k + 2);
    let ghost rs = line@.subrange(k + 2, line@.len() as int);
    assert(r@ == rs);
    assert(white_space_end(line@, 0) == k);
    assert(line@[k as int] == 'a' && line@[k + 1] == 't');
    let mut i: usize = 2;
    while r.len() >= 2 && i <= r.len() - 2
        invariant
            2 <= i,
            r@ == rs,
            k + 2 <= line@.len(),
            line@[k as int] == 'a',
            line@[k + 1] == 't',
            white_space_end(line@, 0) == k,
            rs == line@.subrange(k + 2, line@.len() as int),
            split_frame(rs, 2) == split_frame(rs, i as int),
        decreases r.len() - i,
    {
        if r[0] == ' ' && r[i] == ' ' && r[i + 1] == '(' && newline_free(&r, 1, i) {
            let t = tail_of(&r, i + 2);
            match parse_tail_exec(&t) {
                Some((file, l, c)) => {
                    let function = string_of(&r, 1, i);
                    proof {
                        assert(t@ == rs.subrange(i + 2, rs.len() as int));
                        assert(parse_tail(rs.subrange(i + 2, rs.len() as int)) is Some);
                        assert(split_frame(rs, i as int) == Some(
                            (rs.subrange(1, i as int), file@, l as nat, c as nat),
                        ));
                        assert(line@[k as int] == 'a' && line@[k + 1] == 't');
                        assert(parse_frame(line@) == Some(
                            (rs.subrange(1, i as int), file@, l as nat, c as nat),
                        ));
                    }
                    return Ok(CallStackFrame { function, file, line: l, col: c });
                },
                None => {},
            }
        }
        i = i + 1;
    }
    assert(split_frame(rs, i as int) is None);
    match parse_tail_exec(&r) {
        Some((file, l, c)) => Ok(CallStackFrame { function: String::new(), file, line: l, col: c }),
        None => Err(FrameParseError::Malformed),
    }
}


/// A decimal rendering is a run of digits that reads back as the number.
proof fn lemma_decimal_reads_back(n: nat)
    ensures
        all_digits(decimal(n)),
        digits_value(decimal(n)) == n,
    decreases n,
{
    let d = decimal(n);
    if n < 10 {
        assert(d.drop_last() =~= Seq::<char>::empty());
        assert(is_digit(d[0]));
        assert(digit_char(n) as nat == 48 + n);
        assert(digits_value(d) == digits_value(d.drop_last()) * 10 + ((d.last() as nat) - 48) as nat);
    } else {
        lemma_decimal_reads_back(n / 10);
        let p = decimal(n / 10);
        assert(d.drop_last() =~= p);
        assert forall|i: int| 0 <= i < d.len() implies is_digit(#[trigger] d[i]) by {
            if i < p.len() {
                assert(d[i] == p[i]);
            }
        }
        assert(digit_char(n % 10) as nat == 48 + n % 10);
        assert(d.last() == digit_char(n % 10));
        assert(n == (n / 10) * 10 + n % 10);
    }
}

/// The last `:` before `end` is at `a` when `s[a]` is one and none comes
/// after it before `end`.
proof fn lemma_last_colon_at(s: Seq<char>, a: int, end: int)
    requires
        0 <= a < end <= s.len(),
        s[a] == ':',
        forall|k: int| a < k < end ==> s[k] != ':',
    ensures
        last_colon(s, end) == a,
    decreases end,
{
    if end - 1 > a {
        lemma_last_colon_at(s, a, end - 1);
    }
}

/// `file:line:col)` reads back as its file, line and column.
proof fn lemma_place_reads_back(file: Seq<char>, line: u32, col: u32)
    requires
        file.len() > 0,
        no_newline(file),
    ensures
        parse_tail(file + seq![':'] + decimal(line as nat) + seq![':'] + decimal(col as nat) + seq![')'])
            == Some((file, line as nat, col as nat)),
{
    let dl = decimal(line as nat);
    let dc = decimal(col as nat);
    lemma_decimal_reads_back(line as nat);
    lemma_decimal_reads_back(col as nat);
    let t = file + seq![':'] + dl + seq![':'] + dc + seq![')'];
    let u = file + seq![':'] + dl + seq![':'] + dc;
    assert(t.drop_last() =~= u);
    let j1 = file.len() as int;
    let j2 = j1 + 1 + dl.len();
    assert forall|k: int| j2 < k < u.len() implies u[k] != ':' by {
        assert(u[k] == dc[k - j2 - 1]);
        assert(is_digit(dc[k - j2 - 1]));
    }
    lemma_last_colon_at(u, j2, u.len() as int);
    assert forall|k: int| j1 < k < j2 implies u[k] != ':' by {
        assert(u[k] == dl[k - j1 - 1]);
        assert(is_digit(dl[k - j1 - 1]));
    }
    lemma_last_colon_at(u, j1, j2);
    assert(u.subrange(0, j1) =~= file);
    assert(u.subrange(j1 + 1, j2) =~= dl);
    assert(u.subrange(j2 + 1, u.len() as int) =~= dc);
}

/// Whether a function name holds a space followed by `(`.
pub open spec fn has_open_paren(s: Seq<char>) -> bool {
    exists|i: int| 0 <= i && i + 1 < s.len() && s[i] == ' ' && #[trigger] s[i + 1] == '('
}

/// The search for a function name skips the positions inside it.
proof fn lemma_split_skips(r: Seq<char>, n: int, i: int)
    requires
        2 <= i <= n + 1,
        n + 3 <= r.len(),
        r[n + 1] == ' ',
        r[n + 2] == '(',
        forall|k: int| 1 <= k && k + 1 <= n ==> !(r[k] == ' ' && #[trigger] r[k + 1] == '('),
    ensures
        split_frame(r, i) == split_frame(r, n + 1),
    decreases n + 1 - i,
{
    if i < n + 1 {
        if i + 1 <= n {
            assert(!(r[i] == ' ' && r[i + 1] == '('));
        } else {
            assert(r[i + 1] == ' ');
        }
        lemma_split_skips(r, n, i + 1);
    }
}

/// Reading back the text of a frame with a function name gives the frame:
/// the name and the file are non-empty and hold no line feed, and the name
/// holds no space followed by `(`.
pub proof fn law_frame_text_reads_back(function: Seq<char>, file: Seq<char>, line: u32, col: u32)
    requires
        function.len() > 0,
        no_newline(function),
        !has_open_paren(function),
        file.len() > 0,
        no_newline(file),
    ensures
        parse_frame(frame_text(function, file, line as nat, col as nat)) == Some(
            (function, file, line as nat, col as nat),
        ),
{
    let place = file + seq![':'] + decimal(line as nat) + seq![':'] + decimal(col as nat);
    let text = frame_text(function, file, line as nat, col as nat);
    let tail = place + seq![')'];
    let r = seq![' '] + function + seq![' ', '('] + tail;
    assert(text =~= seq![' ', ' ', ' ', ' ', 'a', 't'] + r);
    assert(white_space_end(text, 4) == 4);
    assert(white_space_end(text, 3) == 4);
    assert(white_space_end(text, 2) == 4);
    assert(white_space_end(text, 1) == 4);
    assert(white_space_end(text, 0) == 4);
    assert(text.subrange(6, text.len() as int) =~= r);
    let n = function.len() as int;
    assert forall|k: int| 1 <= k && k + 1 <= n implies !(r[k] == ' ' && #[trigger] r[k + 1] == '(') by {
        assert(r[k] == function[k - 1] && r[k + 1] == function[k]);
        if function[k - 1] == ' ' && function[k] == '(' {
            assert(function[(k - 1) + 1] == '(');
        }
    }
    lemma_split_skips(r, n, 2);
    lemma_place_reads_back(file, line, col);
    assert(r.subrange(n + 3, r.len() as int) =~= file + seq![':'] + decimal(line as nat) + seq![':']
        + decimal(col as nat) + seq![')']);
    assert(r.subrange(1, n + 1) =~= function);
}

/// Reading back the trimmed text of a frame with a function name gives the
/// frame, on the same terms as `law_frame_text_reads_back`: trimming only
/// drops the leading spaces.
pub proof fn law_trimmed_frame_text_reads_back(function: Seq<char>, file: Seq<char>, line: u32, col: u32)
    requires
        function.len() > 0,
        no_newline(function),
        !has_open_paren(function),
        file.len() > 0,
        no_newline(file),
    ensures
        parse_frame(trim_text(frame_text(function, file, line as nat, col as nat))) == Some(
            (function, file, line as nat, col as nat),
        ),
{
    let text = frame_text(function, file, line as nat, col as nat);
    law_frame_text_reads_back(function, file, line, col);
    assert(white_space_end(text, 4) == 4);
    assert(white_space_end(text, 3) == 4);
    assert(white_space_end(text, 2) == 4);
    assert(white_space_end(text, 1) == 4);
    assert(white_space_end(text, 0) == 4);
    assert(text.last() == ')');
    assert(trailing_white_space_start(text, text.len() as int) == text.len());
    let t = trim_text(text);
    assert(t =~= text.subrange(4, text.len() as int));
    assert(white_space_end(t, 0) == 0);
    assert(t.subrange(2, t.len() as int) =~= text.subrange(6, text.len() as int));
}

/// The position of the first line feed of `s` from `i` on, or the length
/// of `s` when there is none.
pub open spec fn next_newline(s: Seq<char>, i: int) -> int
    decreases s.len() - i,
{
    if i >= s.len() {
        s.len() as int
    } else if s[i] == '\n' {
        i
    } else {
        next_newline(s, i + 1)
    }
}

/// The first line feed from `i` on comes at `i` or later.
pub proof fn lemma_next_newline(s: Seq<char>, i: int)
    requires
        0 <= i,
    ensures
        i <= next_newline(s, i) || (i >= s.len() && next_newline(s, i) == s.len()),
        next_newline(s, i) <= s.len() || i > s.len(),
        i <= s.len() ==> i <= next_newline(s, i) <= s.len(),
        next_newline(s, i) < s.len() ==> s[next_newline(s, i)] == '\n',
        forall|k: int| i <= k < next_newline(s, i) && k < s.len() ==> s[k] != '\n',
    decreases s.len() - i,
{
    if i < s.len() && s[i] != '\n' {
        lemma_next_newline(s, i + 1);
    }
}

/// The lines of `s` from position `start` on, as `str::lines` gives them:
/// the pieces between line feeds, with no empty piece after a final line
/// feed. A carriage return before a line feed stays on its line; trimming
/// takes it away.
pub open spec fn lines_from(s: Seq<char>, start: int) -> Seq<Seq<char>>
    decreases s.len() + 1 - start,
{
    if start < 0 || start >= s.len() {
        Seq::empty()
    } else {
        let e = next_newline(s, start);
        proof {
            lemma_next_newline(s, start);
        }
        seq![s.subrange(start, e)] + lines_from(s, e + 1)
    }
}

/// Whether a frame holds what reading a line gave.
pub open spec fn frame_is(f: CallStackFrame, p: (Seq<char>, Seq<char>, nat, nat)) -> bool {
    f.function() == p.0 && f.file() == p.1 && f.line() == p.2 && f.col() == p.3
}

/// Reads a whole stack trace, line by line, each line trimmed first: the
/// frames in order when every line reads as a frame, else nothing.
pub fn parse_callstack(stack: &str) -> (r: Option<Vec<CallStackFrame>>)
    ensures
        ({
            let lines = lines_from(stack@, 0);
            &&& r is Some <==> forall|i: int|
                0 <= i < lines.len() ==> (#[trigger] parse_frame(trim_text(lines[i]))) is Some
            &&& r matches Some(frames) ==> frames.len() == lines.len() && forall|i: int|
                0 <= i < lines.len() ==> frame_is(
                    #[trigger] frames@[i],
                    parse_frame(trim_text(lines[i]))->0,
                )
        }),
{
    let v = chars_of(stack);
    let ghost all = lines_from(stack@, 0);
    let ghost mut done: Seq<Seq<char>> = Seq::empty();
    let mut frames: Vec<CallStackFrame> = Vec::new();
    let mut start: usize = 0;
    while start < v.len()
        invariant
            v@ == stack@,
            start <= v.len(),
            all == lines_from(stack@, 0),
            all == done + lines_from(v@, start as int),
            frames.len() == done.len(),
            forall|i: int| 0 <= i < done.len() ==> (#[trigger] parse_frame(trim_text(done[i]))) is Some,
            forall|i: int|
                0 <= i < done.len() ==> frame_is(
                    #[trigger] frames@[i],
                    parse_frame(trim_text(done[i]))->0,
                ),
        decreases v.len() - start,
    {
        let mut e: usize = start;
        while e < v.len() && v[e] != '\n'
            invariant
                start <= e <= v.len(),
                next_newline(v@, start as int) == next_newline(v@, e as int),
            decreases v.len() - e,
        {
            e = e + 1;
        }
        proof {
            lemma_next_newline(v@, start as int);
        }
        let piece = tail_of(&v, start);
        let mut line: Vec<char> = Vec::new();
        let mut k: usize = 0;
        while k < e - start
            invariant
                start <= e <= v.len(),
                piece@ == v@.subrange(start as int, v.len() as int),
                k <= e - start,
                line@ == v@.subrange(start as int, start + k),
            decreases e - start - k,
        {
            line.push(piece[k]);
            k = k + 1;
            assert(line@ =~= v@.subrange(start as int, start + k));
        }
        let ghost text = v@.subrange(start as int, e as int);
        assert(line@ == text);
        let trimmed = trim_chars(&line);
        let parsed = parse_callstack_line(trimmed.as_str());
        assert(lines_from(v@, start as int) == seq![text] + lines_from(v@, e + 1));
        match parsed {
            Ok(frame) => {
                proof {
                    assert(done + lines_from(v@, start as int) =~= done.push(text) + lines_from(
                        v@,
                        e + 1,
                    ));
                    done = done.push(text);
                }
                frames.push(frame);
                if e >= v.len() {
                    assert(lines_from(v@, e + 1) =~= Seq::<Seq<char>>::empty());
                    assert(all =~= done);
                    return Some(frames);
                }
                start = e + 1;
            },
            Err(_) => {
                proof {
                    let i = done.len() as int;
                    assert(all[i] == text);
                }
                return None;
            },
        }
    }
    assert(lines_from(v@, start as int) =~= Seq::<Seq<char>>::empty());
    assert(all =~= done);
    Some(frames)
}

/// The message of a script exception: its name, a colon, and its message.
pub fn exception_message(name: &str, message: &str) -> (s: String)
    ensures
        s@ == name@ + ": "@ + message@,
{
    let mut s = String::new();
    s.append(name);
    s.append(": ");
    s.append(message);
    proof {
        reveal_strlit(": ");
    }
    assert(s@ =~= name@ + ": "@ + message@);
    s
}

/// The number a text writes as `u64::from_str` reads it: an optional `+`,
/// then one or more ASCII digits whose value fits a `u64`.
pub open spec fn u64_text_value(s: Seq<char>) -> Option<nat> {
    let d = if s.len() > 0 && s[0] == '+' {
        s.drop_first()
    } else {
        s
    };
    if all_digits(d) && digits_value(d) <= u64::MAX {
        Some(digits_value(d))
    } else {
        None
    }
}

/// The value of the digits `lo..hi` of `v`, when they are all digits and
/// their value fits a `u64`.
fn digits_u64(v: &Vec<char>, lo: usize, hi: usize) -> (r: Option<u64>)
    requires
        lo <= hi <= v.len(),
    ensures
        ({
            let s = v@.subrange(lo as int, hi as int);
            match r {
                Some(x) => all_digits(s) && digits_value(s) <= u64::MAX && x == digits_value(s),
                None => !(all_digits(s) && digits_value(s) <= u64::MAX),
            }
        }),
{
    let ghost s = v@.subrange(lo as int, hi as int);
    if lo == hi {
        return None;
    }
    let mut i: usize = lo;
    while i < hi
        invariant
            lo <= i <= hi <= v.len(),
            s == v@.subrange(lo as int, hi as int),
            forall|k: int| lo <= k < i ==> is_digit(#[trigger] v@[k]),
        decreases hi - i,
    {
        if !('0' <= v[i] && v[i] <= '9') {
            assert(!is_digit(s[i - lo]));
            return None;
        }
        i = i + 1;
    }
    assert forall|k: int| 0 <= k < s.len() implies is_digit(#[trigger] s[k]) by {
        assert(s[k] == v@[lo + k]);
    }
    let mut acc: u128 = 0;
    let mut i: usize = lo;
    while i < hi
        invariant
            lo <= i <= hi <= v.len(),
            s == v@.subrange(lo as int, hi as int),
            forall|k: int| 0 <= k < s.len() ==> is_digit(#[trigger] s[k]),
            acc == digits_value(s.subrange(0, i - lo)),
            acc <= u64::MAX,
        decreases hi - i,
    {
        proof {
            assert(s.subrange(0, i + 1 - lo).drop_last() =~= s.subrange(0, i - lo));
            assert(s[i - lo] == v@[i as int]);
            assert(is_digit(s[i - lo]));
        }
        let d = (v[i] as u32 - 48) as u128;
        if acc * 10 + d > 0xffff_ffff_ffff_ffff {
            proof {
                lemma_digits_value_grows(s, i + 1 - lo);
            }
            return None;
        }
        acc = acc * 10 + d;
        i = i + 1;
    }
    assert(s.subrange(0, hi - lo) =~= s);
    Some(acc as u64)
}

impl CallStackFrame {
    /// The hash of the script source a frame's file names, when the file is
    /// such a hash: a number as `u64::from_str` reads it.
    pub fn source_hash(&self) -> (r: Option<u64>)
        ensures
            match u64_text_value(self.file()) {
                Some(n) => r == Some(n as u64),
                None => r is None,
            },
    {
        let v = chars_of(self.file.as_str());
        if v.len() > 0 && v[0] == '+' {
            assert(v@.subrange(1, v.len() as int) =~= self.file().drop_first());
            digits_u64(&v, 1, v.len())
        } else {
            assert(v@.subrange(0, v.len() as int) =~= self.file());
            digits_u64(&v, 0, v.len())
        }
    }

    /// This frame placed in the source a source map points to: the file
    /// renamed, and the line and column moved when the map gives them.
    pub fn relocated(self, file: String, location: Option<(u32, u32)>) -> (f: CallStackFrame)
        ensures
            f.function() == self.function(),
            f.file() == file@,
            match location {
                Some((line, col)) => f.line() == line && f.col() == col,
                None => f.line() == self.line() && f.col() == self.col(),
            },
    {
        let (line, col) = match location {
            Some(place) => place,
            None => (self.line, self.col),
        };
        CallStackFrame { function: self.function, file, line, col }
    }
}

} // verus!
