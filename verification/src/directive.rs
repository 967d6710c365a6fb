//! Tables written as text: one directive to a line, `.4byte` or `.2byte`,
//! followed by a number in hexadecimal or by the name of a function.
//!
//! A number contributes its bytes, most significant first. A name
//! contributes zero bytes of the directive's size and is collected apart,
//! in the order of the lines.

use vstd::prelude::*;
use crate::mem_utils::{be_u16, be_u32};

verus! {

/// Why a line of text is no directive.
#[derive(Copy, Clone, Debug, PartialEq, Eq, Structural)]
pub enum LineError {
    /// The line starts with neither `.4byte` nor `.2byte`.
    UnknownDirective,
    /// Nothing follows the directive.
    MissingValue,
    /// What follows `0x` is no hexadecimal number of 32 bits.
    InvalidNumber,
    /// The name is a lone quotation mark.
    InvalidName,
}

/// White space as Unicode's `White_Space` set defines it.
pub open spec fn is_white_space(c: char) -> bool {
    let n = c as u32;
    ||| 0x09 <= n <= 0x0D
    ||| n == 0x20
    ||| n == 0x85
    ||| n == 0xA0
    ||| n == 0x1680
    ||| 0x2000 <= n <= 0x200A
    ||| n == 0x2028
    ||| n == 0x2029
    ||| n == 0x202F
    ||| n == 0x205F
    ||| n == 0x3000
}

/// The first position at or behind `from` that holds no white space, or
/// the length of `s`.
pub open spec fn text_start(s: Seq<char>, from: int) -> int
    decreases s.len() - from,
{
    if 0 <= from < s.len() && is_white_space(s[from]) {
        text_start(s, from + 1)
    } else {
        from
    }
}

/// The position behind the last character before `to` that is no white
/// space, but no less than `from`.
pub open spec fn text_end(s: Seq<char>, from: int, to: int) -> int
    decreases to - from,
{
    if from < to <= s.len() && is_white_space(s[to - 1]) {
        text_end(s, from, to - 1)
    } else {
        to
    }
}

/// `s` without the white space at its start and at its end.
pub open spec fn trimmed(s: Seq<char>) -> Seq<char> {
    s.subrange(text_start(s, 0), text_end(s, text_start(s, 0), s.len() as int))
}

/// The first position at or behind `from` that holds a space, or the
/// length of `s`.
pub open spec fn next_space(s: Seq<char>, from: int) -> int
    decreases s.len() - from,
{
    if 0 <= from < s.len() && s[from] != ' ' {
        next_space(s, from + 1)
    } else {
        from
    }
}

/// Whether `s` begins with `prefix`.
pub open spec fn starts_with(s: Seq<char>, prefix: Seq<char>) -> bool {
    s.len() >= prefix.len() && s.subrange(0, prefix.len() as int) == prefix
}

/// The value of a hexadecimal digit of either case.
pub open spec fn hex_digit_value(c: char) -> Option<nat> {
    let n = c as u32;
    if 0x30 <= n <= 0x39 {
        Some((n - 0x30) as nat)
    } else if 0x41 <= n <= 0x46 {
        Some((n - 0x41 + 10) as nat)
    } else if 0x61 <= n <= 0x66 {
        Some((n - 0x61 + 10) as nat)
    } else {
        None
    }
}

/// The number that a sequence of hexadecimal digits stands for, if all of
/// them are digits. The empty sequence stands for zero.
pub open spec fn hex_digits_value(s: Seq<char>) -> Option<nat>
    decreases s.len(),
{
    if s.len() == 0 {
        Some(0)
    } else {
        match (hex_digits_value(s.drop_last()), hex_digit_value(s.last())) {
            (Some(v), Some(d)) => Some(16 * v + d),
            _ => None,
        }
    }
}

/// The 32-bit number that `s` stands for: an optional `+`, then at least
/// one hexadecimal digit, with a value of at most 32 bits.
pub open spec fn hex_number(s: Seq<char>) -> Option<u32> {
    let body = if s.len() > 0 && s[0] == '+' {
        s.drop_first()
    } else {
        s
    };
    if body.len() == 0 {
        None
    } else {
        match hex_digits_value(body) {
            Some(v) => if v <= u32::MAX {
                Some(v as u32)
            } else {
                None
            },
            None => None,
        }
    }
}

/// What one line says: the size of its directive in bytes, the number it
/// holds (zero for a name), and the name it holds, if any.
pub struct Line {
    pub size: nat,
    pub value: u32,
    pub name: Option<Seq<char>>,
}

/// The name that the word `value` stands for: the word itself, or what
/// stands between its quotation marks.
pub open spec fn name_of(value: Seq<char>) -> Result<Seq<char>, LineError> {
    if value.len() > 0 && value[0] == '"' && value.last() == '"' {
        if value.len() == 1 {
            Err(LineError::InvalidName)
        } else {
            Ok(value.subrange(1, value.len() - 1))
        }
    } else {
        Ok(value)
    }
}

/// What a line says. The line is trimmed and split at single spaces. Its
/// first word must begin with `.4byte` or `.2byte`; its second word is the
/// value, a number where it begins with `0x` and a name otherwise; further
/// words are not read.
pub open spec fn parse_line(line: Seq<char>) -> Result<Line, LineError> {
    let s = trimmed(line);
    let first_end = next_space(s, 0);
    let first = s.subrange(0, first_end);
    if !starts_with(first, ".4byte"@) && !starts_with(first, ".2byte"@) {
        Err(LineError::UnknownDirective)
    } else if first_end >= s.len() {
        Err(LineError::MissingValue)
    } else {
        let size: nat = if starts_with(first, ".4byte"@) {
            4
        } else {
            2
        };
        let value = s.subrange(first_end + 1, next_space(s, first_end + 1));
        if starts_with(value, "0x"@) {
            match hex_number(value.subrange(2, value.len() as int)) {
                Some(v) => Ok(Line { size, value: v, name: None }),
                None => Err(LineError::InvalidNumber),
            }
        } else {
            match name_of(value) {
                Ok(name) => Ok(Line { size, value: 0, name: Some(name) }),
                Err(e) => Err(e),
            }
        }
    }
}

/// The four bytes of `v`, most significant first.
pub open spec fn be_bytes_u32(v: u32) -> Seq<u8> {
    seq![
        (v / 0x100_0000) as u8,
        ((v / 0x1_0000) % 0x100) as u8,
        ((v / 0x100) % 0x100) as u8,
        (v % 0x100) as u8,
    ]
}

/// The two low bytes of `v`, the higher first.
pub open spec fn be_bytes_u16(v: u32) -> Seq<u8> {
    seq![((v / 0x100) % 0x100) as u8, (v % 0x100) as u8]
}

impl Line {
    /// The bytes that the line contributes to the table.
    pub open spec fn bytes(self) -> Seq<u8> {
        if self.size == 4 {
            be_bytes_u32(self.value)
        } else {
            be_bytes_u16(self.value)
        }
    }

    /// The names that the line contributes: one or none.
    pub open spec fn names(self) -> Seq<Seq<char>> {
        match self.name {
            Some(name) => seq![name],
            None => Seq::<Seq<char>>::empty(),
        }
    }
}

/// One line as read: the size of its directive in bytes, the number it
/// holds (zero for a name), and the name it holds, if any.
#[derive(Clone, Debug, PartialEq, Eq)]
pub struct Directive {
    pub size: usize,
    pub value: u32,
    pub name: Option<String>,
}

impl View for Directive {
    type V = Line;

    open spec fn view(&self) -> Line {
        Line {
            size: self.size as nat,
            value: self.value,
            name: match self.name {
                Some(name) => Some(name@),
                None => None,
            },
        }
    }
}

/// The digits of a longer sequence stand for no less than those of its
/// start, and for a number only where its start does.
pub proof fn lemma_hex_digits_prefix(s: Seq<char>, k: int)
    requires
        0 <= k <= s.len(),
    ensures
        hex_digits_value(s) matches Some(v) ==> hex_digits_value(s.take(k)) matches Some(w) && w
            <= v,
    decreases s.len(),
{
    if k == s.len() {
        assert(s.take(k) =~= s);
    } else {
        lemma_hex_digits_prefix(s.drop_last(), k);
        assert(s.drop_last().take(k) =~= s.take(k));
    }
}

/// The bytes of a number, read as a big-endian number, give the number
/// again: all of it from four bytes, its low 16 bits from two.
pub proof fn lemma_be_bytes_roundtrip(v: u32)
    ensures
        be_bytes_u32(v).len() == 4,
        be_u32(be_bytes_u32(v), 0) == v,
        be_bytes_u16(v).len() == 2,
        be_u16(be_bytes_u16(v), 0) == v % 0x1_0000,
{
}

/// Whether `c` is white space.
pub fn is_whitespace_char(c: char) -> (b: bool)
    ensures
        b == is_white_space(c),
{
    let n: u32 = c as u32;
    (0x09 <= n && n <= 0x0D) || n == 0x20 || n == 0x85 || n == 0xA0 || n == 0x1680 || (0x2000
        <= n && n <= 0x200A) || n == 0x2028 || n == 0x2029 || n == 0x202F || n == 0x205F || n
        == 0x3000
}

/// `line` without the white space at its start and at its end.
pub fn trim_line(line: &str) -> (t: &str)
    ensures
        t@ == trimmed(line@),
{
    let n: usize = line.unicode_len();
    let mut a: usize = 0;
    while a < n && is_whitespace_char(line.get_char(a))
        invariant
            a <= n,
            n == line@.len(),
            text_start(line@, 0) == text_start(line@, a as int),
        decreases n - a,
    {
        a = a + 1;
    }
    let mut b: usize = n;
    while b > a && is_whitespace_char(line.get_char(b - 1))
        invariant
            a <= b <= n,
            n == line@.len(),
            text_end(line@, a as int, n as int) == text_end(line@, a as int, b as int),
        decreases b - a,
    {
        b = b - 1;
    }
    line.substring_char(a, b)
}

/// The first position at or behind `from` that holds a space, or the
/// length of `s`.
pub fn find_space(s: &str, from: usize) -> (p: usize)
    requires
        from <= s@.len(),
    ensures
        p == next_space(s@, from as int),
        from <= p <= s@.len(),
{
    let n: usize = s.unicode_len();
    let mut p: usize = from;
    while p < n && s.get_char(p) != ' '
        invariant
            from <= p <= n,
            n == s@.len(),
            next_space(s@, from as int) == next_space(s@, p as int),
        decreases n - p,
    {
        p = p + 1;
    }
    p
}

/// Whether `s` begins with `prefix`.
pub fn has_prefix(s: &str, prefix: &str) -> (b: bool)
    ensures
        b == starts_with(s@, prefix@),
{
    let n: usize = s.unicode_len();
    let m: usize = prefix.unicode_len();
    if n < m {
        return false;
    }
    let mut i: usize = 0;
    while i < m
        invariant
            i <= m <= n,
            n == s@.len(),
            m == prefix@.len(),
            s@.subrange(0, i as int) == prefix@.subrange(0, i as int),
        decreases m - i,
    {
        if s.get_char(i) != prefix.get_char(i) {
            return false;
        }
        i = i + 1;
    }
    assert(prefix@.subrange(0, m as int) =~= prefix@);
    true
}

/// The value of a hexadecimal digit of either case.
pub fn hex_digit(c: char) -> (r: Option<u32>)
    ensures
        r is Some <==> hex_digit_value(c) is Some,
        r matches Some(d) ==> hex_digit_value(c) == Some(d as nat) && d < 16,
{
    let n: u32 = c as u32;
    if 0x30 <= n && n <= 0x39 {
        Some(n - 0x30)
    } else if 0x41 <= n && n <= 0x46 {
        Some(n - 0x41 + 10)
    } else if 0x61 <= n && n <= 0x66 {
        Some(n - 0x61 + 10)
    } else {
        None
    }
}

/// The 32-bit number that `s` stands for in hexadecimal, with an optional
/// `+` in front; `None` where it stands for none.
pub fn parse_hex_number(s: &str) -> (r: Option<u32>)
    ensures
        r == hex_number(s@),
{
    let n: usize = s.unicode_len();
    let start: usize = if n > 0 && s.get_char(0) == '+' {
        1
    } else {
        0
    };
    if start == n {
        return None;
    }
    let ghost body = if start == 1 {
        s@.drop_first()
    } else {
        s@
    };
    let mut acc: u64 = 0;
    let mut i: usize = start;
    while i < n
        invariant
            start <= i <= n,
            start <= 1,
            n == s@.len(),
            body.len() == n - start,
            body.len() > 0,
            body == (if s@.len() > 0 && s@[0] == '+' {
                s@.drop_first()
            } else {
                s@
            }),
            forall|j: int| 0 <= j < body.len() ==> body[j] == s@[j + start],
            hex_digits_value(body.take(i - start)) == Some(acc as nat),
            acc <= u32::MAX,
        decreases n - i,
    {
        let c: char = s.get_char(i);
        proof {
            let next = body.take(i - start + 1);
            assert(next.drop_last() =~= body.take(i - start));
            lemma_hex_digits_prefix(body, i - start + 1);
        }
        match hex_digit(c) {
            None => {
                return None;
            },
            Some(d) => {
                acc = acc * 16 + d as u64;
                if acc > 0xFFFF_FFFF {
                    return None;
                }
            },
        }
        i = i + 1;
    }
    assert(body.take(n - start) =~= body);
    Some(acc as u32)
}

/// The name that the word `value` stands for: the word itself, or what
/// stands between its quotation marks.
pub fn name_from(value: &str) -> (r: Result<String, LineError>)
    ensures
        r matches Ok(name) ==> name_of(value@) == Ok::<Seq<char>, LineError>(name@),
        r matches Err(e) ==> name_of(value@) == Err::<Seq<char>, LineError>(e),
{
    let n: usize = value.unicode_len();
    if n > 0 && value.get_char(0) == '"' && value.get_char(n - 1) == '"' {
        if n == 1 {
            Err(LineError::InvalidName)
        } else {
            Ok(String::from_str(value.substring_char(1, n - 1)))
        }
    } else {
        Ok(String::from_str(value))
    }
}

/// Reads one line.
pub fn parse_directive(line: &str) -> (r: Result<Directive, LineError>)
    ensures
        r matches Ok(d) ==> parse_line(line@) == Ok::<Line, LineError>(d@),
        r matches Err(e) ==> parse_line(line@) == Err::<Line, LineError>(e),
{
    let s: &str = trim_line(line);
    let n: usize = s.unicode_len();
    let first_end: usize = find_space(s, 0);
    let first: &str = s.substring_char(0, first_end);
    let four: bool = has_prefix(first, ".4byte");
    if !four && !has_prefix(first, ".2byte") {
        return Err(LineError::UnknownDirective);
    }
    if first_end >= n {
        return Err(LineError::MissingValue);
    }
    let size: usize = if four {
        4
    } else {
        2
    };
    let value: &str = s.substring_char(first_end + 1, find_space(s, first_end + 1));
    if has_prefix(value, "0x") {
        proof {
            reveal_strlit("0x");
        }
        match parse_hex_number(value.substring_char(2, value.unicode_len())) {
            Some(v) => Ok(Directive { size, value: v, name: None }),
            None => Err(LineError::InvalidNumber),
        }
    } else {
        match name_from(value) {
            Ok(name) => Ok(Directive { size, value: 0, name: Some(name) }),
            Err(e) => Err(e),
        }
    }
}

/// The bytes and the names of the lines, each in the order of the lines;
/// or what is wrong with the first line that is no directive.
pub open spec fn source_of(lines: Seq<Seq<char>>) -> Result<(Seq<u8>, Seq<Seq<char>>), LineError>
    decreases lines.len(),
{
    if lines.len() == 0 {
        Ok((Seq::<u8>::empty(), Seq::<Seq<char>>::empty()))
    } else {
        match source_of(lines.drop_last()) {
            Err(e) => Err(e),
            Ok((bytes, names)) => match parse_line(lines.last()) {
                Err(e) => Err(e),
                Ok(l) => Ok((bytes + l.bytes(), names + l.names())),
            },
        }
    }
}

/// The views of a vector of strings, in order.
pub open spec fn string_views(strings: Seq<String>) -> Seq<Seq<char>> {
    strings.map_values(|s: String| s@)
}

/// A table in the making: its bytes so far, and the names so far.
#[derive(Clone, Debug, PartialEq, Eq)]
pub struct TableSource {
    pub table_bytes: Vec<u8>,
    pub func_names: Vec<String>,
}

impl TableSource {
    /// The names as sequences of characters.
    pub open spec fn names(&self) -> Seq<Seq<char>> {
        string_views(self.func_names@)
    }

    /// No bytes and no names.
    pub fn new() -> (t: Self)
        ensures
            t.table_bytes@ == Seq::<u8>::empty(),
            t.names() == Seq::<Seq<char>>::empty(),
    {
        let t = Self { table_bytes: Vec::new(), func_names: Vec::new() };
        t
    }

    /// Reads one line and appends what it contributes. A line that is no
    /// directive changes nothing.
    pub fn push_line(&mut self, line: &str) -> (r: Result<(), LineError>)
        ensures
            r is Ok <==> parse_line(line@) is Ok,
            r is Ok ==> final(self).table_bytes@ == old(self).table_bytes@ + parse_line(
                line@,
            )->Ok_0.bytes(),
            r is Ok ==> final(self).names() == old(self).names() + parse_line(line@)->Ok_0.names(),
            r matches Err(e) ==> parse_line(line@) == Err::<Line, LineError>(e),
            r is Err ==> *final(self) == *old(self),
    {
        let d: Directive = parse_directive(line)?;
        let v: u32 = d.value;
        if d.size == 4 {
            self.table_bytes.push((v / 0x100_0000) as u8);
            self.table_bytes.push(((v / 0x1_0000) % 0x100) as u8);
        }
        self.table_bytes.push(((v / 0x100) % 0x100) as u8);
        self.table_bytes.push((v % 0x100) as u8);
        if let Some(name) = d.name {
            self.func_names.push(name);
        }
        Ok(())
    }
}

/// Reads the lines of a table's text, in order.
pub fn read_source(lines: &[String]) -> (r: Result<TableSource, LineError>)
    ensures
        r matches Ok(t) ==> source_of(string_views(lines@)) == Ok::<
            (Seq<u8>, Seq<Seq<char>>),
            LineError,
        >((t.table_bytes@, t.names())),
        r matches Err(e) ==> source_of(string_views(lines@)) == Err::<
            (Seq<u8>, Seq<Seq<char>>),
            LineError,
        >(e),
{
    let mut source = TableSource::new();
    let n: usize = lines.len();
    let ghost all = string_views(lines@);
    let mut i: usize = 0;
    while i < n
        invariant
            i <= n,
            n == lines@.len(),
            all == string_views(lines@),
            source_of(all.take(i as int)) == Ok::<(Seq<u8>, Seq<Seq<char>>), LineError>(
                (source.table_bytes@, source.names()),
            ),
        decreases n - i,
    {
        proof {
            let next = all.take(i + 1);
            assert(next.drop_last() =~= all.take(i as int));
            lemma_source_prefix(all, i + 1);
        }
        source.push_line(lines[i].as_str())?;
        i = i + 1;
    }
    assert(all.take(n as int) =~= all);
    Ok(source)
}

/// Lines that fail fail at their first bad line: what is wrong with the
/// first `k` lines is wrong with all of them.
pub proof fn lemma_source_prefix(lines: Seq<Seq<char>>, k: int)
    requires
        0 <= k <= lines.len(),
    ensures
        source_of(lines.take(k)) matches Err(e) ==> source_of(lines) == Err::<
            (Seq<u8>, Seq<Seq<char>>),
            LineError,
        >(e),
    decreases lines.len(),
{
    if k == lines.len() {
        assert(lines.take(k) =~= lines);
    } else {
        lemma_source_prefix(lines.drop_last(), k);
        assert(lines.drop_last().take(k) =~= lines.take(k));
    }
}

} // verus!
