//! Text building blocks: concatenation, padding, and decimal numbers.

use vstd::prelude::*;
use vstd::string::{StrSliceExecFns, StringExecFns};

verus! {

/// `String::push` appends one character.
pub assume_specification[ String::push ](s: &mut String, c: char)
    ensures
        final(s)@ == old(s)@.push(c),
;

/// The characters of `s`, in order.
pub fn chars_of(s: &str) -> (r: Vec<char>)
    ensures
        r@ == s@,
{
    let mut out: Vec<char> = Vec::new();
    for c in it: s.chars()
        invariant
            out@ == s@.take(it.index()),
            it.seq() == s@,
    {
        out.push(c);
        proof {
            assert(s@.take(it.index() + 1) =~= s@.take(it.index()).push(s@[it.index()]));
        }
    }
    proof {
        assert(s@.take(s@.len() as int) =~= s@);
    }
    out
}

/// The string holding the characters `chars[from..to]`.
pub fn string_of(chars: &Vec<char>, from: usize, to: usize) -> (r: String)
    requires
        from <= to <= chars@.len(),
    ensures
        r@ == chars@.subrange(from as int, to as int),
{
    let mut out = String::new();
    for i in from..to
        invariant
            from <= i <= to <= chars@.len(),
            out@ == chars@.subrange(from as int, i as int),
    {
        out.push(chars[i]);
        proof {
            assert(chars@.subrange(from as int, i + 1) =~= chars@.subrange(
                from as int,
                i as int,
            ).push(chars@[i as int]));
        }
    }
    out
}

/// An owned copy of `s`.
pub fn owned(s: &str) -> (r: String)
    ensures
        r@ == s@,
{
    String::from_str(s)
}

/// `a` followed by `b`.
pub fn cat2(a: &str, b: &str) -> (r: String)
    ensures
        r@ == a@ + b@,
{
    String::from_str(a).concat(b)
}

/// `a`, `b` and `c` in a row.
pub fn cat3(a: &str, b: &str, c: &str) -> (r: String)
    ensures
        r@ == a@ + b@ + c@,
{
    String::from_str(a).concat(b).concat(c)
}

/// Four texts in a row.
pub fn cat4(a: &str, b: &str, c: &str, d: &str) -> (r: String)
    ensures
        r@ == a@ + b@ + c@ + d@,
{
    String::from_str(a).concat(b).concat(c).concat(d)
}

/// Five texts in a row.
pub fn cat5(a: &str, b: &str, c: &str, d: &str, e: &str) -> (r: String)
    ensures
        r@ == a@ + b@ + c@ + d@ + e@,
{
    String::from_str(a).concat(b).concat(c).concat(d).concat(e)
}

/// Six texts in a row.
pub fn cat6(a: &str, b: &str, c: &str, d: &str, e: &str, f: &str) -> (r: String)
    ensures
        r@ == a@ + b@ + c@ + d@ + e@ + f@,
{
    String::from_str(a).concat(b).concat(c).concat(d).concat(e).concat(f)
}

/// `n` copies of `c`.
pub open spec fn repeated(c: char, n: nat) -> Seq<char> {
    Seq::new(n, |i: int| c)
}

/// `n` copies of `c`.
pub fn repeat_char(c: char, n: usize) -> (r: String)
    ensures
        r@ == repeated(c, n as nat),
{
    let mut out = String::new();
    for i in 0..n
        invariant
            out@ =~= repeated(c, i as nat),
    {
        out.push(c);
    }
    proof {
        assert(out@ =~= repeated(c, n as nat));
    }
    out
}

/// `n` spaces.
pub open spec fn blanks(n: nat) -> Seq<char> {
    repeated(' ', n)
}

/// `n` spaces.
pub fn spaces(n: usize) -> (r: String)
    ensures
        r@ == blanks(n as nat),
{
    repeat_char(' ', n)
}

/// The number of characters of `s`.
pub fn count(s: &str) -> (r: usize)
    ensures
        r == s@.len(),
{
    s.unicode_len()
}

/// The decimal digit for `d`.
pub open spec fn digit(d: nat) -> char {
    (48 + d) as u8 as char
}

fn digit_char(d: u64) -> (r: char)
    requires
        d < 10,
    ensures
        r == digit(d as nat),
{
    (48 + d) as u8 as char
}

/// `n` in decimal, without leading zeros.
pub open spec fn decimal(n: nat) -> Seq<char>
    decreases n,
{
    if n < 10 {
        seq![digit(n)]
    } else {
        decimal(n / 10).push(digit(n % 10))
    }
}

/// `n` in decimal, without leading zeros.
pub fn dec(n: u64) -> (r: String)
    ensures
        r@ == decimal(n as nat),
    decreases n,
{
    if n < 10 {
        let mut out = String::new();
        out.push(digit_char(n));
        out
    } else {
        let mut out = dec(n / 10);
        out.push(digit_char(n % 10));
        out
    }
}

/// `n` in decimal.
pub fn dec_len(n: usize) -> (r: String)
    ensures
        r@ == decimal(n as nat),
{
    dec(n as u64)
}

/// `s` with spaces put before it until it holds `width` characters.
pub open spec fn right_aligned(s: Seq<char>, width: nat) -> Seq<char> {
    if s.len() < width {
        blanks((width - s.len()) as nat) + s
    } else {
        s
    }
}

/// `s` with spaces put after it until it holds `width` characters.
pub open spec fn left_aligned(s: Seq<char>, width: nat) -> Seq<char> {
    if s.len() < width {
        s + blanks((width - s.len()) as nat)
    } else {
        s
    }
}

/// `n` in decimal with zeros put before it until it holds `width` digits.
pub open spec fn zero_filled(n: nat, width: nat) -> Seq<char> {
    if decimal(n).len() < width {
        repeated('0', (width - decimal(n).len()) as nat) + decimal(n)
    } else {
        decimal(n)
    }
}

/// `s` with spaces put before it until it holds `width` characters.
pub fn align_right(s: &str, width: usize) -> (r: String)
    ensures
        r@ == right_aligned(s@, width as nat),
{
    let n: usize = count(s);
    if n < width {
        let pad = spaces(width - n);
        cat2(pad.as_str(), s)
    } else {
        owned(s)
    }
}

/// `s` with spaces put after it until it holds `width` characters.
pub fn align_left(s: &str, width: usize) -> (r: String)
    ensures
        r@ == left_aligned(s@, width as nat),
{
    let n: usize = count(s);
    if n < width {
        let pad = spaces(width - n);
        cat2(s, pad.as_str())
    } else {
        owned(s)
    }
}

/// `n` in decimal with zeros put before it until it holds `width` digits.
pub fn zero_fill(n: u64, width: usize) -> (r: String)
    ensures
        r@ == zero_filled(n as nat, width as nat),
{
    let s = dec(n);
    let len: usize = count(s.as_str());
    if len < width {
        let pad = repeat_char('0', width - len);
        cat2(pad.as_str(), s.as_str())
    } else {
        s
    }
}

/// Whether two texts hold the same characters.
pub fn same(a: &str, b: &str) -> (r: bool)
    ensures
        r == (a@ == b@),
{
    String::from_str(a) == String::from_str(b)
}

/// The first `n` characters of `s`, or all of it.
pub open spec fn first_chars(s: Seq<char>, n: nat) -> Seq<char> {
    if n < s.len() {
        s.take(n as int)
    } else {
        s
    }
}

/// The first `n` characters of `s`, or all of it.
pub fn take_chars(s: &str, n: usize) -> (r: String)
    ensures
        r@ == first_chars(s@, n as nat),
{
    let len: usize = count(s);
    if n < len {
        owned(s.substring_char(0, n))
    } else {
        owned(s)
    }
}

/// The smaller of two numbers.
pub open spec fn least(a: int, b: int) -> int {
    if a <= b {
        a
    } else {
        b
    }
}

/// The larger of two numbers.
pub open spec fn most(a: int, b: int) -> int {
    if a >= b {
        a
    } else {
        b
    }
}

/// `a - b`, or zero where `b` is the larger.
pub open spec fn minus(a: int, b: int) -> int {
    if a >= b {
        a - b
    } else {
        0
    }
}

/// `a + b`, held to the largest `usize`.
pub open spec fn plus(a: int, b: int) -> int {
    if a + b > usize::MAX {
        usize::MAX as int
    } else {
        a + b
    }
}

/// The low sixteen bits of `n`.
pub open spec fn low16(n: int) -> int {
    n % 65536
}

/// The low sixteen bits of `n`.
pub fn to_u16(n: usize) -> (r: u16)
    ensures
        r == low16(n as int),
{
    (n % 65536) as u16
}

/// A list of texts.
#[derive(Debug)]
pub struct Texts {
    pub items: Vec<String>,
}

impl View for Texts {
    type V = Seq<Seq<char>>;

    open spec fn view(&self) -> Seq<Seq<char>> {
        Seq::new(self.items@.len(), |i: int| self.items@[i]@)
    }
}

/// The first `n` of `parts`, with `sep` between neighbours.
pub open spec fn joined_upto(parts: Seq<Seq<char>>, sep: Seq<char>, n: nat) -> Seq<char>
    decreases n,
{
    if n == 0 || n > parts.len() {
        Seq::empty()
    } else if n == 1 {
        parts[0]
    } else {
        joined_upto(parts, sep, (n - 1) as nat) + sep + parts[n - 1]
    }
}

/// All of `parts`, with `sep` between neighbours.
pub open spec fn joined(parts: Seq<Seq<char>>, sep: Seq<char>) -> Seq<char> {
    joined_upto(parts, sep, parts.len())
}

/// `part` alone where `shown`, else nothing.
pub open spec fn part_if(shown: bool, part: Seq<char>) -> Seq<Seq<char>> {
    if shown {
        seq![part]
    } else {
        Seq::empty()
    }
}

impl Texts {
    /// No texts.
    pub fn new() -> (r: Texts)
        ensures
            r@ == Seq::<Seq<char>>::empty(),
    {
        let r = Texts { items: Vec::new() };
        proof {
            assert(r@ =~= Seq::<Seq<char>>::empty());
        }
        r
    }

    /// Adds a text at the end.
    pub fn push(&mut self, part: String)
        ensures
            final(self)@ == old(self)@.push(part@),
    {
        self.items.push(part);
        proof {
            assert(self@ =~= old(self)@.push(part@));
        }
    }

    /// Adds a text at the end where `shown`.
    pub fn push_if(&mut self, shown: bool, part: &str)
        ensures
            final(self)@ == old(self)@ + part_if(shown, part@),
    {
        if shown {
            self.push(owned(part));
        }
        proof {
            assert(self@ =~= old(self)@ + part_if(shown, part@));
        }
    }

    /// The number of texts.
    pub fn len(&self) -> (r: usize)
        ensures
            r == self@.len(),
    {
        self.items.len()
    }

    /// The texts with `sep` between neighbours.
    pub fn join(&self, sep: &str) -> (r: String)
        ensures
            r@ == joined(self@, sep@),
    {
        let mut out = String::new();
        for i in 0..self.items.len()
            invariant
                out@ == joined_upto(self@, sep@, i as nat),
                i <= self@.len() == self.items@.len(),
        {
            if i == 0 {
                out = owned(self.items[0].as_str());
            } else {
                out.append(sep);
                out.append(self.items[i].as_str());
            }
        }
        out
    }
}

/// `c` has the Unicode property `White_Space`.
pub open spec fn is_white(c: char) -> bool {
    ||| '\u{9}' <= c <= '\u{d}'
    ||| c == ' '
    ||| c == '\u{85}'
    ||| c == '\u{a0}'
    ||| c == '\u{1680}'
    ||| '\u{2000}' <= c <= '\u{200a}'
    ||| c == '\u{2028}'
    ||| c == '\u{2029}'
    ||| c == '\u{202f}'
    ||| c == '\u{205f}'
    ||| c == '\u{3000}'
}

/// `char::is_whitespace`: whether `c` has the Unicode property `White_Space`, which is
/// that of the tab and the line breaks, the space, the no-break space and the wide and
/// narrow spaces listed in `is_white`.
#[verifier::external_body]
fn white(c: char) -> (r: bool)
    ensures
        r == is_white(c),
{
    c.is_whitespace()
}

/// `s` without white space at its end.
pub open spec fn end_trimmed(s: Seq<char>) -> Seq<char>
    decreases s.len(),
{
    if s.len() > 0 && is_white(s.last()) {
        end_trimmed(s.drop_last())
    } else {
        s
    }
}

/// `s` without white space at its start.
pub open spec fn start_trimmed(s: Seq<char>) -> Seq<char>
    decreases s.len(),
{
    if s.len() > 0 && is_white(s[0]) {
        start_trimmed(s.skip(1))
    } else {
        s
    }
}

/// `s` without white space at either end.
pub open spec fn trimmed(s: Seq<char>) -> Seq<char> {
    end_trimmed(start_trimmed(s))
}

/// `s` without white space at either end.
pub fn trim(s: &str) -> (r: String)
    ensures
        r@ == trimmed(s@),
{
    let chars = chars_of(s);
    let n: usize = chars.len();
    let mut from: usize = 0;
    proof {
        assert(s@.subrange(0, n as int) =~= s@);
    }
    while from < n && white(chars[from])
        invariant
            chars@ == s@,
            n == s@.len(),
            from <= n,
            start_trimmed(s@.subrange(from as int, n as int)) == start_trimmed(s@),
        decreases n - from,
    {
        proof {
            assert(s@.subrange(from as int, n as int).skip(1) =~= s@.subrange(
                from + 1,
                n as int,
            ));
        }
        from += 1;
    }
    let ghost body = s@.subrange(from as int, n as int);
    let mut to: usize = n;
    while to > from && white(chars[to - 1])
        invariant
            chars@ == s@,
            n == s@.len(),
            from <= to <= n,
            end_trimmed(s@.subrange(from as int, to as int)) == end_trimmed(body),
        decreases to,
    {
        proof {
            assert(s@.subrange(from as int, to as int).drop_last() =~= s@.subrange(
                from as int,
                to - 1,
            ));
        }
        to -= 1;
    }
    string_of(&chars, from, to)
}

/// The lower-case form of an ASCII letter; any other character itself.
pub open spec fn ascii_lower(c: char) -> char {
    if 'A' <= c <= 'Z' {
        ((c as u32 + 32) as u8) as char
    } else {
        c
    }
}

/// Whether two texts are equal but for the case of ASCII letters.
pub open spec fn same_but_case(a: Seq<char>, b: Seq<char>) -> bool {
    a.len() == b.len() && forall|i: int|
        0 <= i < a.len() ==> ascii_lower(#[trigger] a[i]) == ascii_lower(b[i])
}

fn lower(c: char) -> (r: char)
    ensures
        r == ascii_lower(c),
{
    if 'A' <= c && c <= 'Z' {
        (c as u32 + 32) as u8 as char
    } else {
        c
    }
}

/// Whether two texts are equal but for the case of ASCII letters.
pub fn same_ignoring_case(a: &str, b: &str) -> (r: bool)
    ensures
        r == same_but_case(a@, b@),
{
    let x = chars_of(a);
    let y = chars_of(b);
    if x.len() != y.len() {
        return false;
    }
    for i in 0..x.len()
        invariant
            x@ == a@,
            y@ == b@,
            x@.len() == y@.len(),
            forall|j: int| 0 <= j < i ==> ascii_lower(#[trigger] a@[j]) == ascii_lower(b@[j]),
    {
        if lower(x[i]) != lower(y[i]) {
            proof {
                assert(ascii_lower(a@[i as int]) != ascii_lower(b@[i as int]));
            }
            return false;
        }
    }
    true
}

/// What follows `prefix` in `s`, where `s` starts with it.
pub open spec fn after_prefix(s: Seq<char>, prefix: Seq<char>) -> Option<Seq<char>> {
    if prefix.len() <= s.len() && s.take(prefix.len() as int) == prefix {
        Some(s.skip(prefix.len() as int))
    } else {
        None
    }
}

/// What follows `prefix` in `s`, where `s` starts with it.
pub fn strip_prefix(s: &str, prefix: &str) -> (r: Option<String>)
    ensures
        match r {
            Some(rest) => after_prefix(s@, prefix@) == Some(rest@),
            None => after_prefix(s@, prefix@) is None,
        },
{
    let n: usize = count(s);
    let k: usize = count(prefix);
    if k > n {
        return None;
    }
    let head = s.substring_char(0, k);
    if same(head, prefix) {
        proof {
            assert(s@.subrange(0, k as int) =~= s@.take(k as int));
            assert(s@.subrange(k as int, n as int) =~= s@.skip(k as int));
        }
        Some(owned(s.substring_char(k, n)))
    } else {
        proof {
            assert(s@.subrange(0, k as int) =~= s@.take(k as int));
        }
        None
    }
}

/// The first line feed at `from` or later; the length where there is none.
pub open spec fn next_feed(s: Seq<char>, from: int) -> int
    decreases s.len() - from,
{
    if 0 <= from < s.len() && s[from] != '\n' {
        next_feed(s, from + 1)
    } else {
        from
    }
}

/// A line feed is found within the text, at or behind where the search starts.
pub proof fn lemma_next_feed(s: Seq<char>, from: int)
    requires
        0 <= from <= s.len(),
    ensures
        from <= next_feed(s, from) <= s.len(),
    decreases s.len() - from,
{
    if from < s.len() && s[from] != '\n' {
        lemma_next_feed(s, from + 1);
    }
}

/// `s` without a carriage return at its end.
pub open spec fn without_return(s: Seq<char>) -> Seq<char> {
    if s.len() > 0 && s.last() == '\r' {
        s.drop_last()
    } else {
        s
    }
}

/// The lines of `s` from `from` on. A line ends at a line feed, with or without a
/// carriage return before it; an empty rest is no line.
pub open spec fn lines_from(s: Seq<char>, from: int) -> Seq<Seq<char>>
    decreases s.len() - from,
{
    if 0 <= from < s.len() {
        let end = next_feed(s, from);
        if end < s.len() {
            proof {
                lemma_next_feed(s, from);
            }
            seq![without_return(s.subrange(from, end))] + lines_from(s, end + 1)
        } else {
            seq![s.subrange(from, s.len() as int)]
        }
    } else {
        Seq::empty()
    }
}

/// The lines of `s`.
pub open spec fn lines_of(s: Seq<char>) -> Seq<Seq<char>> {
    lines_from(s, 0)
}

/// The lines of `s`, as `str::lines` has them.
pub fn split_lines(s: &str) -> (r: Texts)
    ensures
        r@ == lines_of(s@),
{
    let chars = chars_of(s);
    let n: usize = chars.len();
    let mut out = Texts::new();
    let mut from: usize = 0;
    proof {
        assert(out@ + lines_from(s@, 0) =~= lines_from(s@, 0));
    }
    while from < n
        invariant
            chars@ == s@,
            n == s@.len(),
            from <= n,
            out@ + lines_from(s@, from as int) == lines_of(s@),
        decreases n - from,
    {
        let mut end: usize = from;
        while end < n && chars[end] != '\n'
            invariant
                chars@ == s@,
                n == s@.len(),
                from <= end <= n,
                next_feed(s@, end as int) == next_feed(s@, from as int),
            decreases n - end,
        {
            end += 1;
        }
        let ghost before = out@;
        if end < n {
            let stop: usize = if end > from && chars[end - 1] == '\r' { end - 1 } else { end };
            let line = string_of(&chars, from, stop);
            proof {
                let raw = s@.subrange(from as int, end as int);
                if end > from {
                    assert(raw.last() == s@[end - 1]);
                    assert(raw.drop_last() =~= s@.subrange(from as int, end - 1));
                }
                assert(line@ =~= without_return(raw));
            }
            out.push(line);
            proof {
                let rest = lines_from(s@, end + 1);
                assert(before + (seq![line@] + rest) =~= out@ + rest);
            }
            from = end + 1;
        } else {
            let line = string_of(&chars, from, n);
            out.push(line);
            proof {
                assert(before + seq![line@] =~= out@ + Seq::<Seq<char>>::empty());
            }
            from = n;
        }
    }
    proof {
        assert(out@ + Seq::<Seq<char>>::empty() =~= out@);
    }
    out
}

/// `n` in decimal, with a sign where it is negative.
pub open spec fn integer(n: int) -> Seq<char> {
    if n >= 0 {
        decimal(n as nat)
    } else {
        "-"@ + decimal((-n) as nat)
    }
}

/// `n` in decimal, with a sign where it is negative.
pub fn dec_i32(n: i32) -> (r: String)
    ensures
        r@ == integer(n as int),
{
    let wide: i64 = n as i64;
    if wide >= 0 {
        dec(wide as u64)
    } else {
        cat2("-", dec((-wide) as u64).as_str())
    }
}

/// `n` in decimal, with its sign.
pub open spec fn signed(n: int) -> Seq<char> {
    if n >= 0 {
        "+"@ + decimal(n as nat)
    } else {
        "-"@ + decimal((-n) as nat)
    }
}

/// `n` in decimal, with its sign.
pub fn dec_signed(n: i32) -> (r: String)
    ensures
        r@ == signed(n as int),
{
    let wide: i64 = n as i64;
    if wide >= 0 {
        cat2("+", dec(wide as u64).as_str())
    } else {
        cat2("-", dec((-wide) as u64).as_str())
    }
}

/// The upper-case hexadecimal digit for `d`.
pub open spec fn hex_digit(d: nat) -> char {
    if d < 10 {
        digit(d)
    } else {
        (55 + d) as u8 as char
    }
}

/// The last `width` hexadecimal digits of `n`.
pub open spec fn hex_digits(n: nat, width: nat) -> Seq<char>
    decreases width,
{
    if width == 0 {
        Seq::empty()
    } else {
        hex_digits(n / 16, (width - 1) as nat).push(hex_digit(n % 16))
    }
}

/// The last `width` hexadecimal digits of `n`.
pub fn hex(n: u32, width: usize) -> (r: String)
    ensures
        r@ == hex_digits(n as nat, width as nat),
    decreases width,
{
    if width == 0 {
        let out = String::new();
        proof {
            assert(out@ =~= hex_digits(n as nat, 0));
        }
        out
    } else {
        let mut out = hex(n / 16, width - 1);
        let d: u64 = (n % 16) as u64;
        out.push(
            if d < 10 {
                digit_char(d)
            } else {
                (55 + d) as u8 as char
            },
        );
        out
    }
}

} // verus!
