//! Numbers, padding, cutting and trimming of texts.

use crate::overlay_parts::cut_chars;
use crate::text::{
    after_prefix, decimal, digit, end_trimmed, first_chars, hex_digit, hex_digits, integer,
    is_white, joined, joined_upto, left_aligned, lemma_next_feed, lines_from, lines_of, next_feed,
    right_aligned, signed, start_trimmed, trimmed, zero_filled,
};
use vstd::prelude::*;

verus! {

/// The number that decimal digits stand for.
pub open spec fn number_read(digits: Seq<char>) -> int
    decreases digits.len(),
{
    if digits.len() == 0 {
        0
    } else {
        10 * number_read(digits.drop_last()) + (digits.last() as int - '0' as int)
    }
}

/// Every character is a decimal digit.
pub open spec fn all_digits(text: Seq<char>) -> bool {
    forall|i: int| 0 <= i < text.len() ==> '0' <= #[trigger] text[i] <= '9'
}

/// A number is written in digits that read back as that number, without a leading zero.
pub proof fn decimal_reads_back(n: nat)
    ensures
        decimal(n).len() > 0,
        all_digits(decimal(n)),
        number_read(decimal(n)) == n,
        n > 0 ==> decimal(n)[0] != '0',
        n == 0 ==> decimal(n).len() == 1,
    decreases n,
{
    if n < 10 {
        assert(decimal(n).drop_last() =~= Seq::empty());
        assert(number_read(decimal(n).drop_last()) == 0);
        assert(decimal(n).last() == digit(n));
    } else {
        decimal_reads_back(n / 10);
        assert(decimal(n).drop_last() =~= decimal(n / 10));
        assert(decimal(n)[0] == decimal(n / 10)[0]);
    }
}

/// Different numbers are written differently.
pub proof fn decimal_tells_numbers_apart(a: nat, b: nat)
    requires
        decimal(a) == decimal(b),
    ensures
        a == b,
{
    decimal_reads_back(a);
    decimal_reads_back(b);
}

/// A number with zeros before it is at least as long as asked for, no longer than it has to be,
/// and reads back as that number.
pub proof fn zero_filled_reads_back(n: nat, width: nat)
    ensures
        number_read(zero_filled(n, width)) == n,
        zero_filled(n, width).len() >= width,
        zero_filled(n, width).len() > width ==> zero_filled(n, width) == decimal(n),
{
    decimal_reads_back(n);
    let text = zero_filled(n, width);
    if decimal(n).len() < width {
        let zeros = crate::text::repeated('0', (width - decimal(n).len()) as nat);
        lemma_leading_zeros(zeros, decimal(n));
    }
}

proof fn lemma_leading_zeros(zeros: Seq<char>, digits: Seq<char>)
    requires
        forall|i: int| 0 <= i < zeros.len() ==> zeros[i] == '0',
    ensures
        number_read(zeros + digits) == number_read(digits),
    decreases zeros.len() + digits.len(),
{
    if digits.len() > 0 {
        lemma_leading_zeros(zeros, digits.drop_last());
        assert((zeros + digits).drop_last() =~= zeros + digits.drop_last());
    } else if zeros.len() > 0 {
        lemma_leading_zeros(zeros.drop_last(), digits);
        assert((zeros + digits).drop_last() =~= zeros.drop_last() + digits);
    }
}

/// A negative number has a minus sign before its size, another number none.
pub proof fn integers_have_their_sign(n: int)
    ensures
        n >= 0 ==> all_digits(integer(n)) && number_read(integer(n)) == n,
        n < 0 ==> integer(n).len() > 1 && integer(n)[0] == '-' && number_read(integer(n).skip(1)) == -n,
        signed(n).len() > 1,
        n >= 0 ==> signed(n)[0] == '+' && number_read(signed(n).skip(1)) == n,
        n < 0 ==> signed(n) == integer(n),
{
    reveal_strlit("-");
    reveal_strlit("+");
    if n >= 0 {
        decimal_reads_back(n as nat);
        assert(signed(n).skip(1) =~= decimal(n as nat));
    } else {
        decimal_reads_back((-n) as nat);
        assert(integer(n).skip(1) =~= decimal((-n) as nat));
    }
}

/// The value of a hexadecimal digit.
pub open spec fn hex_value(c: char) -> int {
    if '0' <= c <= '9' {
        c as int - '0' as int
    } else {
        c as int - 'A' as int + 10
    }
}

/// The number that hexadecimal digits stand for.
pub open spec fn hex_read(digits: Seq<char>) -> int
    decreases digits.len(),
{
    if digits.len() == 0 {
        0
    } else {
        16 * hex_read(digits.drop_last()) + hex_value(digits.last())
    }
}

/// Hexadecimal digits read back as the number, as far as it has room in them.
pub proof fn hex_reads_back(n: nat, width: nat)
    ensures
        hex_digits(n, width).len() == width,
        n < vstd::arithmetic::power::pow(16, width) ==> hex_read(hex_digits(n, width)) == n,
    decreases width,
{
    reveal(vstd::arithmetic::power::pow);
    if width > 0 {
        hex_reads_back(n / 16, (width - 1) as nat);
        assert(hex_digits(n, width).drop_last() =~= hex_digits(n / 16, (width - 1) as nat));
        assert(hex_digits(n, width).last() == hex_digit(n % 16));
        assert(hex_value(hex_digit(n % 16)) == n % 16);
    }
}

/// Padding adds spaces on one side, up to the width and no further.
pub proof fn padding_only_adds_spaces(s: Seq<char>, width: nat)
    ensures
        s.is_suffix_of(right_aligned(s, width)),
        s.is_prefix_of(left_aligned(s, width)),
        right_aligned(s, width).len() == if s.len() < width { width } else { s.len() },
        left_aligned(s, width).len() == if s.len() < width { width } else { s.len() },
        forall|i: int|
            0 <= i < right_aligned(s, width).len() - s.len() ==> #[trigger] right_aligned(s, width)[i] == ' ',
        forall|i: int|
            s.len() <= i < left_aligned(s, width).len() ==> #[trigger] left_aligned(s, width)[i] == ' ',
{
    assert(right_aligned(s, width).skip(right_aligned(s, width).len() - s.len()) =~= s);
    assert(left_aligned(s, width).take(s.len() as int) =~= s);
    assert(s =~= left_aligned(s, width).subrange(0, s.len() as int));
    assert(s =~= right_aligned(s, width).subrange(
        right_aligned(s, width).len() - s.len(),
        right_aligned(s, width).len() as int,
    ));
}

/// What is cut to a number of characters is the front of the text, whole where it fits; a cut
/// text ends in dots and is exactly as long as allowed.
pub proof fn cutting_keeps_the_front(s: Seq<char>, max: int)
    requires
        0 <= max,
    ensures
        first_chars(s, max as nat).is_prefix_of(s),
        first_chars(s, max as nat).len() == if s.len() < max { s.len() as int } else { max },
        s.len() <= max ==> cut_chars(s, max) == s,
        s.len() > max ==> cut_chars(s, max).len() == max,
        s.len() > max ==> forall|i: int|
            0 <= i < max ==> #[trigger] cut_chars(s, max)[i] == if i < max - 3 {
                s[i]
            } else {
                '.'
            },
{
    reveal_strlit("...");
    assert(first_chars(s, max as nat) =~= s.subrange(0, first_chars(s, max as nat).len() as int));
}

/// What follows a prefix, put behind the prefix again, is the text.
pub proof fn prefix_and_rest_make_the_text(s: Seq<char>, prefix: Seq<char>)
    ensures
        after_prefix(s, prefix) matches Some(rest) ==> s == prefix + rest,
        after_prefix(s, prefix) is None ==> forall|rest: Seq<char>| s != #[trigger] (prefix + rest),
{
    if let Some(rest) = after_prefix(s, prefix) {
        assert(prefix + rest =~= s);
    } else {
        assert forall|rest: Seq<char>| s != #[trigger] (prefix + rest) by {
            if s == prefix + rest {
                assert(s.take(prefix.len() as int) =~= prefix);
            }
        }
    }
}

proof fn lemma_start_trimmed(s: Seq<char>) -> (from: int)
    ensures
        0 <= from <= s.len(),
        start_trimmed(s) == s.skip(from),
        forall|i: int| 0 <= i < from ==> is_white(#[trigger] s[i]),
        from < s.len() ==> !is_white(s[from]),
    decreases s.len(),
{
    if s.len() > 0 && is_white(s[0]) {
        let rest = lemma_start_trimmed(s.skip(1));
        assert(s.skip(1).skip(rest) =~= s.skip(rest + 1));
        assert forall|i: int| 0 <= i < rest + 1 implies is_white(#[trigger] s[i]) by {
            if i > 0 {
                assert(s.skip(1)[i - 1] == s[i]);
            }
        }
        rest + 1
    } else {
        assert(s.skip(0) =~= s);
        0
    }
}

proof fn lemma_end_trimmed(s: Seq<char>) -> (to: int)
    ensures
        0 <= to <= s.len(),
        end_trimmed(s) == s.take(to),
        forall|i: int| to <= i < s.len() ==> is_white(#[trigger] s[i]),
        to > 0 ==> !is_white(s[to - 1]),
    decreases s.len(),
{
    if s.len() > 0 && is_white(s.last()) {
        let to = lemma_end_trimmed(s.drop_last());
        assert(s.drop_last().take(to) =~= s.take(to));
        assert forall|i: int| to <= i < s.len() implies is_white(#[trigger] s[i]) by {
            if i < s.len() - 1 {
                assert(s.drop_last()[i] == s[i]);
            }
        }
        to
    } else {
        assert(s.take(s.len() as int) =~= s);
        s.len() as int
    }
}

/// Trimming takes away white space at both ends and nothing else: what is left is a part of the
/// text that starts and ends with something else, and only white space stood around it.
pub proof fn trimming_takes_white_space_alone(s: Seq<char>)
    ensures
        exists|from: int, to: int|
            #![trigger s.subrange(from, to)]
            0 <= from <= to <= s.len() && trimmed(s) == s.subrange(from, to) && (forall|i: int|
                0 <= i < from || to <= i < s.len() ==> is_white(#[trigger] s[i])),
        trimmed(s).len() > 0 ==> !is_white(trimmed(s)[0]) && !is_white(trimmed(s).last()),
        trimmed(s).len() == 0 <==> forall|i: int| 0 <= i < s.len() ==> is_white(#[trigger] s[i]),
{
    let from = lemma_start_trimmed(s);
    let rest = s.skip(from);
    let to = lemma_end_trimmed(rest);
    assert(rest.take(to) =~= s.subrange(from, from + to));
    assert forall|i: int| 0 <= i < from || from + to <= i < s.len() implies is_white(
        #[trigger] s[i],
    ) by {
        if i >= from {
            assert(rest[i - from] == s[i]);
        }
    }
    if to > 0 {
        assert(rest[to - 1] == s[from + to - 1]);
        assert(trimmed(s)[0] == s[from]);
        assert(trimmed(s).last() == rest[to - 1]);
    } else if from < s.len() {
        assert(rest[0] == s[from]);
        assert(is_white(rest[0]));
    }
}

/// Where part `i` starts among parts joined with `sep`.
pub open spec fn part_at(parts: Seq<Seq<char>>, sep: Seq<char>, i: nat) -> int
    decreases i,
{
    if i == 0 {
        0
    } else {
        part_at(parts, sep, (i - 1) as nat) + parts[i - 1].len() + sep.len()
    }
}

proof fn lemma_joined(parts: Seq<Seq<char>>, sep: Seq<char>, n: nat)
    requires
        0 < n <= parts.len(),
    ensures
        joined_upto(parts, sep, n).len() == part_at(parts, sep, (n - 1) as nat) + parts[n - 1].len(),
        forall|i: int|
            0 <= i < n ==> 0 <= #[trigger] part_at(parts, sep, i as nat) && part_at(parts, sep, i as nat)
                + parts[i].len() <= joined_upto(parts, sep, n).len() && joined_upto(
                parts,
                sep,
                n,
            ).subrange(
                part_at(parts, sep, i as nat),
                part_at(parts, sep, i as nat) + parts[i].len(),
            ) == parts[i],
    decreases n,
{
    let all = joined_upto(parts, sep, n);
    if n == 1 {
        assert(all.subrange(0, all.len() as int) =~= parts[0]);
        assert(part_at(parts, sep, 0) == 0);
    } else {
        lemma_joined(parts, sep, (n - 1) as nat);
        let front = joined_upto(parts, sep, (n - 1) as nat);
        assert forall|i: int| 0 <= i < n implies 0 <= #[trigger] part_at(parts, sep, i as nat)
            && part_at(parts, sep, i as nat) + parts[i].len() <= all.len() && all.subrange(
            part_at(parts, sep, i as nat),
            part_at(parts, sep, i as nat) + parts[i].len(),
        ) == parts[i] by {
            let at = part_at(parts, sep, i as nat);
            if i < n - 1 {
                assert(all.subrange(at, at + parts[i].len()) =~= front.subrange(
                    at,
                    at + parts[i].len(),
                ));
            } else {
                assert(at == front.len() + sep.len());
                assert(all.subrange(at, at + parts[i].len()) =~= parts[i]);
            }
        }
    }
}

/// Joined texts stand in their order, each whole, with a separator between two of them.
pub proof fn joined_texts_keep_their_order(parts: Seq<Seq<char>>, sep: Seq<char>, i: int)
    requires
        0 <= i < parts.len(),
    ensures
        0 <= part_at(parts, sep, i as nat),
        part_at(parts, sep, i as nat) + parts[i].len() <= joined(parts, sep).len(),
        joined(parts, sep).subrange(
            part_at(parts, sep, i as nat),
            part_at(parts, sep, i as nat) + parts[i].len(),
        ) == parts[i],
        i == parts.len() - 1 ==> part_at(parts, sep, i as nat) + parts[i].len() == joined(
            parts,
            sep,
        ).len(),
{
    lemma_joined(parts, sep, parts.len());
}

/// Lines, each with a line feed behind it, one after another.
pub open spec fn with_feeds(lines: Seq<Seq<char>>) -> Seq<char>
    decreases lines.len(),
{
    if lines.len() == 0 {
        Seq::empty()
    } else {
        lines[0].push('\n') + with_feeds(lines.skip(1))
    }
}

proof fn lemma_lines(s: Seq<char>, from: int)
    requires
        0 <= from <= s.len(),
        forall|i: int| 0 <= i < s.len() ==> #[trigger] s[i] != '\r',
    ensures
        ({
            let rest = s.skip(from);
            with_feeds(lines_from(s, from)) == if rest.len() == 0 || rest.last() == '\n' {
                rest
            } else {
                rest.push('\n')
            }
        }),
        forall|k: int, j: int|
            0 <= k < lines_from(s, from).len() && 0 <= j < lines_from(s, from)[k].len()
                ==> #[trigger] lines_from(s, from)[k][j] != '\n',
    decreases s.len() - from,
{
    let rest = s.skip(from);
    let all = lines_from(s, from);
    if from < s.len() {
        lemma_next_feed(s, from);
        lemma_first_feed(s, from);
        let end = next_feed(s, from);
        let line = s.subrange(from, end);
        if end < s.len() {
            assert(line.len() > 0 ==> line.last() == s[end - 1]);
            lemma_lines(s, end + 1);
            assert(all[0] == line);
            assert(all.skip(1) =~= lines_from(s, end + 1));
            let tail = s.skip(end + 1);
            assert(rest =~= line.push('\n') + tail);
            assert(rest.last() == s.last());
            assert(with_feeds(all) =~= if rest.last() == '\n' { rest } else { rest.push('\n') });
            assert forall|k: int, j: int| 0 <= k < all.len() && 0 <= j < all[k].len() implies
                #[trigger] all[k][j] != '\n' by {
                if k > 0 {
                    assert(all[k] == lines_from(s, end + 1)[k - 1]);
                }
            }
        } else {
            assert(all.skip(1) =~= Seq::empty());
            assert(rest =~= s.subrange(from, s.len() as int));
            assert(with_feeds(all.skip(1)) =~= Seq::empty());
            assert(with_feeds(all) =~= rest.push('\n'));
            assert(rest.last() == s[s.len() - 1]);
        }
    } else {
        assert(rest =~= Seq::empty());
    }
}

proof fn lemma_first_feed(s: Seq<char>, from: int)
    requires
        0 <= from <= s.len(),
    ensures
        from <= next_feed(s, from) <= s.len(),
        next_feed(s, from) < s.len() ==> s[next_feed(s, from)] == '\n',
        forall|i: int| from <= i < next_feed(s, from) ==> #[trigger] s[i] != '\n',
    decreases s.len() - from,
{
    if from < s.len() && s[from] != '\n' {
        lemma_first_feed(s, from + 1);
    }
}

/// The lines of a text without carriage returns, each with its line feed, make the text again;
/// none holds a line feed.
pub proof fn lines_make_the_text(s: Seq<char>)
    requires
        forall|i: int| 0 <= i < s.len() ==> #[trigger] s[i] != '\r',
    ensures
        s.len() > 0 && s.last() == '\n' ==> with_feeds(lines_of(s)) == s,
        s.len() > 0 && s.last() != '\n' ==> with_feeds(lines_of(s)) == s.push('\n'),
        s.len() == 0 ==> lines_of(s).len() == 0,
        forall|k: int, j: int|
            0 <= k < lines_of(s).len() && 0 <= j < lines_of(s)[k].len() ==> #[trigger] lines_of(
                s,
            )[k][j] != '\n',
{
    lemma_lines(s, 0);
    assert(s.skip(0) =~= s);
}

} // verus!
