//! Parsing of the system-wide entropy counter file.
use vstd::prelude::*;

verus! {

/// Byte value of `'\n'`.
pub const NEWLINE: u8 = 10;

/// Byte value of `'\r'`.
pub const CARRIAGE_RETURN: u8 = 13;

/// Byte value of `'+'`.
pub const PLUS: u8 = 43;

/// Byte value of `'0'`.
pub const DIGIT_ZERO: u8 = 48;

/// Byte value of `'9'`.
pub const DIGIT_NINE: u8 = 57;

/// Index of the first newline in `s`, or its length when there is none.
pub open spec fn line_end(s: Seq<u8>) -> int
    decreases s.len(),
{
    if s.len() == 0 {
        0
    } else if s[0] == NEWLINE {
        0
    } else {
        1 + line_end(s.drop_first())
    }
}

/// The first line of `s`: the bytes before the first newline, without the
/// carriage return of a `"\r\n"` ending.
pub open spec fn first_line(s: Seq<u8>) -> Seq<u8> {
    let line = s.take(line_end(s));
    if line_end(s) < s.len() && line.len() > 0 && line.last() == CARRIAGE_RETURN {
        line.drop_last()
    } else {
        line
    }
}

pub open spec fn is_digit(b: u8) -> bool {
    DIGIT_ZERO <= b && b <= DIGIT_NINE
}

pub open spec fn all_digits(d: Seq<u8>) -> bool {
    forall|i: int| 0 <= i < d.len() ==> is_digit(#[trigger] d[i])
}

/// The number that the decimal digits `d` write.
pub open spec fn digits_value(d: Seq<u8>) -> nat
    decreases d.len(),
{
    if d.len() == 0 {
        0
    } else {
        digits_value(d.drop_last()) * 10 + (d.last() - DIGIT_ZERO) as nat
    }
}

/// The digits of an unsigned decimal: the line without one leading `'+'`.
pub open spec fn unsigned_digits(line: Seq<u8>) -> Seq<u8> {
    if line.len() > 0 && line[0] == PLUS {
        line.drop_first()
    } else {
        line
    }
}

/// The entropy level that the counter file's content `text` states: its first
/// line read as an unsigned 32-bit decimal, or `None` when there is no line or
/// the line is not such a number.
pub open spec fn entropy_count_of(text: Seq<u8>) -> Option<u32> {
    let d = unsigned_digits(first_line(text));
    if text.len() > 0 && d.len() > 0 && all_digits(d) && digits_value(d) <= u32::MAX {
        Some(digits_value(d) as u32)
    } else {
        None
    }
}

proof fn lemma_line_end_bounds(s: Seq<u8>)
    ensures
        0 <= line_end(s) <= s.len(),
        forall|i: int| 0 <= i < line_end(s) ==> s[i] != NEWLINE,
        line_end(s) < s.len() ==> s[line_end(s)] == NEWLINE,
    decreases s.len(),
{
    if s.len() > 0 && s[0] != NEWLINE {
        lemma_line_end_bounds(s.drop_first());
        assert forall|i: int| 0 <= i < line_end(s) implies s[i] != NEWLINE by {
            if i > 0 {
                assert(s[i] == s.drop_first()[i - 1]);
            }
        }
    }
}

proof fn lemma_line_end_unique(s: Seq<u8>, k: int)
    requires
        0 <= k <= s.len(),
        forall|i: int| 0 <= i < k ==> s[i] != NEWLINE,
        k < s.len() ==> s[k] == NEWLINE,
    ensures
        line_end(s) == k,
    decreases s.len(),
{
    if s.len() > 0 && s[0] != NEWLINE {
        assert forall|i: int| 0 <= i < k - 1 implies s.drop_first()[i] != NEWLINE by {
            assert(s.drop_first()[i] == s[i + 1]);
        }
        if k - 1 < s.len() - 1 {
            assert(s.drop_first()[k - 1] == s[k]);
        }
        lemma_line_end_unique(s.drop_first(), k - 1);
    }
}

/// Digit values only grow as digits are appended.
proof fn lemma_digits_value_grows(d: Seq<u8>, i: int, j: int)
    requires
        0 <= i <= j <= d.len(),
        all_digits(d),
    ensures
        digits_value(d.take(i)) <= digits_value(d.take(j)),
    decreases j - i,
{
    if i < j {
        lemma_digits_value_grows(d, i, j - 1);
        assert(d.take(j).drop_last() =~= d.take(j - 1));
        assert(is_digit(d[j - 1]));
    }
}

/// Reads the entropy level from the content of the system-wide entropy counter
/// file: the first line, as an unsigned 32-bit decimal. Content with no line,
/// or whose first line is not such a number, is malformed and gives `None`.
pub fn parse_entropy_count(text: &[u8]) -> (r: Option<u32>)
    ensures
        r == entropy_count_of(text@),
{
    let ghost s = text@;
    proof {
        lemma_line_end_bounds(s);
    }
    if text.len() == 0 {
        return None;
    }
    let mut end: usize = 0;
    while end < text.len() && text[end] != NEWLINE
        invariant
            0 <= end <= text.len(),
            s == text@,
            forall|i: int| 0 <= i < end ==> s[i] != NEWLINE,
        decreases text.len() - end,
    {
        end = end + 1;
    }
    proof {
        lemma_line_end_unique(s, end as int);
    }
    if end < text.len() && end > 0 && text[end - 1] == CARRIAGE_RETURN {
        end = end - 1;
    }
    let ghost line = first_line(s);
    assert(line =~= s.take(end as int));
    let mut start: usize = 0;
    if end > 0 && text[0] == PLUS {
        start = 1;
    }
    let ghost d = unsigned_digits(line);
    assert(d =~= s.subrange(start as int, end as int));
    if start == end {
        return None;
    }
    let mut value: u64 = 0;
    let mut k: usize = start;
    while k < end
        invariant
            start <= k <= end <= text.len(),
            s == text@,
            d =~= s.subrange(start as int, end as int),
            d == unsigned_digits(first_line(s)),
            start < end,
            all_digits(d.take(k - start)),
            value as nat == digits_value(d.take(k - start)),
            value <= u32::MAX,
        decreases end - k,
    {
        let b = text[k];
        assert(d[k - start] == b);
        if b < DIGIT_ZERO || b > DIGIT_NINE {
            assert(!is_digit(d[k - start]));
            return None;
        }
        let ghost prev = d.take(k - start);
        let next: u64 = value * 10 + (b - DIGIT_ZERO) as u64;
        assert(d.take(k + 1 - start).drop_last() =~= prev);
        assert(d.take(k + 1 - start) =~= prev.push(b));
        assert(digits_value(d.take(k + 1 - start)) == next);
        k = k + 1;
        if next > u32::MAX as u64 {
            proof {
                assert(all_digits(d.take(k - start)));
                if all_digits(d) {
                    lemma_digits_value_grows(d, k - start, d.len() as int);
                    assert(d.take(d.len() as int) =~= d);
                }
            }
            return None;
        }
        value = next;
    }
    assert(d.take(end - start) =~= d);
    Some(value as u32)
}

} // verus!
