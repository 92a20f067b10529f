//! Character-level reading of cell contents: trimming, the part before the
//! percent sign, and signed 16-bit decimal numbers.

use vstd::prelude::*;
use vstd::string::StrSliceExecFns;
use vstd::string::StringExecFns;

verus! {

/// Whether `c` has the Unicode property White_Space.
pub open spec fn is_white_space(c: char) -> bool {
    let u = c as u32;
    ||| 0x09 <= u <= 0x0D
    ||| u == 0x20
    ||| u == 0x85
    ||| u == 0xA0
    ||| u == 0x1680
    ||| 0x2000 <= u <= 0x200A
    ||| u == 0x2028
    ||| u == 0x2029
    ||| u == 0x202F
    ||| u == 0x205F
    ||| u == 0x3000
}

/// The first index at or after `from` that holds no white space, or the
/// length of `s` where there is none.
pub open spec fn first_kept(s: Seq<char>, from: int) -> int
    decreases s.len() - from,
{
    if 0 <= from < s.len() && is_white_space(s[from]) {
        first_kept(s, from + 1)
    } else {
        from
    }
}

/// The end of the last run of characters before `to` that is not white
/// space, never below `low`.
pub open spec fn last_kept(s: Seq<char>, low: int, to: int) -> int
    decreases to - low,
{
    if low < to <= s.len() && is_white_space(s[to - 1]) {
        last_kept(s, low, to - 1)
    } else {
        to
    }
}

/// `s` without its leading and trailing white space.
pub open spec fn trimmed(s: Seq<char>) -> Seq<char> {
    let low = first_kept(s, 0);
    s.subrange(low, last_kept(s, low, s.len() as int))
}

/// The index of the first `%` at or after `from`, or the length of `s`
/// where there is none.
pub open spec fn first_percent(s: Seq<char>, from: int) -> int
    decreases s.len() - from,
{
    if 0 <= from < s.len() && s[from] != '%' {
        first_percent(s, from + 1)
    } else {
        from
    }
}

/// What stands before the first `%` of `s`; `None` where `s` holds no `%`.
pub open spec fn before_percent(s: Seq<char>) -> Option<Seq<char>> {
    let at = first_percent(s, 0);
    if at < s.len() {
        Some(s.subrange(0, at))
    } else {
        None
    }
}

/// Why a piece of text is not a signed 16-bit decimal number.
#[derive(Clone, Copy, Debug, PartialEq, Eq, Structural)]
pub enum IntegerFault {
    /// The text is empty.
    Empty,
    /// A character is no decimal digit, or a sign stands alone.
    InvalidDigit,
    /// The digits read so far already exceed 32767.
    TooLarge,
    /// The digits read so far already fall below -32768.
    TooSmall,
}

/// The value of a decimal digit.
pub open spec fn digit_of(c: char) -> Option<int> {
    let u = c as u32;
    if 0x30 <= u <= 0x39 {
        Some(u - 0x30)
    } else {
        None
    }
}

/// Reads the digits of `s` from index `from` on, left to right, onto `acc`.
/// The first character that is no digit, or the first digit that takes the
/// value out of the 16-bit range, decides the fault.
pub open spec fn scan_digits(s: Seq<char>, negative: bool, acc: int, from: int) -> Result<
    int,
    IntegerFault,
>
    decreases s.len() - from,
{
    if from < 0 || from >= s.len() {
        Ok(acc)
    } else {
        match digit_of(s[from]) {
            None => Err(IntegerFault::InvalidDigit),
            Some(d) => {
                let next = if negative {
                    10 * acc - d
                } else {
                    10 * acc + d
                };
                if next > i16::MAX {
                    Err(IntegerFault::TooLarge)
                } else if next < i16::MIN {
                    Err(IntegerFault::TooSmall)
                } else {
                    scan_digits(s, negative, next, from + 1)
                }
            },
        }
    }
}

/// The signed 16-bit number that `s` writes in decimal: an optional `+` or
/// `-`, then one digit or more, and nothing else.
pub open spec fn parse_i16(s: Seq<char>) -> Result<int, IntegerFault> {
    if s.len() == 0 {
        Err(IntegerFault::Empty)
    } else if s[0] == '-' || s[0] == '+' {
        if s.len() == 1 {
            Err(IntegerFault::InvalidDigit)
        } else {
            scan_digits(s, s[0] == '-', 0, 1)
        }
    } else {
        scan_digits(s, false, 0, 0)
    }
}

/// The distance of `n` from zero.
pub open spec fn magnitude(n: int) -> int {
    if n < 0 {
        -n
    } else {
        n
    }
}

/// The magnitude of `n`, narrowed to eight bits.
pub open spec fn narrowed(n: int) -> int {
    magnitude(n) % 256
}

/// `first_kept` stays between its start and the end of the text, skips
/// white space only, and stops at a character that is none.
pub proof fn lemma_first_kept(s: Seq<char>, from: int)
    requires
        0 <= from <= s.len(),
    ensures
        from <= first_kept(s, from) <= s.len(),
        forall|i: int| from <= i < first_kept(s, from) ==> is_white_space(s[i]),
        first_kept(s, from) < s.len() ==> !is_white_space(s[first_kept(s, from)]),
    decreases s.len() - from,
{
    if from < s.len() && is_white_space(s[from]) {
        lemma_first_kept(s, from + 1);
    }
}

/// `last_kept` stays between `low` and its start, skips white space only,
/// and stops behind a character that is none.
pub proof fn lemma_last_kept(s: Seq<char>, low: int, to: int)
    requires
        0 <= low <= to <= s.len(),
    ensures
        low <= last_kept(s, low, to) <= to,
        forall|i: int| last_kept(s, low, to) <= i < to ==> is_white_space(s[i]),
        low < last_kept(s, low, to) ==> !is_white_space(s[last_kept(s, low, to) - 1]),
    decreases to - low,
{
    if low < to && is_white_space(s[to - 1]) {
        lemma_last_kept(s, low, to - 1);
    }
}

/// Trimmed text neither starts nor ends with white space, and what was cut
/// off on either side is white space throughout.
pub proof fn lemma_trimmed(s: Seq<char>)
    ensures
        ({
            let t = trimmed(s);
            let low = first_kept(s, 0);
            &&& 0 <= low <= low + t.len() <= s.len()
            &&& t == s.subrange(low, low + t.len())
            &&& forall|i: int| 0 <= i < low ==> is_white_space(s[i])
            &&& forall|i: int| low + t.len() <= i < s.len() ==> is_white_space(s[i])
            &&& t.len() > 0 ==> !is_white_space(t[0]) && !is_white_space(t[t.len() - 1])
        }),
{
    lemma_first_kept(s, 0);
    lemma_last_kept(s, first_kept(s, 0), s.len() as int);
}

/// `first_percent` stops at the first `%` and nowhere before it.
pub proof fn lemma_first_percent(s: Seq<char>, from: int)
    requires
        0 <= from <= s.len(),
    ensures
        from <= first_percent(s, from) <= s.len(),
        forall|i: int| from <= i < first_percent(s, from) ==> s[i] != '%',
        first_percent(s, from) < s.len() ==> s[first_percent(s, from)] == '%',
    decreases s.len() - from,
{
    if from < s.len() && s[from] != '%' {
        lemma_first_percent(s, from + 1);
    }
}

/// A number that was read lies in the 16-bit range, as long as the value
/// read before it did.
pub proof fn lemma_scan_in_range(s: Seq<char>, negative: bool, acc: int, from: int)
    requires
        i16::MIN <= acc <= i16::MAX,
    ensures
        scan_digits(s, negative, acc, from) matches Ok(n) ==> i16::MIN <= n <= i16::MAX,
    decreases s.len() - from,
{
    if 0 <= from < s.len() {
        if let Some(d) = digit_of(s[from]) {
            let next = if negative {
                10 * acc - d
            } else {
                10 * acc + d
            };
            if i16::MIN <= next <= i16::MAX {
                lemma_scan_in_range(s, negative, next, from + 1);
            }
        }
    }
}

/// Every number that `parse_i16` reads is a signed 16-bit number.
pub proof fn lemma_parse_in_range(s: Seq<char>)
    ensures
        parse_i16(s) matches Ok(n) ==> i16::MIN <= n <= i16::MAX,
{
    lemma_scan_in_range(s, true, 0, 1);
    lemma_scan_in_range(s, false, 0, 1);
    lemma_scan_in_range(s, false, 0, 0);
}

/// The characters of `text`, in order.
pub fn chars_of(text: &str) -> (chars: Vec<char>)
    ensures
        chars@ == text@,
{
    let mut chars: Vec<char> = Vec::new();
    for c in it: text.chars()
        invariant
            chars@ == it.seq().take(it.index() as int),
    {
        chars.push(c);
    }
    chars
}

/// Tells white space from other characters.
pub fn white_space(c: char) -> (b: bool)
    ensures
        b == is_white_space(c),
{
    let u: u32 = c as u32;
    (0x09 <= u && u <= 0x0D) || u == 0x20 || u == 0x85 || u == 0xA0 || u == 0x1680 || (0x2000 <= u
        && u <= 0x200A) || u == 0x2028 || u == 0x2029 || u == 0x202F || u == 0x205F || u
        == 0x3000
}

/// Where the trimmed text starts and ends in `chars`.
pub fn trim_bounds(chars: &Vec<char>) -> (bounds: (usize, usize))
    ensures
        bounds.0 == first_kept(chars@, 0),
        bounds.1 == last_kept(chars@, bounds.0 as int, chars@.len() as int),
        bounds.0 <= bounds.1 <= chars@.len(),
        chars@.subrange(bounds.0 as int, bounds.1 as int) == trimmed(chars@),
        forall|i: int| 0 <= i < bounds.0 ==> is_white_space(chars@[i]),
        forall|i: int| bounds.1 <= i < chars@.len() ==> is_white_space(chars@[i]),
        bounds.0 < bounds.1 ==> !is_white_space(chars@[bounds.0 as int]) && !is_white_space(
            chars@[bounds.1 - 1],
        ),
{
    proof {
        lemma_first_kept(chars@, 0);
        lemma_last_kept(chars@, first_kept(chars@, 0), chars@.len() as int);
    }
    let mut low: usize = 0;
    while low < chars.len() && white_space(chars[low])
        invariant
            low <= chars@.len(),
            first_kept(chars@, 0) == first_kept(chars@, low as int),
        decreases chars@.len() - low,
    {
        low = low + 1;
    }
    let mut high: usize = chars.len();
    while low < high && white_space(chars[high - 1])
        invariant
            low <= high <= chars@.len(),
            last_kept(chars@, low as int, chars@.len() as int) == last_kept(
                chars@,
                low as int,
                high as int,
            ),
        decreases high - low,
    {
        high = high - 1;
    }
    (low, high)
}

/// `text` without its leading and trailing white space.
pub fn trim(text: &str) -> (kept: String)
    ensures
        kept@ == trimmed(text@),
        kept@.len() > 0 ==> !is_white_space(kept@[0]) && !is_white_space(kept@[kept@.len() - 1]),
{
    proof {
        lemma_trimmed(text@);
    }
    let chars = chars_of(text);
    let bounds = trim_bounds(&chars);
    String::from_str(text.substring_char(bounds.0, bounds.1))
}

/// The index of the first `%` of `chars` in `from..to`, or `to`.
pub fn find_percent(chars: &Vec<char>, from: usize, to: usize) -> (at: usize)
    requires
        from <= to <= chars@.len(),
    ensures
        from <= at <= to,
        at == first_percent(chars@.subrange(from as int, to as int), 0) + from,
{
    let ghost part = chars@.subrange(from as int, to as int);
    let mut at: usize = from;
    while at < to && chars[at] != '%'
        invariant
            from <= at <= to <= chars@.len(),
            part == chars@.subrange(from as int, to as int),
            first_percent(part, 0) == first_percent(part, at - from),
        decreases to - at,
    {
        at = at + 1;
    }
    at
}

/// Reads `chars[from..to]` as a signed 16-bit decimal number.
pub fn read_i16(chars: &Vec<char>, from: usize, to: usize) -> (r: Result<i16, IntegerFault>)
    requires
        from <= to <= chars@.len(),
    ensures
        match r {
            Ok(n) => parse_i16(chars@.subrange(from as int, to as int)) == Ok::<int, IntegerFault>(
                n as int,
            ),
            Err(fault) => parse_i16(chars@.subrange(from as int, to as int)) == Err::<
                int,
                IntegerFault,
            >(fault),
        },
{
    let ghost part = chars@.subrange(from as int, to as int);
    if from == to {
        return Err(IntegerFault::Empty);
    }
    let negative = chars[from] == '-';
    let signed = negative || chars[from] == '+';
    if signed && to - from == 1 {
        return Err(IntegerFault::InvalidDigit);
    }
    let mut at: usize = if signed {
        from + 1
    } else {
        from
    };
    let mut acc: i16 = 0;
    while at < to
        invariant
            from <= at <= to <= chars@.len(),
            part == chars@.subrange(from as int, to as int),
            parse_i16(part) == scan_digits(part, negative, acc as int, at - from),
        decreases to - at,
    {
        let u: u32 = chars[at] as u32;
        if u < 0x30 || u > 0x39 {
            return Err(IntegerFault::InvalidDigit);
        }
        let d: i32 = (u - 0x30) as i32;
        let wide: i32 = acc as i32;
        let next: i32 = if negative {
            10 * wide - d
        } else {
            10 * wide + d
        };
        if next > 32767 {
            return Err(IntegerFault::TooLarge);
        }
        if next < -32768 {
            return Err(IntegerFault::TooSmall);
        }
        acc = next as i16;
        at = at + 1;
    }
    Ok(acc)
}

/// The magnitude of `n`, narrowed to eight bits: `-15` gives `15`.
pub fn narrow(n: i16) -> (m: u8)
    ensures
        m == narrowed(n as int),
        -255 <= n <= 255 ==> m == magnitude(n as int),
{
    let wide: i32 = n as i32;
    let size: i32 = if wide < 0 {
        -wide
    } else {
        wide
    };
    (size % 256) as u8
}

} // verus!
