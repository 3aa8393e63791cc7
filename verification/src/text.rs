//! Character-level helpers shared by the parsing and generation stages.
//!
//! Texts are modelled as `Seq<char>`. Executable code works on a `Vec<char>`
//! where it needs random access and on `String` where it builds output.

use vstd::prelude::*;

verus! {

/// `String::push` of the standard library: appends the character `c` to the
/// end of `s` and leaves the characters before it untouched.
pub assume_specification[ String::push ](s: &mut String, c: char)
    ensures
        final(s)@ == old(s)@.push(c),
;

/// The characters of `s`, in order, as an indexable vector.
pub fn chars_of(s: &str) -> (chars: Vec<char>)
    ensures
        chars@ == s@,
{
    let mut chars: Vec<char> = Vec::new();
    for c in it: s.chars()
        invariant
            it.seq() == s@,
            chars@ == it.seq().take(it.index() as int),
    {
        chars.push(c);
    }
    chars
}

/// Appends `chars[from..to]` to `out`.
pub fn push_range(out: &mut String, chars: &Vec<char>, from: usize, to: usize)
    requires
        from <= to <= chars.len(),
    ensures
        final(out)@ == old(out)@ + chars@.subrange(from as int, to as int),
{
    let mut i: usize = from;
    while i < to
        invariant
            from <= i <= to <= chars.len(),
            out@ == old(out)@ + chars@.subrange(from as int, i as int),
        decreases to - i,
    {
        out.push(chars[i]);
        i += 1;
        assert(chars@.subrange(from as int, i as int) == chars@.subrange(
            from as int,
            i - 1,
        ).push(chars@[i - 1]));
    }
}

/// The text `chars[from..to]` as a `String`.
pub fn string_of_range(chars: &Vec<char>, from: usize, to: usize) -> (text: String)
    requires
        from <= to <= chars.len(),
    ensures
        text@ == chars@.subrange(from as int, to as int),
{
    let mut text = String::new();
    push_range(&mut text, chars, from, to);
    text
}

/// Whether `c` has the Unicode property `White_Space`.
pub open spec fn white_space(c: char) -> bool {
    let code = c as u32;
    ||| 0x09 <= code <= 0x0D
    ||| code == 0x20
    ||| code == 0x85
    ||| code == 0xA0
    ||| code == 0x1680
    ||| 0x2000 <= code <= 0x200A
    ||| code == 0x2028
    ||| code == 0x2029
    ||| code == 0x202F
    ||| code == 0x205F
    ||| code == 0x3000
}

/// Tests a character for the Unicode property `White_Space`.
pub fn is_white_space(c: char) -> (yes: bool)
    ensures
        yes == white_space(c),
{
    let code: u32 = c as u32;
    (0x09 <= code && code <= 0x0D) || code == 0x20 || code == 0x85 || code == 0xA0 || code
        == 0x1680 || (0x2000 <= code && code <= 0x200A) || code == 0x2028 || code == 0x2029
        || code == 0x202F || code == 0x205F || code == 0x3000
}

/// The kind of character that is stripped from the ends of a text.
#[derive(Clone, Copy, Debug, PartialEq, Eq)]
pub enum Margin {
    /// Characters with the Unicode property `White_Space`.
    WhiteSpace,
    /// The double quote `"`.
    Quotes,
}

impl Margin {
    /// Whether `c` is a character of this kind.
    pub open spec fn covers(self, c: char) -> bool {
        match self {
            Margin::WhiteSpace => white_space(c),
            Margin::Quotes => c == '"',
        }
    }

    /// Tests whether `c` is a character of this kind.
    pub fn has(&self, c: char) -> (yes: bool)
        ensures
            yes == self.covers(c),
    {
        match self {
            Margin::WhiteSpace => is_white_space(c),
            Margin::Quotes => c == '"',
        }
    }
}

/// `s` without its longest prefix of margin characters.
pub open spec fn strip_start(s: Seq<char>, margin: Margin) -> Seq<char>
    decreases s.len(),
{
    if s.len() > 0 && margin.covers(s.first()) {
        strip_start(s.drop_first(), margin)
    } else {
        s
    }
}

/// `s` without its longest suffix of margin characters.
pub open spec fn strip_end(s: Seq<char>, margin: Margin) -> Seq<char>
    decreases s.len(),
{
    if s.len() > 0 && margin.covers(s.last()) {
        strip_end(s.drop_last(), margin)
    } else {
        s
    }
}

/// `s` without the margin characters at its start and at its end. A text
/// made of margin characters only becomes empty.
pub open spec fn strip(s: Seq<char>, margin: Margin) -> Seq<char> {
    strip_end(strip_start(s, margin), margin)
}

/// Narrows the range `from..to` of `chars` to the part that is left when the
/// margin characters at both ends are stripped.
pub fn strip_range(chars: &Vec<char>, from: usize, to: usize, margin: Margin) -> (kept: (
    usize,
    usize,
))
    requires
        from <= to <= chars.len(),
    ensures
        from <= kept.0 <= kept.1 <= to,
        kept.0 == to - strip_start(chars@.subrange(from as int, to as int), margin).len(),
        chars@.subrange(kept.0 as int, kept.1 as int) == strip(
            chars@.subrange(from as int, to as int),
            margin,
        ),
{
    let mut lo: usize = from;
    while lo < to && margin.has(chars[lo])
        invariant
            from <= lo <= to <= chars.len(),
            strip_start(chars@.subrange(from as int, to as int), margin) == strip_start(
                chars@.subrange(lo as int, to as int),
                margin,
            ),
        decreases to - lo,
    {
        assert(chars@.subrange(lo as int, to as int).drop_first() == chars@.subrange(
            lo + 1,
            to as int,
        ));
        lo += 1;
    }
    let mut hi: usize = to;
    while lo < hi && margin.has(chars[hi - 1])
        invariant
            lo <= hi <= to <= chars.len(),
            strip_end(chars@.subrange(lo as int, to as int), margin) == strip_end(
                chars@.subrange(lo as int, hi as int),
                margin,
            ),
        decreases hi - lo,
    {
        assert(chars@.subrange(lo as int, hi as int).drop_last() == chars@.subrange(
            lo as int,
            hi - 1,
        ));
        hi -= 1;
    }
    (lo, hi)
}

/// The character that shows the digit `d`, where `d` is less than sixteen:
/// `0` to `9`, then `a` to `f`.
pub open spec fn digit(d: nat) -> char {
    if d < 10 {
        (48 + d) as char
    } else {
        (87 + d) as char
    }
}

/// The character that shows the digit `d`.
pub fn digit_char(d: u8) -> (c: char)
    requires
        d < 16,
    ensures
        c == digit(d as nat),
{
    if d < 10 {
        (48 + d) as char
    } else {
        (87 + d) as char
    }
}

/// The decimal notation of `n`, without a sign and without leading zeros.
pub open spec fn decimal(n: nat) -> Seq<char>
    decreases n,
{
    if n < 10 {
        seq![digit(n)]
    } else {
        decimal(n / 10).push(digit(n % 10))
    }
}

/// The hexadecimal notation of `n` in lower case, without a prefix and
/// without leading zeros.
pub open spec fn hexadecimal(n: nat) -> Seq<char>
    decreases n,
{
    if n < 16 {
        seq![digit(n)]
    } else {
        hexadecimal(n / 16).push(digit(n % 16))
    }
}

/// Appends the decimal notation of `n` to `out`.
pub fn push_decimal(out: &mut String, n: u64)
    ensures
        final(out)@ == old(out)@ + decimal(n as nat),
    decreases n,
{
    if n >= 10 {
        push_decimal(out, n / 10);
    }
    out.push(digit_char((n % 10) as u8));
    assert(old(out)@ + decimal(n as nat) =~= if n < 10 {
        old(out)@.push(digit(n as nat))
    } else {
        (old(out)@ + decimal((n / 10) as nat)).push(digit((n % 10) as nat))
    });
}

/// Appends the hexadecimal notation of `n` to `out`.
pub fn push_hexadecimal(out: &mut String, n: u32)
    ensures
        final(out)@ == old(out)@ + hexadecimal(n as nat),
    decreases n,
{
    if n >= 16 {
        push_hexadecimal(out, n / 16);
    }
    out.push(digit_char((n % 16) as u8));
    assert(old(out)@ + hexadecimal(n as nat) =~= if n < 16 {
        old(out)@.push(digit(n as nat))
    } else {
        (old(out)@ + hexadecimal((n / 16) as nat)).push(digit((n % 16) as nat))
    });
}

/// The texts of `parts`, one behind the other.
pub open spec fn joined(parts: Seq<Seq<char>>) -> Seq<char>
    decreases parts.len(),
{
    if parts.len() == 0 {
        Seq::empty()
    } else {
        joined(parts.drop_last()) + parts.last()
    }
}

} // verus!
