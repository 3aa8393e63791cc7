//! The argument list of an invocation: `file = "path"`.

use vstd::prelude::*;
use crate::error::{ArgumentFault, LabelError, LabelErrorView};
use crate::text::{chars_of, string_of_range, strip, strip_range, Margin};

verus! {

/// The key that the single argument starts with.
pub open spec fn file_key() -> Seq<char> {
    seq!['f', 'i', 'l', 'e']
}

/// The part of `s` behind its first `c`; empty where `s` holds no `c`.
pub open spec fn after_first(s: Seq<char>, c: char) -> Seq<char>
    decreases s.len(),
{
    if s.len() == 0 {
        s
    } else if s.first() == c {
        s.drop_first()
    } else {
        after_first(s.drop_first(), c)
    }
}

/// The path that an argument list names, or the failure to report.
///
/// A list with a comma has more than one segment and is refused. The one
/// segment, without the white space around it, has to start with `file` and
/// to hold a `=`. The path is what stands behind the first `=`, without the
/// white space around it and then without the double quotes around it.
pub open spec fn file_argument(args: Seq<char>) -> Result<Seq<char>, LabelErrorView> {
    let segment = strip(args, Margin::WhiteSpace);
    if args.contains(',') {
        Err(LabelErrorView::ArgumentFormat(ArgumentFault::SegmentCount))
    } else if !file_key().is_prefix_of(segment) || !segment.contains('=') {
        Err(LabelErrorView::ArgumentFormat(ArgumentFault::NotFileArgument))
    } else {
        Ok(strip(strip(after_first(segment, '='), Margin::WhiteSpace), Margin::Quotes))
    }
}

/// The mathematical value of the outcome of parsing an argument list.
pub open spec fn parsed_view(parsed: Result<String, LabelError>) -> Result<
    Seq<char>,
    LabelErrorView,
> {
    match parsed {
        Ok(path) => Ok(path@),
        Err(error) => Err(error@),
    }
}

/// The position of the first `c` in `chars[from..to]`, or `to` where there is
/// none.
pub fn find_char(chars: &Vec<char>, from: usize, to: usize, c: char) -> (at: usize)
    requires
        from <= to <= chars.len(),
    ensures
        from <= at <= to,
        at < to <==> chars@.subrange(from as int, to as int).contains(c),
        at < to ==> chars@[at as int] == c,
        forall|i: int| from <= i < at ==> chars@[i] != c,
        chars@.subrange(if at < to { at + 1 } else { to as int }, to as int) == after_first(
            chars@.subrange(from as int, to as int),
            c,
        ),
{
    let ghost whole = chars@.subrange(from as int, to as int);
    let mut at: usize = from;
    while at < to && chars[at] != c
        invariant
            from <= at <= to <= chars.len(),
            whole == chars@.subrange(from as int, to as int),
            forall|i: int| from <= i < at ==> chars@[i] != c,
            after_first(whole, c) == after_first(chars@.subrange(at as int, to as int), c),
        decreases to - at,
    {
        assert(chars@.subrange(at as int, to as int).drop_first() == chars@.subrange(
            at + 1,
            to as int,
        ));
        at += 1;
    }
    proof {
        if at < to {
            assert(chars@.subrange(at as int, to as int).drop_first() == chars@.subrange(
                at + 1,
                to as int,
            ));
            assert(whole[at - from] == c);
        } else {
            assert forall|i: int| 0 <= i < whole.len() implies whole[i] != c by {
                assert(whole[i] == chars@[from + i]);
            }
        }
    }
    at
}

/// Whether `chars[from..to]` starts with `file`.
fn starts_with_file_key(chars: &Vec<char>, from: usize, to: usize) -> (yes: bool)
    requires
        from <= to <= chars.len(),
    ensures
        yes == file_key().is_prefix_of(chars@.subrange(from as int, to as int)),
{
    let ghost segment = chars@.subrange(from as int, to as int);
    if to - from < 4 {
        return false;
    }
    let yes = chars[from] == 'f' && chars[from + 1] == 'i' && chars[from + 2] == 'l' && chars[from
        + 3] == 'e';
    proof {
        let head = segment.subrange(0, 4);
        if yes {
            assert(head =~= file_key());
        } else {
            assert(head[0] == chars@[from as int]);
            assert(head[1] == chars@[from + 1]);
            assert(head[2] == chars@[from + 2]);
            assert(head[3] == chars@[from + 3]);
        }
    }
    yes
}

/// Extracts the path of the mapping file from the argument list of an
/// invocation.
pub fn parse_file_argument(args: &str) -> (parsed: Result<String, LabelError>)
    ensures
        parsed_view(parsed) == file_argument(args@),
{
    let chars = chars_of(args);
    let len = chars.len();
    assert(chars@.subrange(0, len as int) == args@);
    if find_char(&chars, 0, len, ',') < len {
        return Err(LabelError::ArgumentFormat(ArgumentFault::SegmentCount));
    }
    let (from, to) = strip_range(&chars, 0, len, Margin::WhiteSpace);
    if !starts_with_file_key(&chars, from, to) {
        return Err(LabelError::ArgumentFormat(ArgumentFault::NotFileArgument));
    }
    let sign = find_char(&chars, from, to, '=');
    if sign == to {
        return Err(LabelError::ArgumentFormat(ArgumentFault::NotFileArgument));
    }
    let (from, to) = strip_range(&chars, sign + 1, to, Margin::WhiteSpace);
    let (from, to) = strip_range(&chars, from, to, Margin::Quotes);
    Ok(string_of_range(&chars, from, to))
}

} // verus!
