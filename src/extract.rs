//! Heuristic recovery of a JSON object from free-form process output.
use vstd::prelude::*;

use crate::text::chars_of;

verus! {

/// `i` is the position of the first occurrence of `c` in `s`.
pub open spec fn is_first_of(s: Seq<char>, c: char, i: int) -> bool {
    &&& 0 <= i < s.len()
    &&& s[i] == c
    &&& forall|j: int| 0 <= j < i ==> s[j] != c
}

/// `i` is the position of the last occurrence of `c` in `s`.
pub open spec fn is_last_of(s: Seq<char>, c: char, i: int) -> bool {
    &&& 0 <= i < s.len()
    &&& s[i] == c
    &&& forall|j: int| i < j < s.len() ==> s[j] != c
}

/// The span from the first `{` to the last `}` of `s`, both included, when
/// both braces occur and the last `}` stands after the first `{`.
///
/// This is deliberately greedy: with several objects in the output the span
/// covers all of them and whatever lies between.
pub open spec fn brace_span(s: Seq<char>) -> Option<Seq<char>> {
    if exists|a: int, b: int| is_first_of(s, '{', a) && is_last_of(s, '}', b) && a < b {
        let a = choose|a: int| is_first_of(s, '{', a);
        let b = choose|b: int| is_last_of(s, '}', b);
        Some(s.subrange(a, b + 1))
    } else {
        None
    }
}

/// The text that precedes the output in the error of `extract_json_from_output`.
pub open spec fn no_json_prefix() -> Seq<char> {
    "no JSON object found in output: "@
}

/// Finds the first `{` and the last `}` of `output` and returns the text
/// between them, braces included. Fails, quoting the whole output, when there
/// is no such pair.
pub fn extract_json_from_output(output: &str) -> (r: Result<String, String>)
    ensures
        match r {
            Ok(span) => brace_span(output@) == Some(span@),
            Err(msg) => brace_span(output@).is_none() && msg@ == no_json_prefix() + output@,
        },
{
    let cs = chars_of(output);
    let n = cs.len();
    let mut start: usize = 0;
    while start < n && cs[start] != '{'
        invariant
            cs@ == output@,
            n == cs@.len(),
            start <= n,
            forall|j: int| 0 <= j < start ==> cs@[j] != '{',
        decreases n - start,
    {
        start = start + 1;
    }
    let mut end: usize = n;
    while end > 0 && cs[end - 1] != '}'
        invariant
            cs@ == output@,
            n == cs@.len(),
            end <= n,
            forall|j: int| end <= j < n ==> cs@[j] != '}',
        decreases end,
    {
        end = end - 1;
    }
    // `end` is one past the last `}`, or zero when there is none.
    if start < n && end > 0 && end - 1 > start {
        proof {
            let s = output@;
            assert(is_first_of(s, '{', start as int));
            assert(is_last_of(s, '}', end - 1));
            let a = choose|a: int| is_first_of(s, '{', a);
            let b = choose|b: int| is_last_of(s, '}', b);
            assert(a == start);
            assert(b == end - 1);
        }
        let span = output.substring_char(start, end);
        Ok(String::from_str(span))
    } else {
        proof {
            let s = output@;
            assert forall|a: int, b: int|
                is_first_of(s, '{', a) && is_last_of(s, '}', b) implies !(a < b) by {
                if start < n {
                    assert(a == start);
                } else {
                    assert(s[a] == '{');
                }
                if end > 0 {
                    assert(b == end - 1);
                } else {
                    assert(s[b] == '}');
                }
            }
        }
        let mut msg = String::from_str("no JSON object found in output: ");
        msg.append(output);
        Err(msg)
    }
}

} // verus!
