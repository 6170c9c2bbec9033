//! Line framing for the ingestion channel: one record per line, surrounded by
//! optional white space, with blank lines carrying no record.

use vstd::prelude::*;
use vstd::std_specs::iter::IteratorSpec;

verus! {

/// Whether `c` has the Unicode `White_Space` property.
pub open spec fn is_white_space(c: char) -> bool {
    let u = c as u32;
    ||| 0x09 <= u <= 0x0D
    ||| u == 0x20
    ||| u == 0x85
    ||| u == 0xA0
    ||| u == 0x1680
    ||| 0x2000 <= u <= 0x200A
    ||| u == 0x2028
    ||| u == 0x2029
    ||| u == 0x202F
    ||| u == 0x205F
    ||| u == 0x3000
}

/// `s` without its leading white space.
pub open spec fn skip_leading(s: Seq<char>) -> Seq<char>
    decreases s.len(),
{
    if s.len() > 0 && is_white_space(s[0]) {
        skip_leading(s.drop_first())
    } else {
        s
    }
}

/// `s` without its trailing white space.
pub open spec fn skip_trailing(s: Seq<char>) -> Seq<char>
    decreases s.len(),
{
    if s.len() > 0 && is_white_space(s.last()) {
        skip_trailing(s.drop_last())
    } else {
        s
    }
}

/// The record text of a line: the line without leading and trailing white space.
pub open spec fn trimmed(s: Seq<char>) -> Seq<char> {
    skip_trailing(skip_leading(s))
}

/// A line is blank when it holds nothing but white space.
pub open spec fn is_blank(s: Seq<char>) -> bool {
    forall|i: int| 0 <= i < s.len() ==> is_white_space(#[trigger] s[i])
}

/// Decides the `White_Space` property of one character.
pub fn white_space(c: char) -> (b: bool)
    ensures
        b == is_white_space(c),
{
    let u: u32 = c as u32;
    (0x09 <= u && u <= 0x0D) || u == 0x20 || u == 0x85 || u == 0xA0 || u == 0x1680 || (0x2000 <= u
        && u <= 0x200A) || u == 0x2028 || u == 0x2029 || u == 0x202F || u == 0x205F || u == 0x3000
}

/// Dropping a white-space prefix of length `a` is what `skip_leading` does, when the
/// character after the prefix (if any) is not white space.
proof fn lemma_skip_leading(s: Seq<char>, a: int)
    requires
        0 <= a <= s.len(),
        forall|i: int| 0 <= i < a ==> is_white_space(#[trigger] s[i]),
        a < s.len() ==> !is_white_space(s[a]),
    ensures
        skip_leading(s) == s.subrange(a, s.len() as int),
    decreases a,
{
    if a == 0 {
        assert(s.subrange(0, s.len() as int) =~= s);
    } else {
        let rest = s.drop_first();
        assert forall|i: int| 0 <= i < a - 1 implies is_white_space(#[trigger] rest[i]) by {
            assert(rest[i] == s[i + 1]);
        }
        lemma_skip_leading(rest, a - 1);
        assert(rest.subrange(a - 1, rest.len() as int) =~= s.subrange(a, s.len() as int));
    }
}

/// Dropping a white-space suffix that starts at `b` is what `skip_trailing` does, when
/// the character before the suffix (if any) is not white space.
proof fn lemma_skip_trailing(s: Seq<char>, b: int)
    requires
        0 <= b <= s.len(),
        forall|i: int| b <= i < s.len() ==> is_white_space(#[trigger] s[i]),
        0 < b ==> !is_white_space(s[b - 1]),
    ensures
        skip_trailing(s) == s.subrange(0, b),
    decreases s.len() - b,
{
    if b == s.len() {
        assert(s.subrange(0, b) =~= s);
    } else {
        let rest = s.drop_last();
        lemma_skip_trailing(rest, b);
        assert(rest.subrange(0, b) =~= s.subrange(0, b));
    }
}

/// The record text of `line`: the line without the white space around it.
pub fn trim(line: &str) -> (text: &str)
    ensures
        text@ == trimmed(line@),
        text@.len() == 0 <==> is_blank(line@),
{
    let n = line.unicode_len();
    let mut start: usize = 0;
    let mut end: usize = 0;
    let mut seen: bool = false;
    let mut k: usize = 0;
    let mut chars = line.chars();
    proof {
        vstd::string::axiom_spec_iter(line);
    }
    while k < n
        invariant
            n == line@.len(),
            k <= n,
            chars.remaining() == line@.subrange(k as int, n as int),
            chars.obeys_prophetic_iter_laws(),
            !seen ==> forall|i: int| 0 <= i < k ==> is_white_space(#[trigger] line@[i]),
            seen ==> start < end <= k,
            seen ==> !is_white_space(line@[start as int]),
            seen ==> !is_white_space(line@[end - 1]),
            seen ==> forall|i: int| 0 <= i < start ==> is_white_space(#[trigger] line@[i]),
            seen ==> forall|i: int| end <= i < k ==> is_white_space(#[trigger] line@[i]),
        decreases n - k,
    {
        let ghost before = chars;
        let next = chars.next();
        proof {
            vstd::string::next_postcondition(&before, &chars, next);
            assert(before.remaining().len() > 0);
            assert(before.remaining()[0] == line@[k as int]);
            assert(before.remaining().drop_first() =~= line@.subrange(k + 1, n as int));
        }
        match next {
            Some(c) => {
                if !white_space(c) {
                    if !seen {
                        start = k;
                        seen = true;
                    }
                    end = k + 1;
                }
            },
            None => {},
        }
        k = k + 1;
    }
    if seen {
        proof {
            lemma_skip_leading(line@, start as int);
            let tail = line@.subrange(start as int, n as int);
            assert forall|i: int| end - start <= i < tail.len() implies is_white_space(
                #[trigger] tail[i],
            ) by {
                assert(tail[i] == line@[i + start]);
            }
            assert(tail[end - start - 1] == line@[end - 1]);
            lemma_skip_trailing(tail, end - start);
            assert(tail.subrange(0, end - start) =~= line@.subrange(start as int, end as int));
            assert(!is_white_space(line@[start as int]));
        }
        line.substring_char(start, end)
    } else {
        proof {
            lemma_skip_leading(line@, n as int);
            assert(line@.subrange(n as int, n as int) =~= Seq::<char>::empty());
            assert(skip_trailing(Seq::<char>::empty()) == Seq::<char>::empty());
        }
        line.substring_char(0, 0)
    }
}

} // verus!
