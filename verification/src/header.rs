//! Splitting a header value into its white-space-delimited fields.

use vstd::prelude::*;
use vstd::string::*;

verus! {

/// The characters that delimit fields: those with the Unicode property
/// `White_Space`.
pub open spec fn is_white_space(c: char) -> bool {
    let n = c as u32;
    ||| 0x09 <= n <= 0x0D
    ||| n == 0x20
    ||| n == 0x85
    ||| n == 0xA0
    ||| n == 0x1680
    ||| 0x2000 <= n <= 0x200A
    ||| n == 0x2028
    ||| n == 0x2029
    ||| n == 0x202F
    ||| n == 0x205F
    ||| n == 0x3000
}

/// Tells whether a character delimits fields.
pub fn is_whitespace(c: char) -> (b: bool)
    ensures
        b == is_white_space(c),
{
    let n: u32 = c as u32;
    (0x09 <= n && n <= 0x0D) || n == 0x20 || n == 0x85 || n == 0xA0 || n == 0x1680 || (0x2000 <= n
        && n <= 0x200A) || n == 0x2028 || n == 0x2029 || n == 0x202F || n == 0x205F || n == 0x3000
}

/// The first position at or after `from` that holds no white space, or the
/// length of `s` where only white space follows.
pub open spec fn skip_white_space(s: Seq<char>, from: int) -> int
    decreases s.len() - from,
{
    if 0 <= from < s.len() && is_white_space(s[from]) {
        skip_white_space(s, from + 1)
    } else {
        from
    }
}

/// The first position at or after `from` that holds white space, or the
/// length of `s` where none follows.
pub open spec fn skip_field(s: Seq<char>, from: int) -> int
    decreases s.len() - from,
{
    if 0 <= from < s.len() && !is_white_space(s[from]) {
        skip_field(s, from + 1)
    } else {
        from
    }
}

/// Where the second field of `s` starts: past the leading white space, the
/// first field, and the white space after it.
pub open spec fn second_field_start(s: Seq<char>) -> int {
    skip_white_space(s, skip_field(s, skip_white_space(s, 0)))
}

/// The second white-space-delimited field of `s`, if it has one.
pub open spec fn second_field(s: Seq<char>) -> Option<Seq<char>> {
    let start = second_field_start(s);
    if start < s.len() {
        Some(s.subrange(start, skip_field(s, start)))
    } else {
        None
    }
}

/// Every character of `s` is white space.
pub open spec fn all_white_space(s: Seq<char>) -> bool {
    forall|i: int| 0 <= i < s.len() ==> is_white_space(#[trigger] s[i])
}

/// No character of `s` is white space.
pub open spec fn no_white_space(s: Seq<char>) -> bool {
    forall|i: int| 0 <= i < s.len() ==> !is_white_space(#[trigger] s[i])
}

/// A run of white space from `from` up to `to`, which ends the run, is what
/// `skip_white_space` passes over.
pub proof fn lemma_skip_white_space_reaches(s: Seq<char>, from: int, to: int)
    requires
        0 <= from <= to <= s.len(),
        forall|i: int| from <= i < to ==> is_white_space(#[trigger] s[i]),
        to == s.len() || !is_white_space(s[to]),
    ensures
        skip_white_space(s, from) == to,
    decreases to - from,
{
    if from < to {
        lemma_skip_white_space_reaches(s, from + 1, to);
    }
}

/// A run without white space from `from` up to `to`, which ends the run, is
/// what `skip_field` passes over.
pub proof fn lemma_skip_field_reaches(s: Seq<char>, from: int, to: int)
    requires
        0 <= from <= to <= s.len(),
        forall|i: int| from <= i < to ==> !is_white_space(#[trigger] s[i]),
        to == s.len() || is_white_space(s[to]),
    ensures
        skip_field(s, from) == to,
    decreases to - from,
{
    if from < to {
        lemma_skip_field_reaches(s, from + 1, to);
    }
}

/// `skip_white_space` stops within the text, having passed white space only,
/// at a character that is none.
pub proof fn lemma_skip_white_space_stops(s: Seq<char>, from: int)
    requires
        0 <= from <= s.len(),
    ensures
        from <= skip_white_space(s, from) <= s.len(),
        forall|i: int| from <= i < skip_white_space(s, from) ==> is_white_space(#[trigger] s[i]),
        skip_white_space(s, from) < s.len() ==> !is_white_space(s[skip_white_space(s, from)]),
    decreases s.len() - from,
{
    if from < s.len() && is_white_space(s[from]) {
        lemma_skip_white_space_stops(s, from + 1);
    }
}

/// `skip_field` stops within the text, having passed no white space, at a
/// character that is white space.
pub proof fn lemma_skip_field_stops(s: Seq<char>, from: int)
    requires
        0 <= from <= s.len(),
    ensures
        from <= skip_field(s, from) <= s.len(),
        forall|i: int| from <= i < skip_field(s, from) ==> !is_white_space(#[trigger] s[i]),
        skip_field(s, from) < s.len() ==> is_white_space(s[skip_field(s, from)]),
    decreases s.len() - from,
{
    if from < s.len() && !is_white_space(s[from]) {
        lemma_skip_field_stops(s, from + 1);
    }
}

/// A second field, where there is one, is not empty and holds no white space.
pub proof fn lemma_second_field_is_a_word(s: Seq<char>)
    ensures
        second_field(s) matches Some(token) ==> token.len() > 0 && no_white_space(token),
{
    lemma_skip_white_space_stops(s, 0);
    let first_start = skip_white_space(s, 0);
    lemma_skip_field_stops(s, first_start);
    let first_end = skip_field(s, first_start);
    lemma_skip_white_space_stops(s, first_end);
    let start = second_field_start(s);
    if start < s.len() {
        lemma_skip_field_stops(s, start);
        let token = s.subrange(start, skip_field(s, start));
        assert forall|i: int| 0 <= i < token.len() implies !is_white_space(#[trigger] token[i]) by {
            assert(token[i] == s[start + i]);
        }
    }
}

/// A header made of a scheme, white space, a token, and then nothing or more
/// white-space-led text, has the token as its second field. White space
/// before the scheme makes no difference.
pub proof fn lemma_token_follows_scheme(
    lead: Seq<char>,
    scheme: Seq<char>,
    gap: Seq<char>,
    token: Seq<char>,
    rest: Seq<char>,
)
    requires
        all_white_space(lead),
        scheme.len() > 0 && no_white_space(scheme),
        gap.len() > 0 && all_white_space(gap),
        token.len() > 0 && no_white_space(token),
        rest.len() == 0 || is_white_space(rest[0]),
    ensures
        second_field(lead + scheme + gap + token + rest) == Some(token),
{
    let s = lead + scheme + gap + token + rest;
    let a = lead.len() as int;
    let b = a + scheme.len();
    let c = b + gap.len();
    let d = c + token.len();
    assert forall|i: int| 0 <= i < a implies is_white_space(#[trigger] s[i]) by {
        assert(s[i] == lead[i]);
    }
    assert forall|i: int| a <= i < b implies !is_white_space(#[trigger] s[i]) by {
        assert(s[i] == scheme[i - a]);
    }
    assert forall|i: int| b <= i < c implies is_white_space(#[trigger] s[i]) by {
        assert(s[i] == gap[i - b]);
    }
    assert forall|i: int| c <= i < d implies !is_white_space(#[trigger] s[i]) by {
        assert(s[i] == token[i - c]);
    }
    assert(d == s.len() || is_white_space(s[d])) by {
        if d < s.len() {
            assert(s[d] == rest[0]);
        }
    }
    lemma_skip_white_space_reaches(s, 0, a);
    lemma_skip_field_reaches(s, a, b);
    lemma_skip_white_space_reaches(s, b, c);
    lemma_skip_field_reaches(s, c, d);
    assert(s.subrange(c, d) =~= token);
}

/// A header of at most one field, with white space around it or not, has no
/// second field.
pub proof fn lemma_lone_field_has_no_second(lead: Seq<char>, word: Seq<char>, trail: Seq<char>)
    requires
        all_white_space(lead),
        no_white_space(word),
        all_white_space(trail),
    ensures
        second_field(lead + word + trail) is None,
{
    let s = lead + word + trail;
    let a = lead.len() as int;
    let b = a + word.len();
    assert forall|i: int| 0 <= i < a implies is_white_space(#[trigger] s[i]) by {
        assert(s[i] == lead[i]);
    }
    assert forall|i: int| a <= i < b implies !is_white_space(#[trigger] s[i]) by {
        assert(s[i] == word[i - a]);
    }
    assert forall|i: int| b <= i < s.len() implies is_white_space(#[trigger] s[i]) by {
        assert(s[i] == trail[i - b]);
    }
    if word.len() == 0 {
        lemma_skip_white_space_reaches(s, 0, s.len() as int);
    } else {
        lemma_skip_white_space_reaches(s, 0, a);
        lemma_skip_field_reaches(s, a, b);
        lemma_skip_white_space_reaches(s, b, s.len() as int);
    }
}

/// `s` is white space, a first field, white space, the field `token`, and
/// then nothing or more white-space-led text.
pub open spec fn splits_around_token(
    s: Seq<char>,
    lead: Seq<char>,
    scheme: Seq<char>,
    gap: Seq<char>,
    token: Seq<char>,
    rest: Seq<char>,
) -> bool {
    &&& s == lead + scheme + gap + token + rest
    &&& all_white_space(lead)
    &&& scheme.len() > 0 && no_white_space(scheme)
    &&& gap.len() > 0 && all_white_space(gap)
    &&& token.len() > 0 && no_white_space(token)
    &&& rest.len() == 0 || is_white_space(rest[0])
}

/// `s` is white space, at most one field, and white space.
pub open spec fn splits_around_word(
    s: Seq<char>,
    lead: Seq<char>,
    word: Seq<char>,
    trail: Seq<char>,
) -> bool {
    &&& s == lead + word + trail
    &&& all_white_space(lead)
    &&& no_white_space(word)
    &&& all_white_space(trail)
}

/// Every text has one of two shapes: with a second field it splits around
/// that field, and without one it splits around a single word or none.
pub proof fn lemma_header_shape(s: Seq<char>)
    ensures
        second_field(s) matches Some(token) ==> exists|
            lead: Seq<char>,
            scheme: Seq<char>,
            gap: Seq<char>,
            rest: Seq<char>,
        | splits_around_token(s, lead, scheme, gap, token, rest),
        second_field(s) is None ==> exists|lead: Seq<char>, word: Seq<char>, trail: Seq<char>|
            splits_around_word(s, lead, word, trail),
{
    let n = s.len() as int;
    lemma_skip_white_space_stops(s, 0);
    let a = skip_white_space(s, 0);
    lemma_skip_field_stops(s, a);
    let b = skip_field(s, a);
    lemma_skip_white_space_stops(s, b);
    let c = skip_white_space(s, b);
    lemma_skip_field_stops(s, c);
    let d = skip_field(s, c);
    let lead = s.subrange(0, a);
    let first = s.subrange(a, b);
    assert(all_white_space(lead)) by {
        assert forall|i: int| 0 <= i < lead.len() implies is_white_space(#[trigger] lead[i]) by {
            assert(lead[i] == s[i]);
        }
    }
    assert(no_white_space(first)) by {
        assert forall|i: int| 0 <= i < first.len() implies !is_white_space(#[trigger] first[i]) by {
            assert(first[i] == s[a + i]);
        }
    }
    if c < n {
        let gap = s.subrange(b, c);
        let token = s.subrange(c, d);
        let rest = s.subrange(d, n);
        assert(a < b) by {
            lemma_skip_field_stops(s, a + 1);
        }
        assert(b < c) by {
            lemma_skip_white_space_stops(s, b + 1);
        }
        assert(c < d) by {
            lemma_skip_field_stops(s, c + 1);
        }
        assert(all_white_space(gap)) by {
            assert forall|i: int| 0 <= i < gap.len() implies is_white_space(#[trigger] gap[i]) by {
                assert(gap[i] == s[b + i]);
            }
        }
        assert(no_white_space(token)) by {
            assert forall|i: int| 0 <= i < token.len() implies !is_white_space(
                #[trigger] token[i],
            ) by {
                assert(token[i] == s[c + i]);
            }
        }
        assert(rest.len() == 0 || is_white_space(rest[0])) by {
            if rest.len() > 0 {
                assert(rest[0] == s[d]);
            }
        }
        assert(lead + first + gap + token + rest =~= s);
        assert(splits_around_token(s, lead, first, gap, token, rest));
        assert(second_field(s) == Some(token));
        assert(splits_around_token(s, lead, first, gap, second_field(s)->0, rest));
    } else {
        let trail = s.subrange(b, n);
        assert(all_white_space(trail)) by {
            assert forall|i: int| 0 <= i < trail.len() implies is_white_space(
                #[trigger] trail[i],
            ) by {
                assert(trail[i] == s[b + i]);
            }
        }
        assert(lead + first + trail =~= s);
        assert(splits_around_word(s, lead, first, trail));
        assert(second_field(s) is None);
    }
}

/// The characters of a string, in order.
pub fn chars_of(text: &str) -> (chars: Vec<char>)
    ensures
        chars@ == text@,
{
    broadcast use vstd::string::group_string_axioms;

    let mut chars: Vec<char> = Vec::new();
    let source = text.chars();
    for c in it: source
        invariant
            it.seq() == text@,
            chars@ == it.seq().take(it.index()),
    {
        chars.push(c);
    }
    chars
}

fn scan_white_space(chars: &Vec<char>, from: usize) -> (to: usize)
    requires
        from <= chars.len(),
    ensures
        to == skip_white_space(chars@, from as int),
        from <= to <= chars.len(),
{
    let mut at: usize = from;
    while at < chars.len() && is_whitespace(chars[at])
        invariant
            from <= at <= chars.len(),
            skip_white_space(chars@, at as int) == skip_white_space(chars@, from as int),
        decreases chars.len() - at,
    {
        at += 1;
    }
    at
}

fn scan_field(chars: &Vec<char>, from: usize) -> (to: usize)
    requires
        from <= chars.len(),
    ensures
        to == skip_field(chars@, from as int),
        from <= to <= chars.len(),
{
    let mut at: usize = from;
    while at < chars.len() && !is_whitespace(chars[at])
        invariant
            from <= at <= chars.len(),
            skip_field(chars@, at as int) == skip_field(chars@, from as int),
        decreases chars.len() - at,
    {
        at += 1;
    }
    at
}

/// The second white-space-delimited field of `text`, if it has one.
pub fn second_field_of(text: &str) -> (field: Option<String>)
    ensures
        field is Some <==> second_field(text@) is Some,
        field matches Some(token) ==> second_field(text@) == Some(token@),
{
    let chars = chars_of(text);
    let first_start = scan_white_space(&chars, 0);
    let first_end = scan_field(&chars, first_start);
    let start = scan_white_space(&chars, first_end);
    if start < chars.len() {
        let end = scan_field(&chars, start);
        Some(String::from_str(text.substring_char(start, end)))
    } else {
        None
    }
}

} // verus!
