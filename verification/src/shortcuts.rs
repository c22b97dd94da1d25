use crate::scan::{
    first_match, last_match, lemma_first_match, lemma_first_match_is, lemma_last_match,
    lemma_last_match_is,
};
use crate::text::chars_of;
use vstd::prelude::*;
use vstd::string::*;

verus! {

pub open spec fn is_char(c: char) -> spec_fn(char) -> bool {
    |x: char| x == c
}

/// Position of the first `open` in `s`, the length of `s` if it holds none.
pub open spec fn opening(s: Seq<char>, open: char) -> int {
    first_match(s, is_char(open))
}

/// Position of the last `close` in `s`, `-1` if it holds none.
pub open spec fn closing(s: Seq<char>, close: char) -> int {
    last_match(s, is_char(close))
}

/// Whether the delimiters can be taken out of `s`: it holds both, and where the last
/// `close` does not come after the first `open`, the character after that `open`,
/// which then leaves in its place, exists and is an ASCII character.
pub open spec fn strippable(s: Seq<char>, open: char, close: char) -> bool {
    &&& opening(s, open) < s.len()
    &&& 0 <= closing(s, close)
    &&& closing(s, close) <= opening(s, open) ==> opening(s, open) + 1 < s.len() && (s[opening(
        s,
        open,
    ) + 1] as u32) < 0x80
}

/// `s` without its last `close` and then without what stands at the position of its
/// first `open`. With the first `open` before the last `close` that is `s` without
/// this pair of delimiters.
pub open spec fn stripped(s: Seq<char>, open: char, close: char) -> Seq<char> {
    s.remove(closing(s, close)).remove(opening(s, open))
}

/// Where the first `open` stands before the last `close`, the text can be stripped,
/// and what is left is the text before the `open`, the text between the two and the
/// text after the `close`: the two delimiters are gone and nothing else.
pub proof fn lemma_stripped_pair(s: Seq<char>, open: char, close: char)
    requires
        opening(s, open) < closing(s, close),
    ensures
        strippable(s, open, close),
        s[opening(s, open)] == open,
        s[closing(s, close)] == close,
        stripped(s, open, close) == s.subrange(0, opening(s, open)) + s.subrange(
            opening(s, open) + 1,
            closing(s, close),
        ) + s.subrange(closing(s, close) + 1, s.len() as int),
{
    lemma_first_match(s, is_char(open));
    lemma_last_match(s, is_char(close));
    assert(stripped(s, open, close) =~= s.subrange(0, opening(s, open)) + s.subrange(
        opening(s, open) + 1,
        closing(s, close),
    ) + s.subrange(closing(s, close) + 1, s.len() as int));
}

fn find_opening(chars: &Vec<char>, open: char) -> (i: usize)
    ensures
        i == opening(chars@, open),
        i <= chars.len(),
{
    let mut i: usize = 0;
    while i < chars.len() && chars[i] != open
        invariant
            i <= chars.len(),
            forall|k: int| 0 <= k < i ==> !is_char(open)(#[trigger] chars@[k]),
        decreases chars.len() - i,
    {
        i = i + 1;
    }
    proof {
        lemma_first_match_is(chars@, is_char(open), i as int);
    }
    i
}

/// One more than the position of the last `close`, zero if there is none.
fn find_closing(chars: &Vec<char>, close: char) -> (j: usize)
    ensures
        j == closing(chars@, close) + 1,
        j <= chars.len(),
{
    let mut j: usize = chars.len();
    while j > 0 && chars[j - 1] != close
        invariant
            j <= chars.len(),
            forall|k: int| j <= k < chars.len() ==> !is_char(close)(#[trigger] chars@[k]),
        decreases j,
    {
        j = j - 1;
    }
    proof {
        lemma_last_match_is(chars@, is_char(close), j - 1);
    }
    j
}

fn can_strip(text: &str, open: char, close: char) -> (r: bool)
    ensures
        r == strippable(text@, open, close),
{
    let chars = chars_of(text);
    let i = find_opening(&chars, open);
    let j = find_closing(&chars, close);
    if i >= chars.len() || j == 0 {
        return false;
    }
    if j - 1 <= i {
        i + 1 < chars.len() && (chars[i + 1] as u32) < 0x80
    } else {
        true
    }
}

fn strip(text: &str, open: char, close: char) -> (r: String)
    requires
        strippable(text@, open, close),
    ensures
        r@ == stripped(text@, open, close),
{
    let chars = chars_of(text);
    let n = chars.len();
    let i = find_opening(&chars, open);
    let j = find_closing(&chars, close) - 1;
    let mut r: String;
    if i < j {
        r = String::from_str(text.substring_char(0, i));
        r.append(text.substring_char(i + 1, j));
        r.append(text.substring_char(j + 1, n));
    } else {
        r = String::from_str(text.substring_char(0, j));
        r.append(text.substring_char(j + 1, i + 1));
        r.append(text.substring_char(i + 2, n));
    }
    assert(r@ =~= stripped(text@, open, close));
    r
}

/// Whether `remove_quote` accepts `text`.
pub fn can_remove_quote(text: &str) -> (r: bool)
    ensures
        r == strippable(text@, '"', '"'),
{
    can_strip(text, '"', '"')
}

/// Takes the first and the last double quote out of `text`.
pub fn remove_quote(text: &str) -> (r: String)
    requires
        strippable(text@, '"', '"'),
    ensures
        r@ == stripped(text@, '"', '"'),
{
    strip(text, '"', '"')
}

/// Whether `remove_block_brace` accepts `text`.
pub fn can_remove_block_brace(text: &str) -> (r: bool)
    ensures
        r == strippable(text@, '[', ']'),
{
    can_strip(text, '[', ']')
}

/// Takes the first opening and the last closing square bracket out of `text`.
pub fn remove_block_brace(text: &str) -> (r: String)
    requires
        strippable(text@, '[', ']'),
    ensures
        r@ == stripped(text@, '[', ']'),
{
    strip(text, '[', ']')
}

} // verus!
