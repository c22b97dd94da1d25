use crate::shortcuts::{remove_quote, stripped, strippable};
use crate::text::{mention, push_mention};
use vstd::prelude::*;
use vstd::string::*;

verus! {

/// The text in which the standard library's `Debug` formatting renders the string
/// `s`: between double quotes, with its escapes.
pub uninterp spec fn debug_text(s: Seq<char>) -> Seq<char>;

/// Calls `format!` with `{:?}`, which is `<str as core::fmt::Debug>::fmt`. The contract
/// claims one thing of it: the result depends on the characters of `s` alone, so it is
/// `debug_text` of them. What the rendering looks like is not stated.
#[verifier::external_body]
fn debug_format(s: &str) -> (r: String)
    ensures
        r@ == debug_text(s@),
{
    format!("{:?}", s)
}

/// The answer to a request for a fact: the author is addressed, the fact follows on
/// the next line.
pub open spec fn fact_text(author: u64, rendered: Seq<char>) -> Seq<char> {
    mention(author) + ":\n "@ + rendered
}

/// Puts the answer together from the fact as it is to be shown.
pub fn compose_fact_reply(author: u64, rendered: &str) -> (r: String)
    ensures
        r@ == fact_text(author, rendered@),
{
    let mut r = String::new();
    push_mention(&mut r, author);
    r.append(":\n ");
    r.append(rendered);
    assert(r@ =~= fact_text(author, rendered@));
    r
}

/// The answer to a request for a fact, from the fact as the service returned it: its
/// outer quotes are taken out, and what is left is shown in `Debug` rendering.
pub fn fact_reply(author: u64, fact: &str) -> (r: String)
    requires
        strippable(fact@, '"', '"'),
    ensures
        r@ == fact_text(author, debug_text(stripped(fact@, '"', '"'))),
{
    let bare = remove_quote(fact);
    let rendered = debug_format(bare.as_str());
    compose_fact_reply(author, rendered.as_str())
}

} // verus!
