//! Generation of a reading for a question and the cards drawn.

use vstd::prelude::*;
use crate::text::views_of;

verus! {

/// The standard debug rendering of a list of strings: each string quoted and escaped,
/// separated by commas, in brackets.
pub uninterp spec fn debug_list(items: Seq<Seq<char>>) -> Seq<char>;

/// Relies on std's `Debug` formatting of `Vec<String>`; its text depends on the strings alone.
#[verifier::external_body]
fn debug_strings(items: &Vec<String>) -> (r: String)
    ensures
        r@ == debug_list(views_of(items@)),
{
    format!("{:?}", items)
}

/// The reading text for `question`, given the rendered list of cards.
pub fn format_reading(question: &str, cards_text: &str) -> (r: String)
    ensures
        r@ == "Reading for question: "@ + question@ + " with cards: "@ + cards_text@,
{
    let mut s = "Reading for question: ".to_owned();
    s.append(question);
    s.append(" with cards: ");
    s.append(cards_text);
    s
}

/// A reading for `question` with the cards drawn.
pub fn generate_reading(question: &str, cards: Vec<String>) -> (r: Result<String, String>)
    ensures
        r matches Ok(s) && s@ == "Reading for question: "@ + question@ + " with cards: "@
            + debug_list(views_of(cards@)),
{
    let cards_text = debug_strings(&cards);
    Ok(format_reading(question, cards_text.as_str()))
}

} // verus!
