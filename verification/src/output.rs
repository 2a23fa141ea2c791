use vstd::prelude::*;
use vstd::string::StringExecFns;

use crate::quote::{Quote, QuoteView};

verus! {

/// The lines printed before the quote, the closing line break included.
pub open spec fn banner_text() -> Seq<char> {
    "These are not the examples you are looking for.\nYou need to run \n\n `cargo run --example <example_name>`\n\nBut for now here is an inspirational quote to keep you motivated:\n\n\n"@
}

/// The lines that show a quote: its words, then a line with a dash and the
/// author, each ended by a line break.
pub open spec fn quote_text(q: QuoteView) -> Seq<char> {
    q.quote + "\n- "@ + q.author + "\n"@
}

/// All that the program prints for the quote `q`.
pub open spec fn output_text(q: QuoteView) -> Seq<char> {
    banner_text() + quote_text(q)
}

/// The lines printed before the quote.
pub fn banner() -> (s: String)
    ensures
        s@ == banner_text(),
{
    String::from_str(
        "These are not the examples you are looking for.\nYou need to run \n\n `cargo run --example <example_name>`\n\nBut for now here is an inspirational quote to keep you motivated:\n\n\n",
    )
}

/// The lines that show `q`: its words, then a dash and its author.
pub fn format_quote(q: &Quote) -> (s: String)
    ensures
        s@ == quote_text(q@),
        s@ == q.quote@ + "\n- "@ + q.author@ + "\n"@,
{
    let mut s = String::new();
    s.append(q.quote.as_str());
    s.append("\n- ");
    s.append(q.author.as_str());
    s.append("\n");
    s
}

/// All that the program prints for `q`: the banner, then the quote.
pub fn render(q: &Quote) -> (s: String)
    ensures
        s@ == output_text(q@),
        s@ == banner_text() + q.quote@ + "\n- "@ + q.author@ + "\n"@,
        s@.subrange(0, banner_text().len() as int) == banner_text(),
{
    let mut s = banner();
    let body = format_quote(q);
    s.append(body.as_str());
    s
}

/// A quote is shown as its words, then a line break, a dash, a space and
/// the author, then a line break.
pub proof fn lemma_quote_layout(q: QuoteView)
    ensures
        quote_text(q) == q.quote + "\n- "@ + q.author + "\n"@,
        quote_text(q).subrange(0, q.quote.len() as int) == q.quote,
{
    assert(quote_text(q).subrange(0, q.quote.len() as int) =~= q.quote);
}

/// The output always begins with the banner, which the quote follows.
pub proof fn lemma_output_is_banner_then_quote(q: QuoteView)
    ensures
        output_text(q) == banner_text() + q.quote + "\n- "@ + q.author + "\n"@,
        output_text(q).subrange(0, banner_text().len() as int) == banner_text(),
        output_text(q).subrange(banner_text().len() as int, output_text(q).len() as int)
            == quote_text(q),
{
    assert(output_text(q).subrange(0, banner_text().len() as int) =~= banner_text());
    assert(output_text(q).subrange(banner_text().len() as int, output_text(q).len() as int)
        =~= quote_text(q));
}

} // verus!
