use vstd::prelude::*;
use vstd::string::StringExecFns;

verus! {

/// What a quote is, as plain text: its words and who said them.
#[verifier::ext_equal]
pub struct QuoteView {
    pub quote: Seq<char>,
    pub author: Seq<char>,
}

/// The words of the quote shown when none can be had.
pub open spec fn default_quote_text() -> Seq<char> {
    "It’s not the love you make. It’s the love you give."@
}

/// The author of the quote shown when none can be had.
pub open spec fn default_author() -> Seq<char> {
    "Nikola Tesla"@
}

/// The quote shown when none can be had.
pub open spec fn default_quote_view() -> QuoteView {
    QuoteView { quote: default_quote_text(), author: default_author() }
}

/// A quote and its author.
#[derive(Debug, Clone)]
pub struct Quote {
    pub quote: String,
    pub author: String,
}

impl View for Quote {
    type V = QuoteView;

    open spec fn view(&self) -> QuoteView {
        QuoteView { quote: self.quote@, author: self.author@ }
    }
}

impl Default for Quote {
    fn default() -> (q: Self)
        ensures
            q@ == default_quote_view(),
    {
        Quote {
            quote: String::from_str("It’s not the love you make. It’s the love you give."),
            author: String::from_str("Nikola Tesla"),
        }
    }
}

/// A list of quotes, as the quote service sends it.
#[derive(Debug, Clone)]
pub struct Quotes {
    pub quotes: Vec<Quote>,
}

impl View for Quotes {
    type V = Seq<QuoteView>;

    open spec fn view(&self) -> Seq<QuoteView> {
        self.quotes@.map_values(|q: Quote| q@)
    }
}

/// The reply of the quote service: its contents hold the quotes of the day.
#[derive(Debug, Clone)]
pub struct Response {
    pub contents: Quotes,
}

impl View for Response {
    type V = Seq<QuoteView>;

    open spec fn view(&self) -> Seq<QuoteView> {
        self.contents@
    }
}

impl Default for Response {
    /// A reply that holds the default quote and nothing else.
    fn default() -> (r: Self)
        ensures
            r@ == seq![default_quote_view()],
    {
        let r = Response { contents: Quotes { quotes: vec![Quote::default()] } };
        assert(r@ =~= seq![default_quote_view()]);
        r
    }
}

/// The quote that is shown for a list of quotes: the first one, or the
/// default quote when the list is empty.
pub open spec fn chosen_quote(quotes: Seq<QuoteView>) -> QuoteView {
    if quotes.len() > 0 {
        quotes[0]
    } else {
        default_quote_view()
    }
}

/// The quotes that a reply of the service stands for: those of the parsed
/// reply, or those of the default reply when the reply could not be read.
pub open spec fn reply_quotes(reply: Option<Seq<QuoteView>>) -> Seq<QuoteView> {
    match reply {
        Some(quotes) => quotes,
        None => seq![default_quote_view()],
    }
}

/// The view of an optional reply.
pub open spec fn reply_view(reply: Option<Response>) -> Option<Seq<QuoteView>> {
    match reply {
        Some(r) => Some(r@),
        None => None,
    }
}

impl Quote {
    /// A copy of this quote.
    pub(crate) fn copied(&self) -> (q: Quote)
        ensures
            q@ == self@,
    {
        Quote { quote: self.quote.clone(), author: self.author.clone() }
    }
}

impl Response {
    /// The reply that was read, or the default reply when none could be read.
    pub fn or_default(reply: Option<Response>) -> (r: Response)
        ensures
            r@ == reply_quotes(reply_view(reply)),
            reply matches Some(read) ==> r@ == read@,
            reply is None ==> r@ == seq![default_quote_view()],
    {
        match reply {
            Some(r) => r,
            None => Response::default(),
        }
    }

    /// The first quote of the reply, or the default quote when it holds none.
    pub fn first_or_default(&self) -> (q: Quote)
        ensures
            q@ == chosen_quote(self@),
            self@.len() > 0 ==> q@ == self@[0],
            self@.len() == 0 ==> q@ == default_quote_view(),
    {
        if self.contents.quotes.len() > 0 {
            self.contents.quotes[0].copied()
        } else {
            Quote::default()
        }
    }
}

/// The quote to show for a reply of the service: the reply's first quote,
/// or the default quote when the reply could not be read or holds no quote.
pub fn quote_of_reply(reply: Option<Response>) -> (q: Quote)
    ensures
        q@ == chosen_quote(reply_quotes(reply_view(reply))),
        reply matches Some(read) ==> (read@.len() > 0 ==> q@ == read@[0]),
        reply matches Some(read) ==> (read@.len() == 0 ==> q@ == default_quote_view()),
        reply is None ==> q@ == default_quote_view(),
{
    let response = Response::or_default(reply);
    response.first_or_default()
}

/// A reply that was read is kept whole by the fallback: same quotes, same
/// order.
pub proof fn lemma_readable_reply_kept_whole(quotes: Seq<QuoteView>)
    ensures
        reply_quotes(Some(quotes)) == quotes,
{
}

/// A reply that was read and holds a quote shows its first quote.
pub proof fn lemma_readable_reply_shows_first(quotes: Seq<QuoteView>)
    requires
        quotes.len() > 0,
    ensures
        chosen_quote(reply_quotes(Some(quotes))) == quotes[0],
        chosen_quote(quotes) == quotes[0],
{
}

/// A reply that could not be read shows the default quote.
pub proof fn lemma_unreadable_reply_shows_default()
    ensures
        chosen_quote(reply_quotes(None)) == default_quote_view(),
{
}

/// A reply that holds no quote shows the default quote.
pub proof fn lemma_empty_reply_shows_default()
    ensures
        chosen_quote(Seq::<QuoteView>::empty()) == default_quote_view(),
{
}

/// The default reply shows the default quote.
pub proof fn lemma_default_reply_shows_default()
    ensures
        chosen_quote(seq![default_quote_view()]) == default_quote_view(),
{
}

/// The quote shown for a list of quotes is one of them, or else the
/// default quote, and it is the default quote only when the list is empty
/// or begins with a quote equal to it.
pub proof fn lemma_shown_quote_comes_from_reply(quotes: Seq<QuoteView>)
    ensures
        quotes.contains(chosen_quote(quotes)) || chosen_quote(quotes) == default_quote_view(),
        chosen_quote(quotes) == default_quote_view() ==> quotes.len() == 0 || quotes[0]
            == default_quote_view(),
{
    if quotes.len() > 0 {
        assert(quotes[0] == chosen_quote(quotes));
    }
}

} // verus!
