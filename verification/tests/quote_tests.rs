use daily_quote::output::{banner, format_quote, render};
use daily_quote::quote::{quote_of_reply, Quote, Quotes, Response};

fn quote(text: &str, author: &str) -> Quote {
    Quote { quote: text.to_string(), author: author.to_string() }
}

fn reply(quotes: Vec<Quote>) -> Response {
    Response { contents: Quotes { quotes } }
}

const TESLA: &str = "It’s not the love you make. It’s the love you give.";

#[test]
fn default_quote_is_tesla() {
    let q = Quote::default();
    assert_eq!(q.quote, TESLA);
    assert_eq!(q.author, "Nikola Tesla");
}

#[test]
fn default_response_holds_only_the_default_quote() {
    let r = Response::default();
    assert_eq!(r.contents.quotes.len(), 1);
    assert_eq!(r.contents.quotes[0].quote, TESLA);
    assert_eq!(r.contents.quotes[0].author, "Nikola Tesla");
}

#[test]
fn default_reply_shows_default_quote() {
    let q = Response::default().first_or_default();
    assert_eq!(q.quote, TESLA);
    assert_eq!(q.author, "Nikola Tesla");
}

#[test]
fn first_quote_of_reply_is_shown() {
    let r = reply(vec![quote("Stay hungry.", "Steve Jobs"), quote("Second.", "Someone")]);
    let q = r.first_or_default();
    assert_eq!(q.quote, "Stay hungry.");
    assert_eq!(q.author, "Steve Jobs");
}

#[test]
fn empty_reply_shows_default_quote() {
    let q = reply(Vec::new()).first_or_default();
    assert_eq!(q.quote, TESLA);
    assert_eq!(q.author, "Nikola Tesla");
}

#[test]
fn unreadable_reply_shows_default_quote() {
    let q = quote_of_reply(None);
    assert_eq!(q.quote, TESLA);
    assert_eq!(q.author, "Nikola Tesla");
}

#[test]
fn readable_reply_shows_its_first_quote() {
    let q = quote_of_reply(Some(reply(vec![quote("Be brief.", "Anon")])));
    assert_eq!(q.quote, "Be brief.");
    assert_eq!(q.author, "Anon");
}

#[test]
fn readable_empty_reply_shows_default_quote() {
    let q = quote_of_reply(Some(reply(Vec::new())));
    assert_eq!(q.quote, TESLA);
}

#[test]
fn or_default_keeps_a_readable_reply() {
    let r = Response::or_default(Some(reply(vec![quote("x", "y"), quote("z", "w")])));
    assert_eq!(r.contents.quotes.len(), 2);
    assert_eq!(r.contents.quotes[1].quote, "z");
    let d = Response::or_default(None);
    assert_eq!(d.contents.quotes.len(), 1);
    assert_eq!(d.contents.quotes[0].author, "Nikola Tesla");
}

#[test]
fn quote_is_formatted_with_dash_and_author() {
    assert_eq!(format_quote(&quote("Be brief.", "Anon")), "Be brief.\n- Anon\n");
}

#[test]
fn banner_text_is_exact() {
    assert_eq!(
        banner(),
        "These are not the examples you are looking for.\nYou need to run \n\n `cargo run --example <example_name>`\n\nBut for now here is an inspirational quote to keep you motivated:\n\n\n"
    );
}

#[test]
fn render_prints_banner_then_quote() {
    let out = render(&quote("Be brief.", "Anon"));
    assert_eq!(out, format!("{}{}", banner(), "Be brief.\n- Anon\n"));
    assert!(out.starts_with("These are not the examples"));
    assert!(out.ends_with("motivated:\n\n\nBe brief.\n- Anon\n"));
}
