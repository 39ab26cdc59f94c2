//! From a message to its look-ups, and from the answer of a look-up to the
//! reply. Nothing here talks to the search service or to the chat: the caller
//! does both, and hands over what came back.

use vstd::prelude::*;
use crate::card::{embed_text, footer_text, get_card_embed_text, get_card_footer_text, Card};
use crate::extract::{extract_references, is_extraction_of, ExtractedReference, Mode};
use crate::text::{chars_of, lowercase_of, push_str, string_of};

verus! {

/// What the search service answers to a query it received.
#[derive(Debug)]
pub enum SearchResult {
    /// The cards found, the best match first.
    CardList(Vec<Card>),
    /// The service could not make sense of the query.
    SemanticError(String),
}

/// How a look-up ended.
#[derive(Debug)]
pub enum SearchOutcome {
    /// The service answered.
    Answered(SearchResult),
    /// The service could not be reached; the text says why.
    TransportFailure(String),
}

/// The parts of the message shown for a card.
#[derive(Debug)]
pub struct RenderedCard {
    pub title: String,
    pub link_url: String,
    pub thumbnail_url: String,
    pub footer_text: String,
    pub description_text: String,
}

/// What to send in answer to one reference.
#[derive(Debug)]
pub enum Reply {
    Text(String),
    Card(RenderedCard),
}

/// The address of the page of the card `id`.
pub open spec fn card_url_text(id: Seq<char>) -> Seq<char> {
    "https://hemolymph.net/card/"@ + id
}

/// The address of the picture `asset`.
pub open spec fn thumbnail_url_text(asset: Seq<char>) -> Seq<char> {
    "https://file.garden/ZJSEzoaUL3bz8vYK/bloodlesscards/"@ + asset + ".png"@
}

/// The address that looks a query up: by exact name, the query between
/// double quotes after `n:`; as a free search, the query as it is.
pub open spec fn search_url_text(mode: Mode, query: Seq<char>) -> Seq<char> {
    match mode {
        Mode::ExactName => "https://hemolymph.net/search?query=n:\""@ + query + "\""@,
        Mode::FreeSearch => "https://hemolymph.net/search?query="@ + query,
    }
}

/// `shown` is the message for `card`.
pub open spec fn is_rendering_of(shown: RenderedCard, card: Card) -> bool {
    &&& shown.title@ == card.name@
    &&& shown.link_url@ == card_url_text(card.id@)
    &&& shown.thumbnail_url@ == thumbnail_url_text(card.image_asset_id@)
    &&& shown.footer_text@ == footer_text(
        card.card_type@,
        lowercase_of(card.card_type@),
        card.cost as int,
        card.health as int,
        card.defense as int,
        card.power as int,
    )
    &&& shown.description_text@ == embed_text(card.description@, card.flavor_text@)
}

/// The text of the reply to a look-up that found no card to show, if that is
/// how `outcome` ended.
pub open spec fn failure_text(outcome: SearchOutcome) -> Option<Seq<char>> {
    match outcome {
        SearchOutcome::TransportFailure(error) => Some("Couldn't reach server: "@ + error@),
        SearchOutcome::Answered(SearchResult::SemanticError(message)) => Some(
            "Couldn't parse search: "@ + message@,
        ),
        SearchOutcome::Answered(SearchResult::CardList(cards)) => if cards@.len() == 0 {
            Some("Couldn't find a matching card."@)
        } else {
            None
        },
    }
}

/// `reply` is the answer owed to a look-up that ended in `outcome`: the
/// failure text where there is one, else the message for the first card.
pub open spec fn is_reply_to(reply: Reply, outcome: SearchOutcome) -> bool {
    match failure_text(outcome) {
        Some(text) => reply is Text && reply->Text_0@ == text,
        None => reply is Card && is_rendering_of(
            reply->Card_0,
            outcome->Answered_0->CardList_0@[0],
        ),
    }
}

/// The references to look up for a message: none for a message that a bot
/// wrote, else those of its text, in order.
pub fn on_message(text: &str, sender_is_bot: bool) -> (out: Vec<ExtractedReference>)
    ensures
        sender_is_bot ==> out@.len() == 0,
        !sender_is_bot ==> is_extraction_of(out@, text@),
{
    if sender_is_bot {
        Vec::new()
    } else {
        extract_references(text)
    }
}

/// The address at which the search service answers `reference`.
pub fn search_url(reference: &ExtractedReference) -> (out: String)
    ensures
        out@ == search_url_text(reference.mode, reference.query@),
{
    let mut buf: Vec<char> = Vec::new();
    match reference.mode {
        Mode::ExactName => {
            push_str(&mut buf, "https://hemolymph.net/search?query=n:\"");
            push_str(&mut buf, reference.query.as_str());
            push_str(&mut buf, "\"");
        },
        Mode::FreeSearch => {
            push_str(&mut buf, "https://hemolymph.net/search?query=");
            push_str(&mut buf, reference.query.as_str());
        },
    }
    string_of(&buf)
}

/// The address of the page of the card `id`.
pub fn card_url(id: &str) -> (out: String)
    ensures
        out@ == card_url_text(id@),
{
    let mut buf = chars_of("https://hemolymph.net/card/");
    push_str(&mut buf, id);
    string_of(&buf)
}

/// The address of the picture `asset`.
pub fn thumbnail_url(asset: &str) -> (out: String)
    ensures
        out@ == thumbnail_url_text(asset@),
{
    let mut buf = chars_of("https://file.garden/ZJSEzoaUL3bz8vYK/bloodlesscards/");
    push_str(&mut buf, asset);
    push_str(&mut buf, ".png");
    string_of(&buf)
}

/// The message shown for `card`: its name as title, the addresses of its page
/// and picture, its footer and its description.
pub fn message_for_card(card: &Card) -> (shown: RenderedCard)
    ensures
        is_rendering_of(shown, *card),
{
    RenderedCard {
        title: card.name.clone(),
        link_url: card_url(card.id.as_str()),
        thumbnail_url: thumbnail_url(card.image_asset_id.as_str()),
        footer_text: get_card_footer_text(card),
        description_text: get_card_embed_text(card),
    }
}

/// The reply to one reference, given how its look-up ended. Of the cards
/// found only the first is shown; an empty list, a query the service could
/// not read and a service out of reach each get a line of text.
pub fn reply_for(outcome: &SearchOutcome) -> (reply: Reply)
    ensures
        is_reply_to(reply, *outcome),
{
    match outcome {
        SearchOutcome::TransportFailure(error) => {
            let mut buf = chars_of("Couldn't reach server: ");
            push_str(&mut buf, error.as_str());
            Reply::Text(string_of(&buf))
        },
        SearchOutcome::Answered(SearchResult::SemanticError(message)) => {
            let mut buf = chars_of("Couldn't parse search: ");
            push_str(&mut buf, message.as_str());
            Reply::Text(string_of(&buf))
        },
        SearchOutcome::Answered(SearchResult::CardList(cards)) => {
            if cards.len() == 0 {
                Reply::Text(string_of(&chars_of("Couldn't find a matching card.")))
            } else {
                Reply::Card(message_for_card(&cards[0]))
            }
        },
    }
}

} // verus!
