//! What the command line asks for before the bot starts.

use vstd::prelude::*;
use crate::text::joined;

verus! {

/// The options that the decisions of the bot depend on.
#[derive(Debug, PartialEq, Eq)]
pub struct Config {
    /// The folder for downloaded files.
    pub destination: String,
    /// Talk to a local API server, whose files lie on this machine.
    pub local_mode: bool,
    /// The address of the local API server.
    pub telegram_api_server: String,
    /// The address at which the bot wants to receive updates.
    pub telegram_webhook_url: Option<String>,
}

/// The API server to talk to.
#[derive(Debug, PartialEq, Eq)]
pub enum Endpoint {
    /// Telegram's own.
    Standard,
    /// A local one, at this address.
    Local(String),
    /// The address of the local one does not parse; this is why.
    Invalid(String),
}

/// The view of an `Endpoint`.
pub enum EndpointView {
    Standard,
    Local(Seq<char>),
    Invalid(Seq<char>),
}

impl View for Endpoint {
    type V = EndpointView;

    open spec fn view(&self) -> EndpointView {
        match self {
            Endpoint::Standard => EndpointView::Standard,
            Endpoint::Local(u) => EndpointView::Local(u@),
            Endpoint::Invalid(e) => EndpointView::Invalid(e@),
        }
    }
}

/// What to do about the webhook.
#[derive(Debug, PartialEq, Eq)]
pub enum Webhook {
    /// Register none.
    Skip,
    /// Register this address.
    Register(String),
    /// The address does not parse, for this reason; the bot must not start.
    Abort(String),
}

/// The view of a `Webhook`.
pub enum WebhookView {
    Skip,
    Register(Seq<char>),
    Abort(Seq<char>),
}

impl View for Webhook {
    type V = WebhookView;

    open spec fn view(&self) -> WebhookView {
        match self {
            Webhook::Skip => WebhookView::Skip,
            Webhook::Register(u) => WebhookView::Register(u@),
            Webhook::Abort(e) => WebhookView::Abort(e@),
        }
    }
}

/// A text read as an address: the address as `url` writes it, or its reason to refuse the text.
pub uninterp spec fn parsed_url(text: Seq<char>) -> Result<Seq<char>, Seq<char>>;

/// The view of a result of strings.
pub open spec fn result_view(r: Result<String, String>) -> Result<Seq<char>, Seq<char>> {
    match r {
        Ok(s) => Ok(s@),
        Err(e) => Err(e@),
    }
}

/// `url::Url::parse`, the address and the error as text. What it returns depends on the text
/// alone; which texts are addresses, and how one is written, is not stated.
#[verifier::external_body]
fn parse_url(text: &str) -> (r: Result<String, String>)
    ensures
        result_view(r) == parsed_url(text@),
{
    match url::Url::parse(text) {
        Ok(u) => Ok(u.to_string()),
        Err(e) => Err(e.to_string()),
    }
}

/// The text that names the API below a server.
pub open spec fn api_address(server: Seq<char>) -> Seq<char> {
    server + "/bot"@
}

/// The endpoint for local mode, given how the address of the server parsed.
pub open spec fn local_endpoint(parsed: Result<Seq<char>, Seq<char>>) -> EndpointView {
    match parsed {
        Ok(u) => EndpointView::Local(u),
        Err(e) => EndpointView::Invalid(e),
    }
}

/// What to do about a wanted webhook, given how its address parsed.
pub open spec fn wanted_webhook(parsed: Result<Seq<char>, Seq<char>>) -> WebhookView {
    match parsed {
        Ok(u) => WebhookView::Register(u),
        Err(e) => WebhookView::Abort(e),
    }
}

/// The endpoint for local mode, given how the address of the server parsed.
pub fn endpoint_of(parsed: Result<String, String>) -> (r: Endpoint)
    ensures
        r@ == local_endpoint(result_view(parsed)),
{
    match parsed {
        Ok(u) => Endpoint::Local(u),
        Err(e) => Endpoint::Invalid(e),
    }
}

/// What to do about a wanted webhook, given how its address parsed.
pub fn webhook_of(parsed: Result<String, String>) -> (r: Webhook)
    ensures
        r@ == wanted_webhook(result_view(parsed)),
{
    match parsed {
        Ok(u) => Webhook::Register(u),
        Err(e) => Webhook::Abort(e),
    }
}

/// The API server to talk to: a local one in local mode, else Telegram's.
pub fn choose_endpoint(config: &Config) -> (r: Endpoint)
    ensures
        config.local_mode ==> r@ == local_endpoint(
            parsed_url(api_address(config.telegram_api_server@)),
        ),
        !config.local_mode ==> r@ == EndpointView::Standard,
{
    if config.local_mode {
        let address: String = joined(config.telegram_api_server.as_str(), "/bot");
        endpoint_of(parse_url(address.as_str()))
    } else {
        Endpoint::Standard
    }
}

/// The webhook to register: the one asked for, in local mode only.
pub fn choose_webhook(config: &Config) -> (r: Webhook)
    ensures
        match config.telegram_webhook_url {
            Some(w) => if config.local_mode {
                r@ == wanted_webhook(parsed_url(w@))
            } else {
                r@ == WebhookView::Skip
            },
            None => r@ == WebhookView::Skip,
        },
{
    if config.local_mode {
        match &config.telegram_webhook_url {
            Some(w) => webhook_of(parse_url(w.as_str())),
            None => Webhook::Skip,
        }
    } else {
        Webhook::Skip
    }
}

/// The API lies below the server at `/bot`.
pub proof fn law_api_lies_below_the_server(server: Seq<char>)
    ensures
        api_address(server) == server + "/bot"@,
{
}

/// An address that parses is used as it parsed, and only such a one; the reason of one that does
/// not parse is handed on.
pub proof fn law_addresses_are_used_as_parsed(parsed: Result<Seq<char>, Seq<char>>)
    ensures
        parsed matches Ok(u) ==> local_endpoint(parsed) == EndpointView::Local(u) && wanted_webhook(
            parsed,
        ) == WebhookView::Register(u),
        parsed matches Err(e) ==> local_endpoint(parsed) == EndpointView::Invalid(e)
            && wanted_webhook(parsed) == WebhookView::Abort(e),
{
}

/// The views of these values tell their kind and their text.
pub proof fn law_address_views_are_complete(
    endpoint: Endpoint,
    webhook: Webhook,
    parsed: Result<String, String>,
)
    ensures
        match endpoint {
            Endpoint::Standard => endpoint@ is Standard,
            Endpoint::Local(u) => endpoint@ == EndpointView::Local(u@),
            Endpoint::Invalid(e) => endpoint@ == EndpointView::Invalid(e@),
        },
        match webhook {
            Webhook::Skip => webhook@ is Skip,
            Webhook::Register(u) => webhook@ == WebhookView::Register(u@),
            Webhook::Abort(e) => webhook@ == WebhookView::Abort(e@),
        },
        parsed matches Ok(u) ==> result_view(parsed) == Ok::<Seq<char>, Seq<char>>(u@),
        parsed matches Err(e) ==> result_view(parsed) == Err::<Seq<char>, Seq<char>>(e@),
{
}

} // verus!
