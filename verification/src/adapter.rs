//! The result adapter: normalizes the two upstream provider response shapes
//! into one domain result and classifies every failure into one of three
//! distinguishable classes.
//!
//! One provider replies with the stored record directly (`{id, url,
//! content}`); the other wraps its payload in an envelope (`{data, meta}`)
//! whose `data` may be absent even though the transport-level call
//! succeeded. An absent payload is a business failure (`Api`) carrying the
//! envelope's message, distinct from a transport failure and from a decode
//! failure.

use vstd::prelude::*;
use vstd::string::StringExecFns;

use crate::text::dec_digits;
use crate::text::u64_to_string;

verus! {

/// Which upstream provider the client is pointed at; a runtime choice.
#[derive(Debug, PartialEq, Eq, Structural, Clone, Copy)]
pub enum ScraperKind {
    Firecrowl,
    Llm,
}

impl ScraperKind {
    /// The provider's display name.
    pub fn label(&self) -> (r: String)
        ensures
            *self is Firecrowl ==> r@ == "Firecrowl"@,
            *self is Llm ==> r@ == "LLM"@,
    {
        match self {
            ScraperKind::Firecrowl => String::from_str("Firecrowl"),
            ScraperKind::Llm => String::from_str("LLM"),
        }
    }
}

/// The direct schema: the provider replies with the stored record itself.
pub struct DirectReply {
    pub id: i64,
    pub url: String,
    pub content: String,
}

/// The metadata half of the enveloped schema.
pub struct EnvelopeMeta {
    pub status: String,
    pub status_code: u16,
    pub message: Option<String>,
}

/// The payload half of the enveloped schema.
pub struct EnvelopePayload {
    pub url: String,
    pub summary: String,
}

/// The enveloped schema: a possibly absent payload wrapped in metadata.
pub struct EnvelopeReply {
    pub data: Option<EnvelopePayload>,
    pub meta: EnvelopeMeta,
}

/// A decoded provider response body, tagged by which schema it came in.
pub enum ProviderReply {
    Direct(DirectReply),
    Enveloped(EnvelopeReply),
}

/// Everything one fetch attempt can come back as, before adaptation.
pub enum FetchOutcome {
    /// The request never completed: connection or protocol failure.
    NetworkFailure(String),
    /// The server answered with a non-success HTTP status.
    HttpFailure { status: u16, status_text: String },
    /// A body arrived but could not be decoded as the selected schema.
    MalformedBody(String),
    /// A decoded response body.
    Body(ProviderReply),
}

/// The three failure classes the UI must be able to tell apart.
#[derive(Debug, PartialEq, Eq)]
pub enum AdapterError {
    Transport(String),
    Decode(String),
    Api(String),
}

/// One normalized domain result: the page and its converted document.
#[derive(Debug)]
pub struct DomainResult {
    pub url: String,
    pub document: String,
}

/// The mathematical value of a `DomainResult`.
pub ghost struct ResultView {
    pub url: Seq<char>,
    pub document: Seq<char>,
}

impl View for DomainResult {
    type V = ResultView;

    open spec fn view(&self) -> ResultView {
        ResultView { url: self.url@, document: self.document@ }
    }
}

impl DomainResult {
    /// A field-by-field copy carrying the same value.
    pub fn duplicate(&self) -> (d: DomainResult)
        ensures
            d == *self,
    {
        DomainResult { url: self.url.clone(), document: self.document.clone() }
    }
}

/// The message reported when the server answers with a non-success status.
pub open spec fn http_failure_message(status: nat, status_text: Seq<char>) -> Seq<char> {
    "API request failed with status "@ + dec_digits(status) + ": "@ + status_text
}

/// The notice used when an envelope reports success but carries no message.
pub open spec fn no_data_message() -> Seq<char> {
    "API returned success but no data"@
}

/// Whether adaptation of this outcome succeeds: only a decoded body whose
/// payload is present yields a domain result.
pub open spec fn adapts_ok(outcome: FetchOutcome) -> bool {
    match outcome {
        FetchOutcome::Body(ProviderReply::Direct(_)) => true,
        FetchOutcome::Body(ProviderReply::Enveloped(e)) => e.data is Some,
        _ => false,
    }
}

/// Normalize one fetch outcome into a domain result or a classified error.
pub fn adapt(outcome: FetchOutcome) -> (r: Result<DomainResult, AdapterError>)
    ensures
        r is Ok <==> adapts_ok(outcome),
        outcome matches FetchOutcome::NetworkFailure(d) ==> r == Err::<
            DomainResult,
            AdapterError,
        >(AdapterError::Transport(d)),
        outcome matches FetchOutcome::HttpFailure { status, status_text } ==> (r matches Err(e)
            && e matches AdapterError::Api(m)
            && m@ == http_failure_message(status as nat, status_text@)),
        outcome matches FetchOutcome::MalformedBody(d) ==> r == Err::<
            DomainResult,
            AdapterError,
        >(AdapterError::Decode(d)),
        outcome matches FetchOutcome::Body(ProviderReply::Direct(d)) ==> (r matches Ok(res)
            && res.url == d.url && res.document == d.content),
        outcome matches FetchOutcome::Body(ProviderReply::Enveloped(e)) ==> (e.data matches Some(
            p,
        ) ==> (r matches Ok(res) && res.url == p.url && res.document == p.summary)),
        outcome matches FetchOutcome::Body(ProviderReply::Enveloped(e)) ==> (e.data is None ==> (
        r matches Err(err) && err matches AdapterError::Api(m)
            && (e.meta.message matches Some(note) ==> m == note)
            && (e.meta.message is None ==> m@ == no_data_message()))),
{
    match outcome {
        FetchOutcome::NetworkFailure(d) => Err(AdapterError::Transport(d)),
        FetchOutcome::HttpFailure { status, status_text } => {
            let mut m = String::from_str("API request failed with status ");
            let digits = u64_to_string(status as u64);
            m.append(digits.as_str());
            m.append(": ");
            m.append(status_text.as_str());
            Err(AdapterError::Api(m))
        },
        FetchOutcome::MalformedBody(d) => Err(AdapterError::Decode(d)),
        FetchOutcome::Body(ProviderReply::Direct(d)) => Ok(
            DomainResult { url: d.url, document: d.content },
        ),
        FetchOutcome::Body(ProviderReply::Enveloped(e)) => {
            match e.data {
                Some(p) => Ok(DomainResult { url: p.url, document: p.summary }),
                None => {
                    match e.meta.message {
                        Some(note) => Err(AdapterError::Api(note)),
                        None => Err(
                            AdapterError::Api(String::from_str("API returned success but no data")),
                        ),
                    }
                },
            }
        },
    }
}

/// The display text for each failure class, as the UI shows it.
pub open spec fn adapter_message(e: AdapterError) -> Seq<char> {
    match e {
        AdapterError::Transport(d) => "HTTP request failed: "@ + d@,
        AdapterError::Decode(d) => "Failed to parse JSON response: "@ + d@,
        AdapterError::Api(d) => "API Error: "@ + d@,
    }
}

impl AdapterError {
    /// Render the failure as its display text.
    pub fn message(&self) -> (m: String)
        ensures
            m@ == adapter_message(*self),
    {
        match self {
            AdapterError::Transport(d) => {
                let mut m = String::from_str("HTTP request failed: ");
                m.append(d.as_str());
                m
            },
            AdapterError::Decode(d) => {
                let mut m = String::from_str("Failed to parse JSON response: ");
                m.append(d.as_str());
                m
            },
            AdapterError::Api(d) => {
                let mut m = String::from_str("API Error: ");
                m.append(d.as_str());
                m
            },
        }
    }
}

} // verus!
