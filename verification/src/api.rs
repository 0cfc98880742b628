//! The HTTP-facing shape of the scrape service: response payloads and the
//! error-category → status-class mapping. The transport itself (routing,
//! serialization, listening) lives outside the library; everything decided
//! here — which status a category maps to and which message body it
//! carries — is verified.

use vstd::prelude::*;
use vstd::string::StringExecFns;

use crate::coordinator::ResolveError;
use crate::coordinator::ScrapeCoordinator;
use crate::store::Document;

verus! {

/// The body of a successful scrape response: the stored record minus its
/// creation time.
#[derive(Debug)]
pub struct ScrapeResponse {
    pub id: i64,
    pub url: String,
    pub content: String,
}

/// The response payload for a resolved document.
pub fn scrape_response_for(d: &Document) -> (r: ScrapeResponse)
    ensures
        r.id == d.id,
        r.url@ == d@.url,
        r.content@ == d@.content,
{
    ScrapeResponse { id: d.id, url: d.url.clone(), content: d.content.clone() }
}

/// The service's error categories, as its HTTP boundary reports them.
#[derive(Debug)]
pub enum AppError {
    Storage(String),
    Upstream(String),
    Internal(String),
    NotFound(String),
}

/// The message body for each category: storage and upstream failures carry
/// a prefixed detail, internal and not-found messages pass verbatim.
pub open spec fn app_error_message(e: AppError) -> Seq<char> {
    match e {
        AppError::Storage(d) => "Database operation failed: "@ + d@,
        AppError::Upstream(d) => "Scraping service failed: "@ + d@,
        AppError::Internal(m) => m@,
        AppError::NotFound(m) => m@,
    }
}

impl AppError {
    /// The HTTP status class for this category: 404 for an absent record,
    /// 500 for every failure.
    pub fn status_code(&self) -> (s: u16)
        ensures
            *self is NotFound ==> s == 404,
            !(*self is NotFound) ==> s == 500,
    {
        match self {
            AppError::NotFound(_) => 404,
            _ => 500,
        }
    }

    /// The message body sent alongside the status.
    pub fn message(&self) -> (m: String)
        ensures
            m@ == app_error_message(*self),
    {
        match self {
            AppError::Storage(d) => {
                let mut m = String::from_str("Database operation failed: ");
                m.append(d.as_str());
                m
            },
            AppError::Upstream(d) => {
                let mut m = String::from_str("Scraping service failed: ");
                m.append(d.as_str());
                m
            },
            AppError::Internal(m) => m.clone(),
            AppError::NotFound(m) => m.clone(),
        }
    }
}

/// The service category for a resolution failure.
pub fn app_error_of_resolve(e: ResolveError) -> (r: AppError)
    ensures
        e matches ResolveError::Upstream(d) ==> r == AppError::Upstream(d),
        e matches ResolveError::Storage(d) ==> r == AppError::Storage(d),
{
    match e {
        ResolveError::Upstream(d) => AppError::Upstream(d),
        ResolveError::Storage(d) => AppError::Storage(d),
    }
}

/// The response for one record looked up by identifier: the record's
/// payload, or the not-found category with its fixed message.
pub fn item_response(c: &ScrapeCoordinator, id: i64) -> (r: Result<ScrapeResponse, AppError>)
    requires
        c.wf(),
    ensures
        1 <= id <= c@.len() ==> (r matches Ok(resp) && resp.id == c@[id - 1].id
            && resp.url@ == c@[id - 1].url && resp.content@ == c@[id - 1].content),
        !(1 <= id <= c@.len()) ==> (r matches Err(e) && e matches AppError::NotFound(m) && m@
            == "Item not found in database"@),
{
    match c.item(id) {
        Some(d) => Ok(scrape_response_for(d)),
        None => Err(AppError::NotFound(String::from_str("Item not found in database"))),
    }
}

} // verus!
