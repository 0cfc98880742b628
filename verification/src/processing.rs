//! The simulated fetch-and-convert path: given a URL, either a simulated
//! Markdown document stamped with the current time, or a processing error.
//!
//! The decision is purely textual: a URL that names "error" anywhere fails
//! with a simulated failure, a URL of nothing but blank characters is
//! rejected as empty, and anything else converts. Only the clock read is an
//! outside effect; the caller adds whatever waiting it wants to simulate.

use vstd::prelude::*;
use vstd::string::StringExecFns;

use crate::text::all_blank;
use crate::text::chars_of;
use crate::text::contains_chars;
use crate::text::contains_seq;
use crate::text::is_all_blank;

verus! {

/// Errors that can occur during the fetching or conversion process.
#[derive(Debug)]
pub enum ProcessingError {
    FetchError(String),
    ConversionError(String),
    MockError(String),
}

/// The display text for each processing error.
pub open spec fn processing_message(e: ProcessingError) -> Seq<char> {
    match e {
        ProcessingError::FetchError(d) => "Network request failed: "@ + d@,
        ProcessingError::ConversionError(d) => "Failed to convert content: "@ + d@,
        ProcessingError::MockError(d) => "Mock error: "@ + d@,
    }
}

impl ProcessingError {
    /// Render the error as its display text.
    pub fn message(&self) -> (m: String)
        ensures
            m@ == processing_message(*self),
    {
        match self {
            ProcessingError::FetchError(d) => {
                let mut m = String::from_str("Network request failed: ");
                m.append(d.as_str());
                m
            },
            ProcessingError::ConversionError(d) => {
                let mut m = String::from_str("Failed to convert content: ");
                m.append(d.as_str());
                m
            },
            ProcessingError::MockError(d) => {
                let mut m = String::from_str("Mock error: ");
                m.append(d.as_str());
                m
            },
        }
    }
}

/// The simulated Markdown document for `url`, stamped with `fetched_at`.
pub open spec fn mock_document_text(url: Seq<char>, fetched_at: Seq<char>) -> Seq<char> {
    "# Mock Result for: `"@ + url
        + "`\n\nThis is simulated Markdown content.\n\n- Fetched data would go here.\n- Conversion logic would be applied.\n\n*Timestamp:* `"@
        + fetched_at + "`"@
}

/// Whether the simulation rejects `url`: it names "error", or holds nothing
/// but blank characters (in particular, it is empty).
pub open spec fn mock_rejects(url: Seq<char>) -> bool {
    contains_seq(url, "error"@) || all_blank(url)
}

/// The conversion decision for `url`, with the time stamp handed in: the
/// whole simulation except the clock read.
pub fn convert_url(url: &String, fetched_at: &String) -> (r: Result<String, ProcessingError>)
    ensures
        r is Ok <==> !mock_rejects(url@),
        contains_seq(url@, "error"@) ==> (r matches Err(e) && e matches ProcessingError::MockError(
            m,
        ) && m@ == "Simulated failure to process URL."@),
        !contains_seq(url@, "error"@) && all_blank(url@) ==> (r matches Err(e)
            && e matches ProcessingError::MockError(m) && m@ == "URL cannot be empty."@),
        r matches Ok(doc) ==> doc@ == mock_document_text(url@, fetched_at@),
{
    let url_chars = chars_of(url.as_str());
    let needle = chars_of("error");
    if contains_chars(&url_chars, &needle) {
        return Err(
            ProcessingError::MockError(String::from_str("Simulated failure to process URL.")),
        );
    }
    if is_all_blank(&url_chars) {
        return Err(ProcessingError::MockError(String::from_str("URL cannot be empty.")));
    }
    let mut doc = String::from_str("# Mock Result for: `");
    doc.append(url.as_str());
    doc.append(
        "`\n\nThis is simulated Markdown content.\n\n- Fetched data would go here.\n- Conversion logic would be applied.\n\n*Timestamp:* `",
    );
    doc.append(fetched_at.as_str());
    doc.append("`");
    Ok(doc)
}

/// Simulate fetching `url` and converting it to Markdown: reject a URL that
/// names "error" or is blank, otherwise produce the simulated document
/// stamped with the clock's current reading.
pub fn fetch_and_convert(url: String) -> (r: Result<String, ProcessingError>)
    ensures
        r is Ok <==> !mock_rejects(url@),
        contains_seq(url@, "error"@) ==> (r matches Err(e) && e matches ProcessingError::MockError(
            m,
        ) && m@ == "Simulated failure to process URL."@),
        !contains_seq(url@, "error"@) && all_blank(url@) ==> (r matches Err(e)
            && e matches ProcessingError::MockError(m) && m@ == "URL cannot be empty."@),
        r matches Ok(doc) ==> exists|stamp: Seq<char>|
            doc@ == #[trigger] mock_document_text(url@, stamp),
{
    let stamp = crate::clock::utc_now_text();
    let r = convert_url(&url, &stamp);
    proof {
        if !mock_rejects(url@) {
            assert(r matches Ok(doc) && doc@ == mock_document_text(url@, stamp@));
        }
    }
    r
}

} // verus!
