//! What one fetched page turns into: the scraped content of a URL, and the
//! error taxonomy of the fetch stage.  The network transfer itself is the
//! caller's: the library receives the raw markup and produces title and
//! bounded body text from it.

use vstd::prelude::*;
use crate::extract::{
    extract_main_content, extracted_content, first_selector_parts, selector_text_parts,
    CONTENT_BUDGET,
};
use crate::text::{concat_parts, concat_strings, trim_text, trim_ws};

verus! {

/// The content scraped from one page.  `content` is bounded by the
/// extraction budget; `title` is absent when the page has no usable title.
pub struct ScrapedContent {
    pub url: String,
    pub title: Option<String>,
    pub content: String,
}

pub struct ScrapedContentView {
    pub url: Seq<char>,
    pub title: Option<Seq<char>>,
    pub content: Seq<char>,
}

impl View for ScrapedContent {
    type V = ScrapedContentView;

    open spec fn view(&self) -> ScrapedContentView {
        ScrapedContentView { url: self.url@, title: self.title.deep_view(), content: self.content@ }
    }
}

/// Why a backend call failed.  `Init` is fatal to a whole run; the others
/// concern one URL or one discovery call and never abort the batch.
pub enum FetchError {
    Init(String),
    Network(String),
    Timeout(String),
    Parse(String),
}

pub enum FetchErrorView {
    Init(Seq<char>),
    Network(Seq<char>),
    Timeout(Seq<char>),
    Parse(Seq<char>),
}

impl View for FetchError {
    type V = FetchErrorView;

    open spec fn view(&self) -> FetchErrorView {
        match self {
            FetchError::Init(m) => FetchErrorView::Init(m@),
            FetchError::Network(m) => FetchErrorView::Network(m@),
            FetchError::Timeout(m) => FetchErrorView::Timeout(m@),
            FetchError::Parse(m) => FetchErrorView::Parse(m@),
        }
    }
}

/// The readable description of a failure, by kind.
pub open spec fn error_text_view(e: FetchErrorView) -> Seq<char> {
    match e {
        FetchErrorView::Init(m) => "initialization failed: "@ + m,
        FetchErrorView::Network(m) => "network error: "@ + m,
        FetchErrorView::Timeout(m) => "request timed out: "@ + m,
        FetchErrorView::Parse(m) => "parse error: "@ + m,
    }
}

impl FetchError {
    pub open spec fn text_spec(&self) -> Seq<char> {
        error_text_view(self@)
    }

    /// The description stored with a failed record.
    pub fn text(&self) -> (r: String)
        ensures
            r@ == self.text_spec(),
    {
        let (prefix, detail): (&str, &String) = match self {
            FetchError::Init(m) => ("initialization failed: ", m),
            FetchError::Network(m) => ("network error: ", m),
            FetchError::Timeout(m) => ("request timed out: ", m),
            FetchError::Parse(m) => ("parse error: ", m),
        };
        let mut r = prefix.to_owned();
        r.append(detail.as_str());
        r
    }
}

/// The title a page carries: the trimmed text of its first `title` element
/// (its text nodes concatenated, then stripped of leading and trailing
/// white space), absent when there is none or it trims to nothing.
pub open spec fn page_title(html: Seq<char>) -> Option<Seq<char>> {
    match selector_text_parts(html, "title"@) {
        Some(parts) => {
            let t = trim_ws(concat_parts(parts));
            if t.len() > 0 {
                Some(t)
            } else {
                None
            }
        },
        None => None,
    }
}

/// Turn the raw markup fetched from `url` into its scraped content: the
/// page's title and its extracted main content, bounded by the budget.
pub fn page_to_content(url: &str, html: &str) -> (r: ScrapedContent)
    ensures
        r@.url == url@,
        r@.title == page_title(html@),
        r@.content == extracted_content(html@),
        r@.content.len() <= CONTENT_BUDGET as nat,
{
    let title: Option<String> = match first_selector_parts(html, "title") {
        Some(parts) => {
            let joined = concat_strings(&parts);
            let trimmed = trim_text(joined.as_str());
            if trimmed.as_str().is_empty() {
                None
            } else {
                Some(trimmed)
            }
        },
        None => None,
    };
    let content = extract_main_content(html);
    ScrapedContent { url: url.to_owned(), title, content }
}

} // verus!
