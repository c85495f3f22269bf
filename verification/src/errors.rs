//! The error taxonomy: one transport-level variant set, extended per
//! entity with the failure kinds unique to that entity. Navigation
//! rejections are not errors; they surface as `None` / `false` results.

use vstd::prelude::*;
use vstd::string::StringExecFns;

verus! {

/// Transport-level failures. The payload of the first two variants is
/// the path or locator the failing request was addressed to.
#[derive(Debug, Clone, PartialEq, Eq)]
pub enum SurfError {
    RequestError(String),
    BodyParseError(String),
    ClientCreationError,
    UriParserError,
}

/// Failures while fetching a work's chapter list.
#[derive(Debug, Clone, PartialEq, Eq)]
pub enum LightnovelError {
    ScraperError(SurfError),
    GetIDError,
}

/// Failures while fetching one page of the catalog.
#[derive(Debug, Clone, PartialEq, Eq)]
pub enum ListError {
    ScraperError(SurfError),
}

/// Failures while fetching a chapter's paragraphs.
#[derive(Debug, Clone, PartialEq, Eq)]
pub enum ChapterError {
    ScraperError(SurfError),
}

impl SurfError {
    pub open spec fn message_spec(&self) -> Seq<char> {
        match self {
            SurfError::RequestError(_) => "transport error: the request could not be sent"@,
            SurfError::BodyParseError(_) => "transport error: the response body could not be read"@,
            SurfError::ClientCreationError => "transport error: the client could not be created"@,
            SurfError::UriParserError => "transport error: the base locator could not be parsed"@,
        }
    }

    pub fn message(&self) -> (m: String)
        ensures
            m@ == self.message_spec(),
    {
        match self {
            SurfError::RequestError(_) => String::from_str(
                "transport error: the request could not be sent",
            ),
            SurfError::BodyParseError(_) => String::from_str(
                "transport error: the response body could not be read",
            ),
            SurfError::ClientCreationError => String::from_str(
                "transport error: the client could not be created",
            ),
            SurfError::UriParserError => String::from_str(
                "transport error: the base locator could not be parsed",
            ),
        }
    }
}

impl LightnovelError {
    pub open spec fn message_spec(&self) -> Seq<char> {
        match self {
            LightnovelError::ScraperError(_) => "work error: the chapter list could not be fetched"@,
            LightnovelError::GetIDError => "work error: the work's identifier could not be found"@,
        }
    }

    pub fn message(&self) -> (m: String)
        ensures
            m@ == self.message_spec(),
    {
        match self {
            LightnovelError::ScraperError(_) => String::from_str(
                "work error: the chapter list could not be fetched",
            ),
            LightnovelError::GetIDError => String::from_str(
                "work error: the work's identifier could not be found",
            ),
        }
    }
}

impl ListError {
    pub open spec fn message_spec(&self) -> Seq<char> {
        match self {
            ListError::ScraperError(_) => "catalog error: the page could not be fetched"@,
        }
    }

    pub fn message(&self) -> (m: String)
        ensures
            m@ == self.message_spec(),
    {
        match self {
            ListError::ScraperError(_) => String::from_str(
                "catalog error: the page could not be fetched",
            ),
        }
    }
}

impl ChapterError {
    pub open spec fn message_spec(&self) -> Seq<char> {
        match self {
            ChapterError::ScraperError(_) => "chapter error: the paragraphs could not be fetched"@,
        }
    }

    pub fn message(&self) -> (m: String)
        ensures
            m@ == self.message_spec(),
    {
        match self {
            ChapterError::ScraperError(_) => String::from_str(
                "chapter error: the paragraphs could not be fetched",
            ),
        }
    }
}

impl From<SurfError> for LightnovelError {
    fn from(err: SurfError) -> (r: LightnovelError)
        ensures
            r == LightnovelError::ScraperError(err),
    {
        LightnovelError::ScraperError(err)
    }
}

impl vstd::std_specs::convert::FromSpecImpl<SurfError> for LightnovelError {
    open spec fn obeys_from_spec() -> bool {
        true
    }

    open spec fn from_spec(err: SurfError) -> LightnovelError {
        LightnovelError::ScraperError(err)
    }
}

impl From<SurfError> for ListError {
    fn from(err: SurfError) -> (r: ListError)
        ensures
            r == ListError::ScraperError(err),
    {
        ListError::ScraperError(err)
    }
}

impl vstd::std_specs::convert::FromSpecImpl<SurfError> for ListError {
    open spec fn obeys_from_spec() -> bool {
        true
    }

    open spec fn from_spec(err: SurfError) -> ListError {
        ListError::ScraperError(err)
    }
}

impl From<SurfError> for ChapterError {
    fn from(err: SurfError) -> (r: ChapterError)
        ensures
            r == ChapterError::ScraperError(err),
    {
        ChapterError::ScraperError(err)
    }
}

impl vstd::std_specs::convert::FromSpecImpl<SurfError> for ChapterError {
    open spec fn obeys_from_spec() -> bool {
        true
    }

    open spec fn from_spec(err: SurfError) -> ChapterError {
        ChapterError::ScraperError(err)
    }
}

} // verus!
