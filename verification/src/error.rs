//! What can go wrong while a page is read.

use vstd::prelude::*;

verus! {

/// Why a page or a link could not be used.
#[derive(Debug, Clone, Copy, PartialEq, Eq, Structural)]
pub enum CrawlError {
    /// The page carries the service's error banner.
    Service,
    /// A selector was not understood.
    Selector,
    /// A pattern was not understood.
    Pattern,
    /// An answer was given that the handler had not asked for.
    OutOfTurn,
    /// A listed item has no title link.
    MissingLink,
    /// A link has no `href`.
    MissingReference,
    /// A link's `href` is no address.
    BadReference,
    /// A file item lacks the metadata spans that name its extension and version.
    MissingMetadata,
    /// The course page names no command node.
    MissingCommandNode,
    /// The forum page has no link to the full thread table.
    MissingThreadTable,
    /// A row of the thread table has no thread link.
    MissingThreadLink,
    /// A thread link carries no thread key.
    MissingThreadKey,
    /// The post count of a thread is no number.
    BadPostCount,
    /// A post lacks its title, byline, anchor or body.
    MissingPostPart,
    /// The player page holds no player initialisation.
    MissingPlayerScript,
    /// The player's data is not JSON.
    MalformedPlayerData,
    /// The player's data names no MP4 source.
    MissingVideoSource,
}

impl CrawlError {
    /// The failure in words.
    pub fn message(&self) -> (r: &'static str)
        ensures
            r@ == self.description(),
    {
        match self {
            CrawlError::Service => "ILIAS error",
            CrawlError::Selector => "selector not understood",
            CrawlError::Pattern => "pattern not understood",
            CrawlError::OutOfTurn => "answer without a question",
            CrawlError::MissingLink => "can't find link",
            CrawlError::MissingReference => "link without href",
            CrawlError::BadReference => "link href is no address",
            CrawlError::MissingMetadata => "file metadata not found",
            CrawlError::MissingCommandNode => "can't find cmdNode",
            CrawlError::MissingThreadTable =>
                "can't find forum thread count selector (empty forum?)",
            CrawlError::MissingThreadLink => "thread link not found",
            CrawlError::MissingThreadKey => "thr_pk not found for thread",
            CrawlError::BadPostCount => "parsing post count failed",
            CrawlError::MissingPostPart => "post is incomplete",
            CrawlError::MissingPlayerScript => "xoct player json not found",
            CrawlError::MalformedPlayerData => "invalid xoct player json",
            CrawlError::MissingVideoSource => "video source not found",
        }
    }

    pub open spec fn description(&self) -> Seq<char> {
        match self {
            CrawlError::Service => "ILIAS error"@,
            CrawlError::Selector => "selector not understood"@,
            CrawlError::Pattern => "pattern not understood"@,
            CrawlError::OutOfTurn => "answer without a question"@,
            CrawlError::MissingLink => "can't find link"@,
            CrawlError::MissingReference => "link without href"@,
            CrawlError::BadReference => "link href is no address"@,
            CrawlError::MissingMetadata => "file metadata not found"@,
            CrawlError::MissingCommandNode => "can't find cmdNode"@,
            CrawlError::MissingThreadTable =>
                "can't find forum thread count selector (empty forum?)"@,
            CrawlError::MissingThreadLink => "thread link not found"@,
            CrawlError::MissingThreadKey => "thr_pk not found for thread"@,
            CrawlError::BadPostCount => "parsing post count failed"@,
            CrawlError::MissingPostPart => "post is incomplete"@,
            CrawlError::MissingPlayerScript => "xoct player json not found"@,
            CrawlError::MalformedPlayerData => "invalid xoct player json"@,
            CrawlError::MissingVideoSource => "video source not found"@,
        }
    }
}

/// A string, or a failure, by its characters.
pub open spec fn text_result_view(r: Result<String, CrawlError>) -> Result<Seq<char>, CrawlError> {
    match r {
        Ok(s) => Ok(s@),
        Err(e) => Err(e),
    }
}

} // verus!
