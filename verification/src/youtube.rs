use vstd::prelude::*;

pub mod channel;
pub mod date;
pub mod xml_helpers;

verus! {

/// Base URL of the YouTube site that serves the channel feeds.
pub const YOUTUBE_BASE_URL: &'static str = "https://www.youtube.com";

/// Errors raised while fetching or reading a YouTube feed.
#[derive(Debug, Clone, PartialEq, Eq)]
pub enum YouTubeError {
    ConnectionError,
    ParserError(String),
    SyntaxError(String),
}

/// The mathematical view of a [`YouTubeError`].
pub enum YouTubeErrorView {
    ConnectionError,
    ParserError(Seq<char>),
    SyntaxError(Seq<char>),
}

impl View for YouTubeError {
    type V = YouTubeErrorView;

    open spec fn view(&self) -> YouTubeErrorView {
        match self {
            YouTubeError::ConnectionError => YouTubeErrorView::ConnectionError,
            YouTubeError::ParserError(m) => YouTubeErrorView::ParserError(m@),
            YouTubeError::SyntaxError(m) => YouTubeErrorView::SyntaxError(m@),
        }
    }
}

/// The text a [`YouTubeError`] is displayed as.
pub open spec fn error_message(e: YouTubeErrorView) -> Seq<char> {
    match e {
        YouTubeErrorView::ConnectionError => "failed to connect to youtube"@,
        YouTubeErrorView::SyntaxError(reason) => "malformed RSS: "@ + reason,
        YouTubeErrorView::ParserError(reason) => "failed to parse: "@ + reason,
    }
}

impl YouTubeError {
    /// Renders the error for humans.
    pub fn message(&self) -> (res: String)
        ensures
            res@ == error_message(self@),
    {
        match self {
            YouTubeError::ConnectionError => "failed to connect to youtube".to_owned(),
            YouTubeError::SyntaxError(reason) => {
                let mut s = "malformed RSS: ".to_owned();
                s.append(reason.as_str());
                s
            },
            YouTubeError::ParserError(reason) => {
                let mut s = "failed to parse: ".to_owned();
                s.append(reason.as_str());
                s
            },
        }
    }
}

/// Result of the feed operations.
pub type YouTubeResult<T> = Result<T, YouTubeError>;

} // verus!
