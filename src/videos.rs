use crate::matches::MatchId;
use vstd::prelude::*;

verus! {

/// A video category.
#[derive(Clone, Copy, Debug, PartialEq, Eq, PartialOrd, Ord, Hash, Structural)]
pub enum VideoCategory {
    /// A replay.
    Replay,
    /// A highlight.
    Highlight,
    /// A bonus.
    Bonus,
}

/// The text of a video category in a query string.
pub open spec fn video_category_text(c: VideoCategory) -> Seq<char> {
    match c {
        VideoCategory::Replay => "replay"@,
        VideoCategory::Highlight => "hightlight"@,
        VideoCategory::Bonus => "bonus"@,
    }
}

impl VideoCategory {
    /// The category's text in a query string.
    pub fn to_string(&self) -> (r: String)
        ensures
            r@ == video_category_text(*self),
    {
        match self {
            VideoCategory::Replay => String::from_str("replay"),
            VideoCategory::Highlight => String::from_str("hightlight"),
            VideoCategory::Bonus => String::from_str("bonus"),
        }
    }
}

/// A video of a tournament.
#[derive(Clone, Debug, PartialEq, Eq, PartialOrd, Ord, Hash)]
pub struct Video {
    /// The video's name.
    pub name: String,
    /// The video's address.
    pub url: String,
    /// The video's language.
    pub language: String,
    /// The video's category.
    pub category: VideoCategory,
    /// The match the video shows, if any.
    pub match_id: Option<MatchId>,
}

/// A list of videos.
#[derive(Clone, Debug, PartialEq, Eq, PartialOrd, Ord, Hash)]
pub struct Videos(pub Vec<Video>);

} // verus!
