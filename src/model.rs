//! The timeline records the relay works on, and the content resolved from them.
use vstd::prelude::*;

verus! {

/// The author of a post; absent fields take their defaults when rendered.
pub struct Account {
    pub display_name: Option<String>,
    pub username: Option<String>,
    pub avatar: Option<String>,
}

/// A media attachment of a post.
pub struct Attachment {
    pub url: Option<String>,
}

/// One option of a poll, with its vote count.
pub struct PollOption {
    pub title: Option<String>,
    pub votes_count: Option<u64>,
}

/// The content-bearing part of a timeline entry.
pub struct Status {
    pub content: Option<String>,
    pub url: Option<String>,
    pub account: Account,
    pub media_attachments: Vec<Attachment>,
    /// The poll's options, when the post carries a poll.
    pub poll: Option<Vec<PollOption>>,
}

/// A timeline entry: either a direct post, or a reblog wrapper around the
/// reblogged status.
pub struct Post {
    pub id: String,
    /// The names of the post's tags, as the source gives them.
    pub tags: Vec<String>,
    /// The entry's own fields.
    pub status: Status,
    /// The reblogged status, when the entry is a reblog.
    pub reblog: Option<Status>,
}

/// A post found by resolving a link through the source's search.
pub struct SearchHit {
    pub content: String,
    pub url: Option<String>,
    pub display_name: String,
    pub username: String,
    pub avatar: String,
    pub media_urls: Vec<String>,
}

/// The content that a payload is built from.
pub struct ResolvedContent {
    pub content_html: String,
    pub source_url: Option<String>,
    /// The rendered media block, empty when there is no media.
    pub media_links: String,
    /// The rendered poll summary, empty when there is no poll option.
    pub poll_info: String,
    pub author_header: String,
    pub author_username: String,
}

/// The mathematical value of a `ResolvedContent`.
pub struct ResolvedView {
    pub content_html: Seq<char>,
    pub source_url: Option<Seq<char>>,
    pub media_links: Seq<char>,
    pub poll_info: Seq<char>,
    pub author_header: Seq<char>,
    pub author_username: Seq<char>,
}

/// The view of an optional string.
pub open spec fn opt_view(o: Option<String>) -> Option<Seq<char>> {
    match o {
        Some(s) => Some(s@),
        None => None,
    }
}

impl View for ResolvedContent {
    type V = ResolvedView;

    open spec fn view(&self) -> ResolvedView {
        ResolvedView {
            content_html: self.content_html@,
            source_url: opt_view(self.source_url),
            media_links: self.media_links@,
            poll_info: self.poll_info@,
            author_header: self.author_header@,
            author_username: self.author_username@,
        }
    }
}

/// A copy of an optional string.
pub fn clone_opt(o: &Option<String>) -> (r: Option<String>)
    ensures
        opt_view(r) == opt_view(*o),
{
    match o {
        Some(s) => Some(s.clone()),
        None => None,
    }
}

} // verus!
