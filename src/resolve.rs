//! Content resolution: which status a post's content comes from, and how its
//! author, media and poll are rendered.
use vstd::prelude::*;
use vstd::string::*;
use crate::model::{clone_opt, opt_view, Attachment, PollOption, Post, ResolvedContent, ResolvedView, SearchHit, Status};
use crate::text::{contains_pair, decimal, has_numeric, has_pair, numeric_char, push_decimal};

verus! {

/// What `regex::Regex::find` gives for a pattern on a text: the text of the
/// leftmost-first match, or nothing (also for a pattern that does not compile).
pub uninterp spec fn regex_first_match(pattern: Seq<char>, text: Seq<char>) -> Option<Seq<char>>;

/// Relies on `regex::Regex::new` and `regex::Regex::find`: the first match of
/// `pattern` in `text`.
#[verifier::external_body]
fn first_match(pattern: &str, text: &str) -> (r: Option<String>)
    ensures
        opt_view(r) == regex_first_match(pattern@, text@),
{
    match regex::Regex::new(pattern) {
        Ok(re) => re.find(text).map(|m| m.as_str().to_string()),
        Err(_) => None,
    }
}

/// The pattern of a link in a post's body.
pub open spec fn link_pattern() -> Seq<char> {
    "https?://[^\\s<\"]+"@
}

/// A string, or `d` when it is absent.
pub open spec fn or_default(o: Option<String>, d: Seq<char>) -> Seq<char> {
    match o {
        Some(s) => s@,
        None => d,
    }
}

/// A link that points at another account's status: it has an account path
/// segment (`/@`) and a digit-like character (the status id).
pub open spec fn is_status_link(u: Seq<char>) -> bool {
    contains_pair(u, '/', '@') && exists|i: int| 0 <= i < u.len() && numeric_char(#[trigger] u[i])
}

/// The status link that a direct post's body starts its links with, if the
/// first link in the body is one. A reblog has none.
pub open spec fn status_link(post: Post) -> Option<Seq<char>> {
    if post.reblog is Some {
        None
    } else {
        match regex_first_match(link_pattern(), or_default(post.status.content, Seq::empty())) {
            Some(u) => if is_status_link(u) { Some(u) } else { None },
            None => None,
        }
    }
}

/// The rendered author header: a small inline avatar, then the bold display
/// name and the handle.
pub open spec fn header_text(avatar: Seq<char>, name: Seq<char>, handle: Seq<char>) -> Seq<char> {
    "<img src=\""@ + avatar
        + "\" width=\"32\" height=\"32\" style=\"border-radius:4px; vertical-align:middle; display:inline-block; margin:0 8px 0 0;\"><span style=\"vertical-align:middle;\">**"@
        + name + "** (@"@ + handle + ")</span>"@
}

/// The image markup for a URL.
pub open spec fn image(url: Seq<char>) -> Seq<char> {
    "![]("@ + url + ")"@
}

/// One image line per attachment that has a URL, in order, each ending in a newline.
pub open spec fn attachment_lines(atts: Seq<Attachment>) -> Seq<char>
    decreases atts.len(),
{
    if atts.len() == 0 {
        Seq::empty()
    } else {
        attachment_lines(atts.drop_last()) + match atts.last().url {
            Some(u) => image(u@) + "\n"@,
            None => Seq::empty(),
        }
    }
}

/// The image markup of each URL, in order, joined by newlines.
pub open spec fn joined_images(urls: Seq<String>) -> Seq<char>
    decreases urls.len(),
{
    if urls.len() == 0 {
        Seq::empty()
    } else if urls.len() == 1 {
        image(urls[0]@)
    } else {
        joined_images(urls.drop_last()) + "\n"@ + image(urls.last()@)
    }
}

/// The vote count of an option, zero when absent.
pub open spec fn votes_of(o: PollOption) -> nat {
    match o.votes_count {
        Some(v) => v as nat,
        None => 0,
    }
}

/// One bulleted line `title (N votes)` per poll option, in order, each
/// starting with a newline.
pub open spec fn poll_lines(opts: Seq<PollOption>) -> Seq<char>
    decreases opts.len(),
{
    if opts.len() == 0 {
        Seq::empty()
    } else {
        poll_lines(opts.drop_last()) + "\n* "@ + or_default(opts.last().title, Seq::empty())
            + " ("@ + decimal(votes_of(opts.last())) + " votes)"@
    }
}

/// The content resolved from a status's own fields.
pub open spec fn from_status(s: Status) -> ResolvedView {
    let handle = or_default(s.account.username, "unknown"@);
    ResolvedView {
        content_html: or_default(s.content, Seq::empty()),
        source_url: opt_view(s.url),
        media_links: attachment_lines(s.media_attachments@),
        poll_info: match s.poll {
            Some(opts) => poll_lines(opts@),
            None => Seq::empty(),
        },
        author_header: header_text(
            or_default(s.account.avatar, Seq::empty()),
            or_default(s.account.display_name, "Unknown"@),
            handle,
        ),
        author_username: handle,
    }
}

/// The content resolved from a search hit; a hit carries no poll.
pub open spec fn from_hit(h: SearchHit) -> ResolvedView {
    ResolvedView {
        content_html: h.content@,
        source_url: opt_view(h.url),
        media_links: joined_images(h.media_urls@),
        poll_info: Seq::empty(),
        author_header: header_text(h.avatar@, h.display_name@, h.username@),
        author_username: h.username@,
    }
}

/// The content of a post: a reblog's target; else, for a post whose body links
/// to a status, the search hit for that link when there is one; else the
/// post's own fields.
pub open spec fn resolved(post: Post, hit: Option<SearchHit>) -> ResolvedView {
    match post.reblog {
        Some(target) => from_status(target),
        None => {
            if status_link(post) is Some && hit is Some {
                from_hit(hit->0)
            } else {
                from_status(post.status)
            }
        },
    }
}

/// A reblog resolves to its target: the wrapper's own fields, and any search
/// hit, play no part.
pub proof fn lemma_reblog_resolves_target(post: Post, hit: Option<SearchHit>)
    requires
        post.reblog is Some,
    ensures
        resolved(post, hit) == from_status(post.reblog->0),
        status_link(post) is None,
{
}

/// A copy of `o`, or of `d` when it is absent.
pub fn string_or(o: &Option<String>, d: &str) -> (r: String)
    ensures
        r@ == or_default(*o, d@),
{
    match o {
        Some(s) => s.clone(),
        None => String::from_str(d),
    }
}

/// Whether `u` points at another account's status.
pub fn is_status_link_str(u: &str) -> (r: bool)
    ensures
        r == is_status_link(u@),
{
    has_pair(u, '/', '@') && has_numeric(u)
}

/// The status link that the search must resolve for `post`, if any.
pub fn find_status_link(post: &Post) -> (r: Option<String>)
    ensures
        opt_view(r) == status_link(*post),
{
    if post.reblog.is_some() {
        return None;
    }
    let body = string_or(&post.status.content, "");
    proof {
        assert(""@ =~= Seq::<char>::empty()) by {
            reveal_strlit("");
        }
    }
    match first_match("https?://[^\\s<\"]+", body.as_str()) {
        Some(u) => {
            if is_status_link_str(u.as_str()) {
                Some(u)
            } else {
                None
            }
        },
        None => None,
    }
}

/// Renders the author header.
pub fn render_header(avatar: &str, name: &str, handle: &str) -> (r: String)
    ensures
        r@ == header_text(avatar@, name@, handle@),
{
    let mut out = String::from_str("<img src=\"");
    out.append(avatar);
    out.append(
        "\" width=\"32\" height=\"32\" style=\"border-radius:4px; vertical-align:middle; display:inline-block; margin:0 8px 0 0;\"><span style=\"vertical-align:middle;\">**",
    );
    out.append(name);
    out.append("** (@");
    out.append(handle);
    out.append(")</span>");
    out
}

/// Renders one image line per attachment that has a URL.
pub fn render_attachments(atts: &Vec<Attachment>) -> (r: String)
    ensures
        r@ == attachment_lines(atts@),
{
    let mut out = String::new();
    let mut i: usize = 0;
    proof {
        assert(atts@.subrange(0, 0) =~= Seq::<Attachment>::empty());
    }
    while i < atts.len()
        invariant
            i <= atts@.len(),
            out@ == attachment_lines(atts@.subrange(0, i as int)),
        decreases atts.len() - i,
    {
        proof {
            assert(atts@.subrange(0, i + 1).drop_last() =~= atts@.subrange(0, i as int));
            assert(atts@.subrange(0, i + 1).last() == atts@[i as int]);
        }
        let ghost before = out@;
        match &atts[i].url {
            Some(u) => {
                out.append("![](");
                out.append(u.as_str());
                out.append(")");
                out.append("\n");
                assert(out@ =~= before + (image(u@) + "\n"@));
            },
            None => {
                assert(out@ =~= attachment_lines(atts@.subrange(0, i + 1)));
            },
        }
        i = i + 1;
    }
    proof {
        assert(atts@.subrange(0, atts@.len() as int) =~= atts@);
    }
    out
}

/// Renders the URLs as image markup joined by newlines.
pub fn render_images(urls: &Vec<String>) -> (r: String)
    ensures
        r@ == joined_images(urls@),
{
    let mut out = String::new();
    let mut i: usize = 0;
    proof {
        assert(urls@.subrange(0, 0) =~= Seq::<String>::empty());
    }
    while i < urls.len()
        invariant
            i <= urls@.len(),
            out@ == joined_images(urls@.subrange(0, i as int)),
        decreases urls.len() - i,
    {
        proof {
            assert(urls@.subrange(0, i + 1).drop_last() =~= urls@.subrange(0, i as int));
        }
        if i > 0 {
            out.append("\n");
        }
        out.append("![](");
        out.append(urls[i].as_str());
        out.append(")");
        proof {
            if i == 0 {
                assert(out@ =~= image(urls@[0]@));
            }
        }
        i = i + 1;
    }
    proof {
        assert(urls@.subrange(0, urls@.len() as int) =~= urls@);
    }
    out
}

/// Renders one bulleted line per poll option.
pub fn render_poll(opts: &Vec<PollOption>) -> (r: String)
    ensures
        r@ == poll_lines(opts@),
{
    let mut out = String::new();
    let mut i: usize = 0;
    proof {
        assert(opts@.subrange(0, 0) =~= Seq::<PollOption>::empty());
    }
    while i < opts.len()
        invariant
            i <= opts@.len(),
            out@ == poll_lines(opts@.subrange(0, i as int)),
        decreases opts.len() - i,
    {
        proof {
            assert(opts@.subrange(0, i + 1).drop_last() =~= opts@.subrange(0, i as int));
            assert(""@ =~= Seq::<char>::empty()) by {
                reveal_strlit("");
            }
        }
        let opt = &opts[i];
        out.append("\n* ");
        let title = string_or(&opt.title, "");
        out.append(title.as_str());
        out.append(" (");
        let votes: u64 = match opt.votes_count {
            Some(v) => v,
            None => 0,
        };
        push_decimal(&mut out, votes);
        out.append(" votes)");
        i = i + 1;
    }
    proof {
        assert(opts@.subrange(0, opts@.len() as int) =~= opts@);
    }
    out
}

/// Resolves the content of a status's own fields.
pub fn resolve_status(s: &Status) -> (r: ResolvedContent)
    ensures
        r@ == from_status(*s),
{
    let handle = string_or(&s.account.username, "unknown");
    let avatar = string_or(&s.account.avatar, "");
    let name = string_or(&s.account.display_name, "Unknown");
    proof {
        assert(""@ =~= Seq::<char>::empty()) by {
            reveal_strlit("");
        }
    }
    let poll_info = match &s.poll {
        Some(opts) => render_poll(opts),
        None => String::new(),
    };
    ResolvedContent {
        content_html: string_or(&s.content, ""),
        source_url: clone_opt(&s.url),
        media_links: render_attachments(&s.media_attachments),
        poll_info,
        author_header: render_header(avatar.as_str(), name.as_str(), handle.as_str()),
        author_username: handle,
    }
}

/// Resolves the content of a search hit.
pub fn resolve_hit(h: &SearchHit) -> (r: ResolvedContent)
    ensures
        r@ == from_hit(*h),
{
    ResolvedContent {
        content_html: h.content.clone(),
        source_url: clone_opt(&h.url),
        media_links: render_images(&h.media_urls),
        poll_info: String::new(),
        author_header: render_header(h.avatar.as_str(), h.display_name.as_str(), h.username.as_str()),
        author_username: h.username.clone(),
    }
}

/// Resolves the content of `post`. `hit` is the first status that the search
/// for `find_status_link(post)` returned, or nothing when the search failed,
/// returned nothing or was not made; it is used only when the post has a
/// status link.
pub fn resolve(post: &Post, hit: &Option<SearchHit>) -> (r: ResolvedContent)
    ensures
        r@ == resolved(*post, *hit),
{
    match &post.reblog {
        Some(target) => resolve_status(target),
        None => {
            let link = find_status_link(post);
            if link.is_some() {
                match hit {
                    Some(h) => {
                        return resolve_hit(h);
                    },
                    None => {},
                }
            }
            resolve_status(&post.status)
        },
    }
}

} // verus!
