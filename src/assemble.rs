//! Payload assembly: the note sent to the sink, built section by section.
use vstd::prelude::*;
use vstd::string::*;
use crate::model::{ResolvedContent, ResolvedView};
use crate::normalize::{markdown_of, normalize, unescaped};

verus! {

/// The heading of the poll section.
pub open spec fn poll_heading() -> Seq<char> {
    "\n\n📊 **Poll Options:**"@
}

/// The heading of the media section.
pub open spec fn media_heading() -> Seq<char> {
    "\n\n🖼️ **Media:**\n"@
}

/// The poll section: its heading and the summary, or nothing for an empty summary.
pub open spec fn poll_section(poll_info: Seq<char>) -> Seq<char> {
    if poll_info.len() == 0 {
        Seq::empty()
    } else {
        poll_heading() + poll_info
    }
}

/// The media section: its heading and the block, or nothing for an empty block.
pub open spec fn media_section(media_links: Seq<char>) -> Seq<char> {
    if media_links.len() == 0 {
        Seq::empty()
    } else {
        media_heading() + media_links
    }
}

/// The source line, when there is a permalink.
pub open spec fn source_section(url: Option<Seq<char>>) -> Seq<char> {
    match url {
        Some(u) => "\n\n🔗 **Source:** "@ + u,
        None => Seq::empty(),
    }
}

/// The trailing hashtags: the relay's two tags and the author's handle as is.
pub open spec fn tag_line(handle: Seq<char>) -> Seq<char> {
    "\n\n#mastodon #mastodon2memos #"@ + handle
}

/// The part of the payload before the optional sections.
pub open spec fn head_part(r: ResolvedView, md: Seq<char>) -> Seq<char> {
    r.author_header + "\n\n"@ + md
}

/// The payload for resolved content whose body has become the markup `md`.
pub open spec fn payload(r: ResolvedView, md: Seq<char>) -> Seq<char> {
    head_part(r, md) + poll_section(r.poll_info) + media_section(r.media_links)
        + source_section(r.source_url) + tag_line(r.author_username)
}

/// `t` occurs in `s` at position `k`.
pub open spec fn occurs_at(s: Seq<char>, k: int, t: Seq<char>) -> bool {
    0 <= k && k + t.len() <= s.len() && s.subrange(k, k + t.len()) == t
}

proof fn lemma_no_poll_heading(rest: Seq<char>, r: ResolvedView)
    requires
        rest == media_section(r.media_links) + source_section(r.source_url) + tag_line(r.author_username),
    ensures
        !occurs_at(rest, 0, poll_heading()),
{
    reveal_strlit("\n\n📊 **Poll Options:**");
    reveal_strlit("\n\n🖼️ **Media:**\n");
    reveal_strlit("\n\n🔗 **Source:** ");
    reveal_strlit("\n\n#mastodon #mastodon2memos #");
    if rest.len() >= poll_heading().len() {
        assert(rest.subrange(0, poll_heading().len() as int)[2] == rest[2]);
        assert(rest[2] != '📊');
    }
}

proof fn lemma_no_media_heading(rest: Seq<char>, r: ResolvedView)
    requires
        rest == source_section(r.source_url) + tag_line(r.author_username),
    ensures
        !occurs_at(rest, 0, media_heading()),
{
    reveal_strlit("\n\n🖼️ **Media:**\n");
    reveal_strlit("\n\n🔗 **Source:** ");
    reveal_strlit("\n\n#mastodon #mastodon2memos #");
    if rest.len() >= media_heading().len() {
        assert(rest.subrange(0, media_heading().len() as int)[2] == rest[2]);
        assert(rest[2] != '🖼');
    }
}

/// No empty section: right after the body stands the poll heading exactly when
/// the poll summary is non-empty, and right after the poll section stands the
/// media heading exactly when the media block is non-empty.
pub proof fn lemma_sections_iff_nonempty(r: ResolvedView, md: Seq<char>)
    ensures
        occurs_at(payload(r, md), head_part(r, md).len() as int, poll_heading())
            <==> r.poll_info.len() > 0,
        occurs_at(
            payload(r, md),
            (head_part(r, md).len() + poll_section(r.poll_info).len()) as int,
            media_heading(),
        ) <==> r.media_links.len() > 0,
{
    let p = payload(r, md);
    let h = head_part(r, md);
    let ps = poll_section(r.poll_info);
    let ms = media_section(r.media_links);
    let tail = source_section(r.source_url) + tag_line(r.author_username);
    let rest2 = ms + tail;
    let rest1 = ps + rest2;
    assert(p =~= h + rest1);
    assert(p =~= h + ps + rest2);
    let k1 = h.len() as int;
    let k2 = (h.len() + ps.len()) as int;
    if k1 + poll_heading().len() <= p.len() {
        assert(p.subrange(k1, k1 + poll_heading().len()) =~= rest1.subrange(0, poll_heading().len() as int));
    }
    if k2 + media_heading().len() <= p.len() {
        assert(p.subrange(k2, k2 + media_heading().len()) =~= rest2.subrange(0, media_heading().len() as int));
    }
    if r.poll_info.len() > 0 {
        assert(rest1.subrange(0, poll_heading().len() as int) =~= poll_heading());
    } else {
        assert(rest1 =~= ms + source_section(r.source_url) + tag_line(r.author_username));
        lemma_no_poll_heading(rest1, r);
    }
    if r.media_links.len() > 0 {
        assert(rest2.subrange(0, media_heading().len() as int) =~= media_heading());
    } else {
        assert(rest2 =~= tail);
        lemma_no_media_heading(rest2, r);
    }
}

/// Builds the payload from resolved content and its body already normalized
/// to `markdown`.
pub fn assemble_markdown(r: &ResolvedContent, markdown: &str) -> (p: String)
    ensures
        p@ == payload(r@, markdown@),
{
    let mut out = r.author_header.clone();
    out.append("\n\n");
    out.append(markdown);
    let ghost s0 = out@;
    if !r.poll_info.as_str().is_empty() {
        out.append("\n\n📊 **Poll Options:**");
        out.append(r.poll_info.as_str());
    }
    assert(out@ =~= s0 + poll_section(r.poll_info@));
    let ghost s1 = out@;
    if !r.media_links.as_str().is_empty() {
        out.append("\n\n🖼️ **Media:**\n");
        out.append(r.media_links.as_str());
    }
    assert(out@ =~= s1 + media_section(r.media_links@));
    let ghost s2 = out@;
    match &r.source_url {
        Some(u) => {
            out.append("\n\n🔗 **Source:** ");
            out.append(u.as_str());
        },
        None => {},
    }
    assert(out@ =~= s2 + source_section(r@.source_url));
    let ghost s3 = out@;
    out.append("\n\n#mastodon #mastodon2memos #");
    out.append(r.author_username.as_str());
    assert(out@ =~= s3 + tag_line(r.author_username@));
    out
}

/// Builds the payload from resolved content: normalizes its body, then
/// assembles the sections.
pub fn assemble(r: &ResolvedContent) -> (p: String)
    ensures
        p@ == payload(r@, unescaped(markdown_of(r.content_html@))),
{
    let md = normalize(r.content_html.as_str());
    assemble_markdown(r, md.as_str())
}

} // verus!
