use memos_relay::assemble::{assemble, assemble_markdown};
use memos_relay::dispatch::{
    after_delivery, build_payload, first_step, has_trigger_tag, is_trigger_name, mark_kind,
    next_candidate, MarkKind, Step,
};
use memos_relay::model::{Account, Attachment, PollOption, Post, ResolvedContent, SearchHit, Status};
use memos_relay::normalize::{normalize, unescape_markup};
use memos_relay::resolve::{
    find_status_link, is_status_link_str, render_attachments, render_header, render_images,
    render_poll, resolve,
};
use memos_relay::text::push_decimal;

fn account(name: &str, handle: &str) -> Account {
    Account {
        display_name: Some(name.to_string()),
        username: Some(handle.to_string()),
        avatar: Some(format!("https://a/{}.png", handle)),
    }
}

fn status(content: &str, handle: &str, media: &[&str]) -> Status {
    Status {
        content: Some(content.to_string()),
        url: Some(format!("https://src/@{}/1", handle)),
        account: account(handle, handle),
        media_attachments: media.iter().map(|u| Attachment { url: Some(u.to_string()) }).collect(),
        poll: None,
    }
}

fn direct(id: &str, tags: &[&str], st: Status) -> Post {
    Post {
        id: id.to_string(),
        tags: tags.iter().map(|t| t.to_string()).collect(),
        status: st,
        reblog: None,
    }
}

fn header_of(handle: &str, name: &str) -> String {
    format!(
        "<img src=\"https://a/{}.png\" width=\"32\" height=\"32\" style=\"border-radius:4px; vertical-align:middle; display:inline-block; margin:0 8px 0 0;\"><span style=\"vertical-align:middle;\">**{}** (@{})</span>",
        handle, name, handle
    )
}

#[test]
fn scenario_direct_post_with_image() {
    let post = direct("10", &["memos"], status("<p>Hello world</p>", "alice", &["https://img/1.png"]));
    let page = vec![post];
    assert_eq!(first_step(&page), Step::Process(0));
    let p = build_payload(&page[0], &None);
    assert!(p.starts_with(&format!("{}\n\n", header_of("alice", "alice"))));
    assert!(p.contains("Hello world"));
    assert!(p.contains("\n\n🖼️ **Media:**\n![](https://img/1.png)\n"));
    assert!(!p.contains("Poll Options"));
    assert!(p.contains("\n\n🔗 **Source:** https://src/@alice/1"));
    assert!(p.ends_with("#mastodon #mastodon2memos #alice"));
    assert_eq!(after_delivery(&page, 0, true), Step::Mark(0, MarkKind::Delete));
}

#[test]
fn scenario_reblog_resolves_target_and_unreblogs() {
    let mut wrapper = status("", "me", &[]);
    wrapper.content = None;
    let post = Post {
        id: "20".to_string(),
        tags: vec!["memos".to_string()],
        status: wrapper,
        reblog: Some(status("<p>Boosted text</p>", "bob", &["https://img/b.png"])),
    };
    let r = resolve(&post, &None);
    assert_eq!(r.author_username, "bob");
    assert_eq!(r.content_html, "<p>Boosted text</p>");
    assert_eq!(r.media_links, "![](https://img/b.png)\n");
    assert_eq!(r.author_header, header_of("bob", "bob"));
    assert_eq!(find_status_link(&post), None);
    let page = vec![post];
    assert_eq!(after_delivery(&page, 0, true), Step::Mark(0, MarkKind::Unreblog));
    assert_eq!(mark_kind(&page[0]), MarkKind::Unreblog);
}

fn carol_hit() -> SearchHit {
    SearchHit {
        content: "<p>Remote body</p>".to_string(),
        url: Some("https://instance/@user/12345".to_string()),
        display_name: "Carol".to_string(),
        username: "carol".to_string(),
        avatar: "https://a/carol.png".to_string(),
        media_urls: vec!["https://img/c1.png".to_string(), "https://img/c2.png".to_string()],
    }
}

#[test]
fn scenario_status_link_resolved_through_search() {
    let post = direct(
        "30",
        &["Memos"],
        status("<p>look https://instance/@user/12345</p>", "me", &[]),
    );
    assert_eq!(find_status_link(&post), Some("https://instance/@user/12345".to_string()));
    let r = resolve(&post, &Some(carol_hit()));
    assert_eq!(r.content_html, "<p>Remote body</p>");
    assert_eq!(r.author_username, "carol");
    assert_eq!(r.media_links, "![](https://img/c1.png)\n![](https://img/c2.png)");
    assert_eq!(r.poll_info, "");
    assert_eq!(r.author_header, header_of("carol", "Carol"));
    let p = build_payload(&post, &Some(carol_hit()));
    assert!(p.ends_with("#mastodon #mastodon2memos #carol"));
    let page = vec![post];
    assert_eq!(after_delivery(&page, 0, true), Step::Mark(0, MarkKind::Delete));
}

#[test]
fn status_link_search_failure_falls_back_to_own_fields() {
    let post = direct("31", &["memos"], status("<p>https://instance/@user/12345</p>", "me", &[]));
    let r = resolve(&post, &None);
    assert_eq!(r.author_username, "me");
    assert_eq!(r.content_html, "<p>https://instance/@user/12345</p>");
}

#[test]
fn hit_ignored_without_status_link() {
    let post = direct("32", &["memos"], status("<p>see https://example.org/page</p>", "me", &[]));
    assert_eq!(find_status_link(&post), None);
    let hit = SearchHit {
        content: "x".to_string(),
        url: None,
        display_name: "X".to_string(),
        username: "x".to_string(),
        avatar: String::new(),
        media_urls: vec![],
    };
    assert_eq!(resolve(&post, &Some(hit)).author_username, "me");
}

#[test]
fn scenario_failed_delivery_leaves_post_pending() {
    let page = vec![direct("40", &["memos"], status("<p>x</p>", "alice", &[]))];
    assert_eq!(first_step(&page), Step::Process(0));
    assert_eq!(after_delivery(&page, 0, false), Step::Sleep);
    assert_eq!(first_step(&page), Step::Process(0));
}

#[test]
fn one_mark_per_iteration() {
    let page = vec![
        direct("1", &["memos"], status("<p>a</p>", "a", &[])),
        direct("2", &["other"], status("<p>b</p>", "b", &[])),
        direct("3", &["MEMOS"], status("<p>c</p>", "c", &[])),
    ];
    assert_eq!(first_step(&page), Step::Process(0));
    assert_eq!(after_delivery(&page, 0, true), Step::Mark(0, MarkKind::Delete));
    assert_eq!(after_delivery(&page, 0, false), Step::Process(2));
    assert_eq!(after_delivery(&page, 2, false), Step::Sleep);
}

#[test]
fn posts_without_trigger_are_skipped() {
    let page = vec![
        direct("1", &[], status("<p>a</p>", "a", &[])),
        direct("2", &["memo", "memoss"], status("<p>b</p>", "b", &[])),
    ];
    assert_eq!(first_step(&page), Step::Sleep);
    assert_eq!(next_candidate(&page, 0), None);
    let empty: Vec<Post> = vec![];
    assert_eq!(first_step(&empty), Step::Sleep);
}

#[test]
fn trigger_tag_any_case() {
    assert!(has_trigger_tag(&direct("1", &["x", "MeMoS"], status("", "a", &[]))));
    assert!(!has_trigger_tag(&direct("1", &["x"], status("", "a", &[]))));
    assert!(is_trigger_name("memos"));
    assert!(!is_trigger_name("Memos"));
}

#[test]
fn unescape_fixed_set_only() {
    assert_eq!(unescape_markup("\\# \\[a\\] \\* \\_ \\> \\`"), "# [a] * _ > `");
    assert_eq!(unescape_markup("a\\nb \\\\ c\\d \\"), "a\\nb \\\\ c\\d \\");
    assert_eq!(unescape_markup("\\\\#"), "\\#");
    assert_eq!(unescape_markup(""), "");
}

#[test]
fn unescape_inverts_escape() {
    let x = "a#b[c]*_>`\\q\\";
    let mut e = String::new();
    for c in x.chars() {
        if "#[]*_>`".contains(c) {
            e.push('\\');
        }
        e.push(c);
    }
    assert_eq!(unescape_markup(&e), x);
}

#[test]
fn normalize_converts_markup() {
    let r = normalize("<p>#tag [x] <b>bold</b></p>");
    assert!(r.contains("#tag [x]"));
    assert!(r.contains("**bold**"));
    assert!(!r.contains('<'));
}

#[test]
fn poll_section_rendered() {
    let opts = vec![
        PollOption { title: Some("Yes".to_string()), votes_count: Some(3) },
        PollOption { title: Some("No".to_string()), votes_count: None },
        PollOption { title: None, votes_count: Some(1234) },
    ];
    assert_eq!(render_poll(&opts), "\n* Yes (3 votes)\n* No (0 votes)\n*  (1234 votes)");
    assert_eq!(render_poll(&vec![]), "");
    let mut st = status("<p>Q?</p>", "alice", &[]);
    st.poll = Some(opts);
    let post = direct("5", &["memos"], st);
    let p = build_payload(&post, &None);
    assert!(p.contains("\n\n📊 **Poll Options:**\n* Yes (3 votes)"));
    assert!(!p.contains("Media:"));
}

#[test]
fn defaults_for_missing_fields() {
    let st = Status {
        content: None,
        url: None,
        account: Account { display_name: None, username: None, avatar: None },
        media_attachments: vec![Attachment { url: None }, Attachment { url: Some("u".to_string()) }],
        poll: None,
    };
    let r = resolve(&direct("6", &["memos"], st), &None);
    assert_eq!(r.content_html, "");
    assert_eq!(r.source_url, None);
    assert_eq!(r.author_username, "unknown");
    assert!(r.author_header.ends_with("**Unknown** (@unknown)</span>"));
    assert!(r.author_header.starts_with("<img src=\"\" width=\"32\""));
    assert_eq!(r.media_links, "![](u)\n");
}

#[test]
fn assemble_exact_layout() {
    let r = ResolvedContent {
        content_html: String::new(),
        source_url: Some("https://s".to_string()),
        media_links: "M".to_string(),
        poll_info: "P".to_string(),
        author_header: "H".to_string(),
        author_username: "u.name".to_string(),
    };
    assert_eq!(
        assemble_markdown(&r, "B"),
        "H\n\nB\n\n📊 **Poll Options:**P\n\n🖼️ **Media:**\nM\n\n🔗 **Source:** https://s\n\n#mastodon #mastodon2memos #u.name"
    );
    let bare = ResolvedContent {
        content_html: String::new(),
        source_url: None,
        media_links: String::new(),
        poll_info: String::new(),
        author_header: "H".to_string(),
        author_username: "u".to_string(),
    };
    assert_eq!(assemble_markdown(&bare, "B"), "H\n\nB\n\n#mastodon #mastodon2memos #u");
    assert_eq!(assemble(&bare), "H\n\n\n\n#mastodon #mastodon2memos #u");
}

#[test]
fn renderers_exact() {
    assert_eq!(render_header("av", "N", "h"), "<img src=\"av\" width=\"32\" height=\"32\" style=\"border-radius:4px; vertical-align:middle; display:inline-block; margin:0 8px 0 0;\"><span style=\"vertical-align:middle;\">**N** (@h)</span>");
    assert_eq!(render_images(&vec!["a".to_string(), "b".to_string()]), "![](a)\n![](b)");
    assert_eq!(render_images(&vec![]), "");
    assert_eq!(render_attachments(&vec![Attachment { url: Some("a".to_string()) }]), "![](a)\n");
    let mut s = String::from("n=");
    push_decimal(&mut s, 0);
    push_decimal(&mut s, 1907);
    assert_eq!(s, "n=01907");
}

#[test]
fn status_link_heuristic() {
    assert!(is_status_link_str("https://instance/@user/12345"));
    assert!(!is_status_link_str("https://instance/@user/abc"));
    assert!(!is_status_link_str("https://instance/user/12345"));
    let post = direct("7", &["memos"], status("<p>https://x.org/a1 then https://i/@u/9</p>", "me", &[]));
    assert_eq!(find_status_link(&post), None);
}
