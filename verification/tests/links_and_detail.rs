use linear_ui::detail::{
    has_extra_links, link_lines, links_section_height, links_title, navigating_links,
    visible_link_range, visible_link_slots, LinkLineKind,
};
use linear_ui::links::{extract_links_from_text, get_issue_links, present_links, sort_unique};
use linear_ui::model::{AppMode, Issue, IssueLabel, LabelConnection, Team, User, WorkflowState};
use linear_ui::order::text_less;

fn issue(url: &str, description: Option<&str>) -> Issue {
    Issue {
        identifier: "ENG-42".to_string(),
        title: "Fix the login page".to_string(),
        description: description.map(|d| d.to_string()),
        priority: Some(2),
        url: url.to_string(),
        state: WorkflowState { name: "In Progress".to_string(), state_type: "started".to_string() },
        assignee: Some(User { name: "Jane Doe".to_string(), email: "jane@example.com".to_string() }),
        team: Team { name: "Engineering".to_string() },
        labels: LabelConnection {
            nodes: vec![IssueLabel { name: "bug".to_string() }, IssueLabel { name: "ui".to_string() }],
        },
    }
}

fn strings(v: &[&str]) -> Vec<String> {
    v.iter().map(|s| s.to_string()).collect()
}

#[test]
fn urls_then_markdown_targets() {
    let found = extract_links_from_text("See https://a.com/x and [doc](https://b.org/y).");
    assert_eq!(found, strings(&["https://a.com/x", "https://b.org/y).", "https://b.org/y"]));
}

#[test]
fn url_stops_at_forbidden_characters() {
    let found = extract_links_from_text("<https://a.com/p?q=1> \"http://b.io\" https://c.dev{x}");
    assert_eq!(found, strings(&["https://a.com/p?q=1", "http://b.io", "https://c.dev"]));
}

#[test]
fn markdown_link_without_url_scheme() {
    let found = extract_links_from_text("read [the guide](docs/guide.md) first");
    assert_eq!(found, strings(&["docs/guide.md"]));
}

#[test]
fn no_links_in_plain_text() {
    assert!(extract_links_from_text("nothing here, not even http:/ or [a](").is_empty());
    assert!(extract_links_from_text("").is_empty());
}

#[test]
fn present_links_skips_missing_groups() {
    let caps = vec![Some("a".to_string()), None, Some("b".to_string())];
    assert_eq!(present_links(&caps), strings(&["a", "b"]));
    assert!(present_links(&vec![None, None]).is_empty());
}

#[test]
fn sort_unique_orders_by_bytes_and_drops_repeats() {
    let out = sort_unique(strings(&["b", "a", "b", "c", "a"]));
    assert_eq!(out, strings(&["a", "b", "c"]));
    let out = sort_unique(strings(&["z", "é", "Z", "za", "z"]));
    assert_eq!(out, strings(&["Z", "z", "za", "é"]));
    assert!(sort_unique(Vec::new()).is_empty());
}

#[test]
fn sort_unique_is_std_sort_and_dedup() {
    let input = strings(&["https://x.org/2", "https://x.org/10", "http://x.org", "https://x.org/2", "ftp"]);
    let mut expected = input.clone();
    expected.sort();
    expected.dedup();
    assert_eq!(sort_unique(input.clone()), expected);
    // Sorting what is already sorted and deduplicated changes nothing.
    assert_eq!(sort_unique(expected.clone()), expected);
}

#[test]
fn text_less_is_byte_order() {
    assert!(text_less("a", "b"));
    assert!(text_less("ab", "abc"));
    assert!(!text_less("abc", "ab"));
    assert!(!text_less("a", "a"));
    assert!(text_less("Z", "a"));
    assert!(text_less("z", "é"));
    assert!(text_less("", "a"));
}

#[test]
fn issue_links_always_include_own_url() {
    let i = issue("https://linear.app/t/issue/ENG-42", None);
    assert_eq!(get_issue_links(&i), strings(&["https://linear.app/t/issue/ENG-42"]));
}

#[test]
fn issue_links_sorted_and_deduplicated() {
    let i = issue(
        "https://linear.app/t/issue/ENG-42",
        Some("Repro: https://example.com/a\nAlso https://example.com/a and [spec](https://docs.example.com)"),
    );
    assert_eq!(
        get_issue_links(&i),
        strings(&[
            "https://docs.example.com",
            "https://docs.example.com)",
            "https://example.com/a",
            "https://linear.app/t/issue/ENG-42",
        ])
    );
}

#[test]
fn issue_url_in_description_appears_once() {
    let i = issue("https://linear.app/x", Some("self link https://linear.app/x"));
    assert_eq!(get_issue_links(&i), strings(&["https://linear.app/x"]));
}

#[test]
fn links_box_heights() {
    assert_eq!(links_section_height(2), 5);
    assert_eq!(links_section_height(9), 12);
    assert_eq!(links_section_height(50), 12);
    assert_eq!(links_section_height(0), 3);
    assert_eq!(visible_link_slots(12), 8);
    assert_eq!(visible_link_slots(5), 1);
    assert_eq!(visible_link_slots(4), 0);
    assert_eq!(visible_link_slots(0), 0);
}

#[test]
fn link_window_cases() {
    assert_eq!(visible_link_range(3, 5, 1), (0, 3));
    assert_eq!(visible_link_range(20, 5, 0), (0, 5));
    assert_eq!(visible_link_range(20, 5, 10), (8, 13));
    assert_eq!(visible_link_range(20, 5, 19), (15, 20));
    assert_eq!(visible_link_range(20, 5, 18), (16, 20));
    assert_eq!(visible_link_range(20, 0, 4), (4, 4));
}

#[test]
fn link_window_always_shows_selection() {
    for count in 1..30usize {
        for max in 1..12usize {
            for sel in 0..count {
                let (start, end) = visible_link_range(count, max, sel);
                assert!(start <= sel && sel < end, "{count} {max} {sel}");
                assert!(end <= count && end - start <= max);
            }
        }
    }
}

#[test]
fn link_lines_with_scrolling() {
    let links: Vec<String> = (0..12).map(|i| format!("https://l.io/{i:02}")).collect();
    let lines = link_lines(&links, true, 11, 4).unwrap();
    let texts: Vec<&str> = lines.iter().map(|l| l.text.as_str()).collect();
    assert_eq!(
        texts,
        vec![
            "Navigate with j/k or ↑/↓, Enter to open, Esc to exit",
            "",
            "    ↑ 8 more",
            "[8] https://l.io/08",
            "[9] https://l.io/09",
            "    https://l.io/10",
            "    https://l.io/11",
        ]
    );
    assert_eq!(lines[6].kind, LinkLineKind::SelectedLink);
    assert_eq!(lines[3].kind, LinkLineKind::OtherLink);
    assert_eq!(lines[2].kind, LinkLineKind::ScrollNote);
}

#[test]
fn link_lines_numbering_and_more_below() {
    let links = strings(&["https://a.io", "https://b.io", "https://c.io"]);
    let lines = link_lines(&links, false, 2, 2).unwrap();
    let texts: Vec<&str> = lines.iter().map(|l| l.text.as_str()).collect();
    assert_eq!(
        texts,
        vec![
            "Press 'l' to navigate links, 'o' for Linear, or number keys:",
            "",
            "[o] Linear: https://a.io",
            "[1] https://b.io",
            "    ↓ 1 more",
        ]
    );
    assert_eq!(lines[2].kind, LinkLineKind::FirstLink);
}

#[test]
fn long_links_are_cut_to_sixty_bytes() {
    let long = format!("https://example.com/{}", "a".repeat(80));
    let lines = link_lines(&vec![long.clone()], false, 0, 8).unwrap();
    assert_eq!(lines[2].text, format!("[o] Linear: {}...", &long[..57]));
}

#[test]
fn link_lines_refuse_cut_inside_a_character() {
    let awkward = format!("https://example.com/{}é{}", "a".repeat(36), "b".repeat(10));
    assert!(link_lines(&vec![awkward], false, 0, 8).is_none());
}

#[test]
fn links_titles() {
    assert_eq!(links_title(12, 4, true, 11), " Links (12/12) ");
    assert_eq!(links_title(12, 4, false, 11), " Links ");
    assert_eq!(links_title(3, 4, true, 0), " Links ");
    assert_eq!(links_title(3, 4, true, usize::MAX), " Links ");
    assert!(has_extra_links(2));
    assert!(!has_extra_links(1));
    assert!(navigating_links(AppMode::Links));
    assert!(!navigating_links(AppMode::Detail));
}

#[test]
fn link_lines_only_need_shown_links_to_cut_cleanly() {
    let awkward = format!("https://example.com/{}é{}", "a".repeat(36), "b".repeat(10));
    let links = vec!["https://a.io".to_string(), "https://b.io".to_string(), awkward];
    // The awkward link is outside a two-line window: the box is drawn.
    let lines = link_lines(&links, false, 0, 2).unwrap();
    assert_eq!(lines.len(), 5);
    // Navigating to it brings it into the window, and it cannot be cut.
    assert!(link_lines(&links, true, 2, 2).is_none());
}
