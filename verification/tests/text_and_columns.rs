use linear_ui::columns::{calculate_column_widths, list_header, ColumnWidths};
use linear_ui::model::User;
use linear_ui::text::{
    can_truncate, decimal_string, pad_right, parse_assignee_name, truncate, truncate_id,
};

fn user(name: &str, email: &str) -> User {
    User { name: name.to_string(), email: email.to_string() }
}

#[test]
fn truncate_keeps_short_text() {
    assert_eq!(truncate("short", 10), "short");
    assert_eq!(truncate("exact", 5), "exact");
}

#[test]
fn truncate_cuts_long_text_to_width() {
    let cut = truncate("hello world", 8);
    assert_eq!(cut, "hello...");
    assert_eq!(cut.len(), 8);
}

#[test]
fn truncate_counts_bytes_not_characters() {
    // "héllo" takes 6 bytes: it fits in 6, and is cut at one byte for 4.
    assert_eq!(truncate("héllo", 6), "héllo");
    assert_eq!(truncate("héllo", 4), "h...");
    assert_eq!(truncate("héllo", 4).len(), 4);
}

#[test]
fn truncate_width_three_leaves_only_dots() {
    assert_eq!(truncate("abcdef", 3), "...");
}

#[test]
fn can_truncate_refuses_cut_inside_a_character() {
    assert!(can_truncate("héllo", 4));
    assert!(!can_truncate("héllo", 5));
    assert!(!can_truncate("abcdef", 2));
    assert!(can_truncate("ab", 2));
    assert!(can_truncate("", 0));
}

#[test]
fn truncate_id_prefers_number_part() {
    assert_eq!(truncate_id("ENG-1234", 8), "ENG-1234");
    assert_eq!(truncate_id("ENG-1234", 7), "1234");
    assert_eq!(truncate_id("ENGINEERING-123456789", 6), "ENG...");
    assert_eq!(truncate_id("NODASHES", 7), "NODA...");
    assert_eq!(truncate_id("A-B-C", 3), "B-C");
}

#[test]
fn assignee_name_from_email_name_or_fallback() {
    assert_eq!(parse_assignee_name(&user("Jane Doe", "jane.doe@example.com")), "jane.doe");
    assert_eq!(parse_assignee_name(&user("Jane Doe", "noatsign")), "noatsign");
    assert_eq!(parse_assignee_name(&user("  Jane\tDoe", "@example.com")), "Jane");
    assert_eq!(parse_assignee_name(&user("Jane\u{3000}Doe", "")), "Jane");
    assert_eq!(parse_assignee_name(&user("   ", "")), "   ");
    assert_eq!(parse_assignee_name(&user("", "")), "");
}

#[test]
fn decimal_strings() {
    assert_eq!(decimal_string(0), "0");
    assert_eq!(decimal_string(7), "7");
    assert_eq!(decimal_string(10), "10");
    assert_eq!(decimal_string(1234), "1234");
    assert_eq!(decimal_string(usize::MAX), usize::MAX.to_string());
}

#[test]
fn pad_right_counts_characters() {
    assert_eq!(pad_right("ab", 4), "ab  ");
    assert_eq!(pad_right("é", 3), "é  ");
    assert_eq!(pad_right("abcdef", 3), "abcdef");
    assert_eq!(pad_right("x", 2), format!("{:<2}", "x"));
}

fn widths(w: u16) -> ColumnWidths {
    calculate_column_widths(w)
}

#[test]
fn ultra_narrow_columns() {
    let c = widths(60);
    assert_eq!((c.id, c.priority, c.title, c.status), (7, 3, 38, 8));
    assert!(!c.show_assignee && !c.show_labels && !c.show_links && !c.labels_as_count);
    assert_eq!((c.assignee, c.labels, c.links), (0, 0, 0));
    assert_eq!(widths(10).title, 0);
    assert_eq!(widths(79).title, 57);
}

#[test]
fn narrow_columns() {
    let c = widths(80);
    assert_eq!((c.id, c.title, c.status, c.assignee), (7, 47, 8, 10));
    assert!(c.show_assignee && !c.show_labels && !c.show_links);
    assert_eq!(widths(99).title, 66);
}

#[test]
fn medium_columns() {
    let c = widths(100);
    assert_eq!((c.id, c.title, c.status, c.assignee, c.labels), (8, 60, 10, 12, 6));
    assert!(c.show_assignee && c.show_labels && !c.show_links && c.labels_as_count);
}

#[test]
fn wide_columns() {
    let c = widths(120);
    assert_eq!((c.id, c.title, c.status, c.assignee, c.labels, c.links), (9, 61, 12, 12, 15, 3));
    assert!(c.show_links && !c.labels_as_count);
    assert_eq!(widths(159).title, 100);
}

#[test]
fn extra_wide_columns_cap_title() {
    let c = widths(160);
    assert_eq!((c.id, c.title, c.status, c.assignee, c.labels, c.links), (10, 80, 15, 15, 20, 4));
    assert_eq!(widths(155 + 0).title, 96);
    assert_eq!(widths(300).title, 80);
    assert_eq!(widths(u16::MAX).title, 80);
}

#[test]
fn columns_fit_and_nest_on_examples() {
    for w in [22u16, 50, 79, 80, 99, 100, 119, 120, 159, 160, 200, 1000] {
        let c = widths(w);
        let mut total = c.id + c.priority + c.title + c.status;
        if c.show_assignee { total += c.assignee; }
        if c.show_labels { total += c.labels; }
        if c.show_links { total += c.links; }
        assert!(total <= w as usize, "width {w}");
        assert!(!c.show_links || c.show_labels);
        assert!(!c.show_labels || c.show_assignee);
    }
    // Wider never shows fewer columns.
    let (a, b) = (widths(99), widths(100));
    assert!(b.show_assignee && b.show_labels && a.show_assignee);
}

#[test]
fn header_lines() {
    let narrow = list_header(&widths(60));
    assert_eq!(narrow, format!("{:<7} {:<2} {:<38} {:<8}", "ID", "P", "Title", "Status"));
    let medium = list_header(&widths(100));
    assert_eq!(
        medium,
        format!("{:<8} {:<2} {:<60} {:<10} {:<12} {:<6}", "ID", "P", "Title", "Status", "Assignee", "Lbl")
    );
    let wide = list_header(&widths(120));
    assert!(wide.ends_with(&format!(" {:<15} 🔗", "Labels")));
    assert_eq!(wide.chars().count(), 9 + 1 + 2 + 1 + 61 + 1 + 12 + 1 + 12 + 1 + 15 + 2);
}
