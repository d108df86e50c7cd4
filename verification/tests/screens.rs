use linear_ui::columns::calculate_column_widths;
use linear_ui::geometry::{
    bottom_row, centered_rect, centre_columns, centre_rows, detail_constraints, detail_sections,
    header_constraints, header_sections, padded_area, screen_constraints, screen_sections,
    shadow_area, Area, Extent,
};
use linear_ui::model::{
    AppMode, EditField, GroupBy, Issue, IssueLabel, LabelConnection, Team, User, WorkflowState,
};
use linear_ui::overlays::{
    edit_field_title, edit_menu_lines, field_name, input_view, select_items, select_popup_height,
    select_title, InputView, ItemKind,
};
use linear_ui::panels::{
    description_or_placeholder, detail_shown, footer_help, header_info, issue_heading, mode_title,
    list_overlay_for, list_screen, overlay_for, ListOverlay, priority_name, priority_symbol, same_text, search_prompt,
    status_tone, ListScreen, Overlay, Tone,
};
use linear_ui::rows::{
    assignee_name, issue_row, issue_rows, label_count, labels_summary, link_count,
    metadata_segments, truncate_id_ok,
};

fn sample_issue() -> Issue {
    Issue {
        identifier: "ENG-1234".to_string(),
        title: "A rather long title that will not fit in a narrow terminal window".to_string(),
        description: Some("See https://example.com/a and https://example.com/b".to_string()),
        priority: Some(4),
        url: "https://linear.app/acme/issue/ENG-1234".to_string(),
        state: WorkflowState { name: "In Progress".to_string(), state_type: "started".to_string() },
        assignee: Some(User { name: "Jane Doe".to_string(), email: "jane@acme.io".to_string() }),
        team: Team { name: "Engineering".to_string() },
        labels: LabelConnection {
            nodes: vec![
                IssueLabel { name: "bug".to_string() },
                IssueLabel { name: "frontend".to_string() },
                IssueLabel { name: "p1".to_string() },
            ],
        },
    }
}

#[test]
fn header_texts() {
    assert_eq!(mode_title(AppMode::Normal), " Linear Interactive Mode ");
    assert_eq!(mode_title(AppMode::Links), " Navigate Links ");
    assert_eq!(header_info(42, GroupBy::Status), " Issues: 42 | Group by: Status ");
    assert_eq!(header_info(0, GroupBy::Project), " Issues: 0 | Group by: Project ");
}

#[test]
fn footer_texts() {
    assert_eq!(footer_help(AppMode::Filter, EditField::Title), "[Esc] Back  [Enter] Apply Filter");
    assert_eq!(
        footer_help(AppMode::EditField, EditField::Description),
        "[Enter] Save  [Esc] Cancel  [Ctrl+E] External Editor  [←/→] Move cursor"
    );
    assert_eq!(
        footer_help(AppMode::EditField, EditField::Status),
        "[Enter] Save  [Esc] Cancel  [←/→] Move cursor  Type to edit..."
    );
}

#[test]
fn priorities() {
    assert_eq!(priority_symbol(Some(4)), ("▲", Tone::Red));
    assert_eq!(priority_symbol(Some(3)), ("■", Tone::Orange));
    assert_eq!(priority_symbol(Some(0)), (" ", Tone::Gray));
    assert_eq!(priority_symbol(None), (" ", Tone::Gray));
    assert_eq!(priority_symbol(Some(9)), (" ", Tone::Gray));
    assert_eq!(priority_name(Some(1)), ("Low", Tone::Blue));
    assert_eq!(priority_name(Some(2)), ("Medium", Tone::Yellow));
    assert_eq!(priority_name(None), ("Unknown", Tone::Gray));
}

#[test]
fn status_tones() {
    assert_eq!(status_tone("backlog"), Tone::Gray);
    assert_eq!(status_tone("unstarted"), Tone::LightBlue);
    assert_eq!(status_tone("started"), Tone::Yellow);
    assert_eq!(status_tone("completed"), Tone::Green);
    assert_eq!(status_tone("canceled"), Tone::DarkGray);
    assert_eq!(status_tone("Started"), Tone::White);
    assert!(same_text("abc", "abc"));
    assert!(!same_text("abc", "abd"));
    assert!(!same_text("abc", "ab"));
}

#[test]
fn screen_decisions() {
    assert!(!detail_shown(AppMode::Normal));
    assert!(!detail_shown(AppMode::Search));
    assert!(detail_shown(AppMode::Comment));
    assert!(detail_shown(AppMode::Links));
    assert_eq!(overlay_for(AppMode::Edit), Overlay::EditMenu);
    assert_eq!(overlay_for(AppMode::ExternalEditor), Overlay::ExternalEditor);
    assert_eq!(overlay_for(AppMode::Detail), Overlay::NoOverlay);
    assert_eq!(search_prompt("login"), "Search: login_");
}

#[test]
fn detail_texts() {
    assert_eq!(issue_heading("ENG-1", "Crash"), "ENG-1 - Crash");
    assert_eq!(description_or_placeholder(&None), "No description");
    assert_eq!(description_or_placeholder(&Some("x".to_string())), "x");
}

#[test]
fn row_parts() {
    let issue = sample_issue();
    assert_eq!(labels_summary(&issue.labels.nodes), "bug, frontend");
    assert_eq!(labels_summary(&vec![IssueLabel { name: "x".to_string() }]), "x");
    assert_eq!(labels_summary(&Vec::new()), "");
    assert_eq!(label_count(0), "   ");
    assert_eq!(label_count(3), "[3]");
    assert_eq!(link_count(1), "   ");
    assert_eq!(link_count(0), "   ");
    assert_eq!(link_count(4), " 3 ");
    assert_eq!(assignee_name(&None), "Unassigned");
    assert_eq!(assignee_name(&issue.assignee), "jane");
}

#[test]
fn row_for_wide_list() {
    let issue = sample_issue();
    let c = calculate_column_widths(120);
    let row = issue_row(&issue, &c).unwrap();
    assert_eq!(row.id, "ENG-1234 ");
    assert_eq!(row.priority, " ▲ ");
    assert_eq!(row.priority_tone, Tone::Red);
    assert_eq!(row.title, format!("{}...", &issue.title[..58]));
    assert_eq!(row.status, "In Progress ");
    assert_eq!(row.status_tone, Tone::Yellow);
    assert_eq!(row.assignee, Some(format!("{:<12}", "jane")));
    assert_eq!(row.labels, Some(format!("{:<15}", "bug, frontend")));
    assert_eq!(row.links.as_deref(), Some(" 2 "));
}

#[test]
fn row_for_narrow_list() {
    let issue = sample_issue();
    let c = calculate_column_widths(60);
    let row = issue_row(&issue, &c).unwrap();
    assert_eq!(row.id, "1234   ");
    assert_eq!(row.title, format!("{}...", &issue.title[..35]));
    assert_eq!(row.status, "In Pr...");
    assert!(row.assignee.is_none() && row.labels.is_none() && row.links.is_none());
}

#[test]
fn row_with_label_count() {
    let issue = sample_issue();
    let c = calculate_column_widths(100);
    let row = issue_row(&issue, &c).unwrap();
    assert_eq!(row.labels.as_deref(), Some("[3]   "));
}

#[test]
fn row_refused_where_a_cut_would_split_a_character() {
    let mut issue = sample_issue();
    issue.title = "ééééééééééééééééééééééééééééééééééééééé".to_string();
    // Width 60 leaves 38 bytes for the title: a cut at 35 falls inside a character.
    assert!(issue_row(&issue, &calculate_column_widths(60)).is_none());
    // Too narrow for any cut of a long title.
    let mut other = sample_issue();
    other.title = "long enough title".to_string();
    assert!(issue_row(&other, &calculate_column_widths(23)).is_none());
    assert!(!truncate_id_ok("ENGINEERING-123", 2));
    assert!(truncate_id_ok("ENG-12", 2));
}

#[test]
fn edit_menu() {
    let lines = edit_menu_lines(2);
    let texts: Vec<&str> = lines.iter().map(|l| l.text.as_str()).collect();
    assert_eq!(
        texts,
        vec![
            "",
            "   Title",
            "   Description [Enter or E for editor]",
            " › Status [select]",
            "   Assignee [select]",
            "   Priority [select]",
            "",
            "Use ↑/↓ to select, Enter to edit",
        ]
    );
    assert_eq!(lines[3].kind, ItemKind::Highlighted);
    assert_eq!(lines[1].kind, ItemKind::Plain);
    assert_eq!(lines[7].kind, ItemKind::Hint);
    assert_eq!(field_name(EditField::Assignee), "Assignee");
    assert_eq!(edit_field_title(EditField::Title), "╭─ Edit Title ─╮");
}

#[test]
fn select_overlay() {
    let states = vec![
        WorkflowState { name: "Todo".to_string(), state_type: "unstarted".to_string() },
        WorkflowState { name: "In Progress".to_string(), state_type: "started".to_string() },
        WorkflowState { name: "Done".to_string(), state_type: "completed".to_string() },
    ];
    let items = select_items(EditField::Status, &states, Some("In Progress"), 0);
    let texts: Vec<&str> = items.iter().map(|l| l.text.as_str()).collect();
    assert_eq!(texts, vec![" Todo ", " In Progress (current) ", " Done "]);
    let kinds: Vec<ItemKind> = items.iter().map(|l| l.kind).collect();
    assert_eq!(kinds, vec![ItemKind::Highlighted, ItemKind::Current, ItemKind::Plain]);
    let none = select_items(EditField::Status, &Vec::new(), None, 0);
    assert_eq!(none.len(), 1);
    assert_eq!(none[0].text, " No workflow states available ");
    assert_eq!(none[0].kind, ItemKind::Problem);
    let prio = select_items(EditField::Priority, &states, None, 4);
    let texts: Vec<&str> = prio.iter().map(|l| l.text.as_str()).collect();
    assert_eq!(texts, vec![" None ", " Low ", " Medium ", " High ", " Urgent "]);
    assert_eq!(prio[4].kind, ItemKind::Highlighted);
    assert!(select_items(EditField::Title, &states, None, 0).is_empty());
    assert_eq!(select_popup_height(EditField::Status, 3), 7);
    assert_eq!(select_popup_height(EditField::Status, 30), 20);
    assert_eq!(select_popup_height(EditField::Priority, 30), 9);
    assert_eq!(select_popup_height(EditField::Title, 30), 10);
    assert_eq!(select_title(EditField::Priority), "╭─ Select Priority ─╮");
    assert_eq!(select_title(EditField::Description), "╭─ Select Option ─╮");
}

#[test]
fn input_split_at_cursor() {
    assert!(matches!(input_view("", 3), Some(InputView::Empty)));
    match input_view("héllo", 3) {
        Some(InputView::Typed { before, after }) => {
            assert_eq!(before, "hé");
            assert_eq!(after.as_deref(), Some("llo"));
        }
        _ => panic!("expected a split"),
    }
    match input_view("abc", 3) {
        Some(InputView::Typed { before, after }) => {
            assert_eq!(before, "abc");
            assert!(after.is_none());
        }
        _ => panic!("expected a split"),
    }
    assert!(input_view("héllo", 2).is_none());
    assert!(input_view("abc", 4).is_none());
}

#[test]
fn popup_geometry() {
    let screen = Area { x: 0, y: 0, width: 100, height: 50 };
    assert_eq!(centered_rect(60, 10, screen), Area { x: 20, y: 20, width: 60, height: 10 });
    let p = centered_rect(70, 10, Area { x: 0, y: 0, width: 80, height: 24 });
    assert_eq!((p.y, p.height), (7, 10));
    assert!(p.x > 0 && p.width > 0 && p.width < 80);
    assert_eq!(
        shadow_area(Area { x: 0, y: 5, width: 10, height: 4 }),
        Area { x: 0, y: 4, width: 12, height: 6 }
    );
    assert_eq!(
        padded_area(Area { x: 3, y: 4, width: 1, height: 10 }),
        Area { x: 4, y: 5, width: 0, height: 8 }
    );
    assert_eq!(
        bottom_row(Area { x: 2, y: 3, width: 9, height: 5 }),
        Area { x: 2, y: 7, width: 9, height: 1 }
    );
    assert_eq!(
        bottom_row(Area { x: 2, y: 3, width: 9, height: 0 }),
        Area { x: 2, y: 3, width: 9, height: 1 }
    );
}

#[test]
fn row_cells_line_up_with_columns() {
    let issue = sample_issue();
    for w in [60u16, 80, 100, 120, 160, 200] {
        let c = calculate_column_widths(w);
        let row = issue_row(&issue, &c).unwrap();
        assert_eq!(row.id.chars().count(), c.id);
        assert_eq!(row.priority.chars().count(), 3);
        assert_eq!(row.title.chars().count(), c.title);
        assert_eq!(row.status.chars().count(), c.status);
        if let Some(a) = &row.assignee {
            assert_eq!(a.chars().count(), c.assignee);
        }
        if let Some(l) = &row.labels {
            assert_eq!(l.chars().count(), c.labels);
        }
    }
}

#[test]
fn list_screen_choice() {
    assert_eq!(list_screen(true, true, 5), ListScreen::Loading);
    assert_eq!(list_screen(false, true, 5), ListScreen::Failed);
    assert_eq!(list_screen(false, false, 0), ListScreen::NoIssues);
    assert_eq!(list_screen(false, false, 3), ListScreen::Issues);
}

#[test]
fn metadata_line() {
    let issue = sample_issue();
    let segs = metadata_segments(&issue);
    let texts: Vec<&str> = segs.iter().map(|s| s.text.as_str()).collect();
    assert_eq!(
        texts,
        vec![
            "State: ", "In Progress", " | Assignee: ", "jane", " | Team: ", "Engineering",
            " | Priority: ", "Urgent", " | Labels: ", "bug", ", ", "frontend", ", ", "p1",
        ]
    );
    assert_eq!(segs[1].tone, Some(Tone::Yellow));
    assert!(segs[1].bold);
    assert_eq!(segs[7].tone, Some(Tone::Red));
    assert_eq!(segs[9].tone, Some(Tone::Magenta));
    assert_eq!(segs[0].tone, None);
    let mut bare = sample_issue();
    bare.labels.nodes.clear();
    bare.assignee = None;
    let segs = metadata_segments(&bare);
    assert_eq!(segs.len(), 8);
    assert_eq!(segs[3].text, "Unassigned");
}

#[test]
fn screen_layout_parts() {
    let screen = Area { x: 0, y: 0, width: 120, height: 40 };
    let parts = screen_sections(screen);
    assert_eq!(parts.len(), 3);
    assert_eq!(parts[0], Area { x: 0, y: 0, width: 120, height: 3 });
    assert_eq!(parts[2], Area { x: 0, y: 37, width: 120, height: 3 });
    let header = header_sections(parts[0]);
    assert_eq!(header[1].width, 30);
    assert_eq!(header[0].width, 90);
    let detail = detail_sections(parts[1], Some(5));
    assert_eq!(detail.len(), 4);
    assert_eq!(detail[3].height, 5);
    assert_eq!(detail_sections(parts[1], None).len(), 3);
    for p in detail.iter().chain(parts.iter()) {
        assert!(p.y >= screen.y && p.y + p.height <= screen.y + screen.height);
    }
}

#[test]
fn constraint_lists() {
    assert_eq!(screen_constraints(), vec![Extent::Length(3), Extent::Min(10), Extent::Length(3)]);
    assert_eq!(header_constraints(), vec![Extent::Min(20), Extent::Length(30)]);
    assert_eq!(
        detail_constraints(Some(7)),
        vec![Extent::Length(4), Extent::Length(3), Extent::Min(10), Extent::Length(7)]
    );
    assert_eq!(detail_constraints(None).len(), 3);
    assert_eq!(centre_rows(24, 10), vec![Extent::Length(7), Extent::Length(10), Extent::Length(7)]);
    assert_eq!(
        centre_columns(70),
        vec![Extent::Percentage(15), Extent::Percentage(70), Extent::Percentage(15)]
    );
}

#[test]
fn detail_bands_follow_one_another() {
    let area = Area { x: 1, y: 4, width: 100, height: 30 };
    let parts = detail_sections(area, Some(6));
    assert_eq!(parts[0], Area { x: 1, y: 4, width: 100, height: 4 });
    assert_eq!(parts[1], Area { x: 1, y: 8, width: 100, height: 3 });
    assert_eq!(parts[2], Area { x: 1, y: 11, width: 100, height: 17 });
    assert_eq!(parts[3], Area { x: 1, y: 28, width: 100, height: 6 });
    let parts = detail_sections(area, None);
    assert_eq!(parts[2], Area { x: 1, y: 11, width: 100, height: 23 });
}

#[test]
fn popups_keep_their_height_and_stay_inside() {
    for (h, area_h) in [(3u16, 3u16), (10, 24), (12, 40), (5, 6), (20, 21)] {
        let area = Area { x: 2, y: 1, width: 77, height: area_h };
        let p = centered_rect(60, h, area);
        assert_eq!(p.height, h);
        assert_eq!(p.y, area.y + (area_h - h) / 2);
        assert!(p.x >= area.x && p.x + p.width <= area.x + area.width);
    }
}

#[test]
fn list_rows_mark_the_selection() {
    let issues = vec![sample_issue(), sample_issue(), sample_issue()];
    let c = calculate_column_widths(120);
    let rows = issue_rows(&issues, &c, 1).unwrap();
    assert_eq!(rows.len(), 3);
    let selected: Vec<bool> = rows.iter().map(|r| r.selected).collect();
    assert_eq!(selected, vec![false, true, false]);
    assert_eq!(rows[2].row.id, "ENG-1234 ");
    assert!(issue_rows(&Vec::new(), &c, 0).unwrap().is_empty());
    let mut bad = sample_issue();
    bad.title = "é".repeat(40);
    let issues = vec![sample_issue(), bad];
    assert!(issue_rows(&issues, &calculate_column_widths(60), 0).is_none());
}

#[test]
fn settled_splits_over_many_sizes() {
    for area_h in 0u16..70 {
        for h in 0..=area_h {
            let area = Area { x: 0, y: 3, width: 50, height: area_h };
            let p = centered_rect(40, h, area);
            assert_eq!((p.y, p.height), (3 + (area_h - h) / 2, h), "{area_h} {h}");
        }
        if area_h >= 16 {
            let parts = screen_sections(Area { x: 0, y: 2, width: 80, height: area_h });
            assert_eq!((parts[1].y, parts[1].height), (5, area_h - 6));
            assert_eq!((parts[2].y, parts[2].height), (2 + area_h - 3, 3));
        }
        if area_h >= 21 {
            let parts = detail_sections(Area { x: 0, y: 0, width: 80, height: area_h }, Some(4));
            assert_eq!((parts[2].y, parts[2].height), (7, area_h - 11));
            assert_eq!((parts[3].y, parts[3].height), (area_h - 4, 4));
        }
    }
    for w in 50u16..200 {
        let parts = header_sections(Area { x: 1, y: 0, width: w, height: 3 });
        assert_eq!((parts[0].x, parts[0].width, parts[1].x, parts[1].width), (1, w - 30, 1 + w - 30, 30));
    }
}

#[test]
fn list_overlay_choice() {
    assert_eq!(list_overlay_for(AppMode::Search), ListOverlay::SearchBox);
    assert_eq!(list_overlay_for(AppMode::Comment), ListOverlay::CommentBox);
    assert_eq!(list_overlay_for(AppMode::Normal), ListOverlay::NoListOverlay);
    assert_eq!(list_overlay_for(AppMode::Filter), ListOverlay::NoListOverlay);
}

#[test]
fn popup_columns_over_many_widths() {
    for width in 0u16..220 {
        for percent in [50u16, 60, 70, 33, 100, 0, 1, 99] {
            let area = Area { x: 4, y: 0, width, height: 20 };
            let p = centered_rect(percent, 5, area);
            let side = ((100 - percent) / 2) as u32;
            let w = width as u32;
            assert_eq!(p.x as u32, 4 + (w * side + 50) / 100, "{width} {percent}");
            assert_eq!(
                (p.x + p.width) as u32,
                4 + (w * (side + percent as u32) + 50) / 100,
                "{width} {percent}"
            );
        }
    }
}
