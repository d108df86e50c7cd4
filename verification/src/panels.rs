use vstd::prelude::*;
use vstd::string::*;

use crate::model::{AppMode, EditField, GroupBy};
use crate::text::{decimal, decimal_string};

verus! {

/// The colours the screens use, by meaning.
#[derive(Clone, Copy, Debug, PartialEq, Eq, Structural)]
pub enum Tone {
    Gray,
    DarkGray,
    White,
    Blue,
    LightBlue,
    Cyan,
    Green,
    LightGreen,
    Yellow,
    Orange,
    Red,
    Magenta,
}

/// Whether two texts are equal.
pub fn same_text(a: &str, b: &str) -> (res: bool)
    ensures
        res == (a@ == b@),
{
    let n = a.unicode_len();
    if n != b.unicode_len() {
        return false;
    }
    let mut i: usize = 0;
    while i < n
        invariant
            n == a@.len() == b@.len(),
            i <= n,
            forall|j: int| 0 <= j < i ==> a@[j] == b@[j],
        decreases n - i,
    {
        if a.get_char(i) != b.get_char(i) {
            return false;
        }
        i = i + 1;
    }
    assert(a@ =~= b@);
    true
}

/// The title of the header in `mode`.
pub open spec fn mode_title_text(mode: AppMode) -> Seq<char> {
    match mode {
        AppMode::Normal => " Linear Interactive Mode "@,
        AppMode::Search => " Search Mode "@,
        AppMode::Filter => " Filter Mode "@,
        AppMode::Detail => " Issue Detail "@,
        AppMode::Comment => " Add Comment "@,
        AppMode::Edit => " Edit Issue "@,
        AppMode::EditField => " Edit Field "@,
        AppMode::SelectOption => " Select Option "@,
        AppMode::ExternalEditor => " External Editor "@,
        AppMode::Links => " Navigate Links "@,
    }
}

/// The title of the header in `mode`.
pub fn mode_title(mode: AppMode) -> (res: &'static str)
    ensures
        res@ == mode_title_text(mode),
{
    match mode {
        AppMode::Normal => " Linear Interactive Mode ",
        AppMode::Search => " Search Mode ",
        AppMode::Filter => " Filter Mode ",
        AppMode::Detail => " Issue Detail ",
        AppMode::Comment => " Add Comment ",
        AppMode::Edit => " Edit Issue ",
        AppMode::EditField => " Edit Field ",
        AppMode::SelectOption => " Select Option ",
        AppMode::ExternalEditor => " External Editor ",
        AppMode::Links => " Navigate Links ",
    }
}

/// The name of a grouping.
pub open spec fn group_name_text(group_by: GroupBy) -> Seq<char> {
    match group_by {
        GroupBy::Status => "Status"@,
        GroupBy::Project => "Project"@,
    }
}

/// The right part of the header: how many issues are listed and how they are grouped.
pub open spec fn header_info_text(count: nat, group_by: GroupBy) -> Seq<char> {
    " Issues: "@ + decimal(count) + " | Group by: "@ + group_name_text(group_by) + " "@
}

/// The right part of the header.
pub fn header_info(count: usize, group_by: GroupBy) -> (res: String)
    ensures
        res@ == header_info_text(count as nat, group_by),
{
    let mut t = " Issues: ".to_owned();
    t.append(decimal_string(count).as_str());
    t.append(" | Group by: ");
    match group_by {
        GroupBy::Status => t.append("Status"),
        GroupBy::Project => t.append("Project"),
    }
    t.append(" ");
    t
}

/// The key help of the footer in `mode`; in `EditField` mode it depends on
/// whether the description (which has an external editor) is edited.
pub open spec fn footer_help_text(mode: AppMode, field: EditField) -> Seq<char> {
    match mode {
        AppMode::Normal => "[q] Quit  [j/k] Nav  [Enter] View  [e] Edit  [o] Open  [/] Search  [g] Group  [r] Refresh"@,
        AppMode::Search => "[Esc] Cancel  [Enter] Apply  Type to search..."@,
        AppMode::Filter => "[Esc] Back  [Enter] Apply Filter"@,
        AppMode::Detail => "[Esc/q] Back  [e] Edit  [c] Comment  [o] Open Linear  [l] Navigate links  [0-9] Quick open"@,
        AppMode::Comment => "[Esc] Cancel  [Enter] Submit  Type your comment..."@,
        AppMode::Edit => "[↑/↓] Select Field  [Enter] Edit  [Esc] Cancel"@,
        AppMode::EditField => if field == EditField::Description {
            "[Enter] Save  [Esc] Cancel  [Ctrl+E] External Editor  [←/→] Move cursor"@
        } else {
            "[Enter] Save  [Esc] Cancel  [←/→] Move cursor  Type to edit..."@
        },
        AppMode::SelectOption => "[↑/↓] Select  [Enter] Confirm  [Esc/q] Cancel"@,
        AppMode::ExternalEditor => "Launching external editor..."@,
        AppMode::Links => "[j/k or ↑/↓] Navigate  [Enter/o] Open link  [Esc/q] Back"@,
    }
}

/// The key help of the footer.
pub fn footer_help(mode: AppMode, field: EditField) -> (res: &'static str)
    ensures
        res@ == footer_help_text(mode, field),
{
    match mode {
        AppMode::Normal => "[q] Quit  [j/k] Nav  [Enter] View  [e] Edit  [o] Open  [/] Search  [g] Group  [r] Refresh",
        AppMode::Search => "[Esc] Cancel  [Enter] Apply  Type to search...",
        AppMode::Filter => "[Esc] Back  [Enter] Apply Filter",
        AppMode::Detail => "[Esc/q] Back  [e] Edit  [c] Comment  [o] Open Linear  [l] Navigate links  [0-9] Quick open",
        AppMode::Comment => "[Esc] Cancel  [Enter] Submit  Type your comment...",
        AppMode::Edit => "[↑/↓] Select Field  [Enter] Edit  [Esc] Cancel",
        AppMode::EditField => {
            if field == EditField::Description {
                "[Enter] Save  [Esc] Cancel  [Ctrl+E] External Editor  [←/→] Move cursor"
            } else {
                "[Enter] Save  [Esc] Cancel  [←/→] Move cursor  Type to edit..."
            }
        },
        AppMode::SelectOption => "[↑/↓] Select  [Enter] Confirm  [Esc/q] Cancel",
        AppMode::ExternalEditor => "Launching external editor...",
        AppMode::Links => "[j/k or ↑/↓] Navigate  [Enter/o] Open link  [Esc/q] Back",
    }
}

/// The symbol and colour of a priority in the issue list.
pub open spec fn priority_mark(priority: Option<i32>) -> (Seq<char>, Tone) {
    match priority {
        Some(0) => (" "@, Tone::Gray),
        Some(1) => ("◦"@, Tone::Blue),
        Some(2) => ("•"@, Tone::Yellow),
        Some(3) => ("■"@, Tone::Orange),
        Some(4) => ("▲"@, Tone::Red),
        _ => (" "@, Tone::Gray),
    }
}

/// The symbol and colour of a priority in the issue list.
pub fn priority_symbol(priority: Option<i32>) -> (res: (&'static str, Tone))
    ensures
        res.0@ == priority_mark(priority).0,
        res.1 == priority_mark(priority).1,
{
    match priority {
        Some(0) => (" ", Tone::Gray),
        Some(1) => ("◦", Tone::Blue),
        Some(2) => ("•", Tone::Yellow),
        Some(3) => ("■", Tone::Orange),
        Some(4) => ("▲", Tone::Red),
        _ => (" ", Tone::Gray),
    }
}

/// The name and colour of a priority in the detail view.
pub open spec fn priority_label(priority: Option<i32>) -> (Seq<char>, Tone) {
    match priority {
        Some(0) => ("None"@, Tone::Gray),
        Some(1) => ("Low"@, Tone::Blue),
        Some(2) => ("Medium"@, Tone::Yellow),
        Some(3) => ("High"@, Tone::Orange),
        Some(4) => ("Urgent"@, Tone::Red),
        _ => ("Unknown"@, Tone::Gray),
    }
}

/// The detail view names the priorities 0 to 4 None, Low, Medium, High and
/// Urgent, in gray, blue, yellow, orange and red: different priorities get
/// different names and colours, and anything else is "Unknown" in gray.
pub proof fn lemma_priority_names(p: i32, q: i32)
    ensures
        priority_label(Some(0)) == ("None"@, Tone::Gray),
        priority_label(Some(1)) == ("Low"@, Tone::Blue),
        priority_label(Some(2)) == ("Medium"@, Tone::Yellow),
        priority_label(Some(3)) == ("High"@, Tone::Orange),
        priority_label(Some(4)) == ("Urgent"@, Tone::Red),
        !(0 <= p <= 4) ==> priority_label(Some(p)) == ("Unknown"@, Tone::Gray),
        priority_label(None) == ("Unknown"@, Tone::Gray),
        0 <= p <= 4 && 0 <= q <= 4 && p != q ==> priority_label(Some(p)).0 != priority_label(
            Some(q),
        ).0 && priority_label(Some(p)).1 != priority_label(Some(q)).1,
{
    reveal_strlit("None");
    reveal_strlit("Low");
    reveal_strlit("Medium");
    reveal_strlit("High");
    reveal_strlit("Urgent");
    assert("None"@[0] != "Low"@[0]);
    assert("None"@[0] != "High"@[0]);
    assert("Medium"@[0] != "Urgent"@[0]);
}

/// The list marks priorities 1 to 4 with four different symbols in blue,
/// yellow, orange and red; priority 0, no priority, and anything else get a
/// blank in gray.
pub proof fn lemma_priority_marks(p: i32, q: i32)
    ensures
        priority_mark(Some(1)) == ("◦"@, Tone::Blue),
        priority_mark(Some(2)) == ("•"@, Tone::Yellow),
        priority_mark(Some(3)) == ("■"@, Tone::Orange),
        priority_mark(Some(4)) == ("▲"@, Tone::Red),
        !(1 <= p <= 4) ==> priority_mark(Some(p)) == (" "@, Tone::Gray),
        priority_mark(None) == (" "@, Tone::Gray),
        1 <= p <= 4 && 1 <= q <= 4 && p != q ==> priority_mark(Some(p)).0 != priority_mark(
            Some(q),
        ).0 && priority_mark(Some(p)).1 != priority_mark(Some(q)).1,
        1 <= p <= 4 ==> priority_mark(Some(p)).0 != " "@,
{
    reveal_strlit("◦");
    reveal_strlit("•");
    reveal_strlit("■");
    reveal_strlit("▲");
    reveal_strlit(" ");
    assert("◦"@[0] != "•"@[0]);
    assert("◦"@[0] != "■"@[0]);
    assert("◦"@[0] != "▲"@[0]);
    assert("•"@[0] != "■"@[0]);
    assert("•"@[0] != "▲"@[0]);
    assert("■"@[0] != "▲"@[0]);
    assert("◦"@[0] != " "@[0]);
    assert("•"@[0] != " "@[0]);
    assert("■"@[0] != " "@[0]);
    assert("▲"@[0] != " "@[0]);
}

/// The name and colour of a priority in the detail view.
pub fn priority_name(priority: Option<i32>) -> (res: (&'static str, Tone))
    ensures
        res.0@ == priority_label(priority).0,
        res.1 == priority_label(priority).1,
{
    match priority {
        Some(0) => ("None", Tone::Gray),
        Some(1) => ("Low", Tone::Blue),
        Some(2) => ("Medium", Tone::Yellow),
        Some(3) => ("High", Tone::Orange),
        Some(4) => ("Urgent", Tone::Red),
        _ => ("Unknown", Tone::Gray),
    }
}

/// The colour of a workflow state of kind `state_type`.
pub open spec fn status_tone_of(state_type: Seq<char>) -> Tone {
    if state_type == "backlog"@ {
        Tone::Gray
    } else if state_type == "unstarted"@ {
        Tone::LightBlue
    } else if state_type == "started"@ {
        Tone::Yellow
    } else if state_type == "completed"@ {
        Tone::Green
    } else if state_type == "canceled"@ {
        Tone::DarkGray
    } else {
        Tone::White
    }
}

/// The colour of a workflow state of kind `state_type`.
pub fn status_tone(state_type: &str) -> (res: Tone)
    ensures
        res == status_tone_of(state_type@),
{
    if same_text(state_type, "backlog") {
        Tone::Gray
    } else if same_text(state_type, "unstarted") {
        Tone::LightBlue
    } else if same_text(state_type, "started") {
        Tone::Yellow
    } else if same_text(state_type, "completed") {
        Tone::Green
    } else if same_text(state_type, "canceled") {
        Tone::DarkGray
    } else {
        Tone::White
    }
}

/// What the screen shows below the header in `mode`: the detail of the
/// selected issue (true) or the issue list (false).
pub open spec fn shows_detail(mode: AppMode) -> bool {
    match mode {
        AppMode::Detail | AppMode::Comment | AppMode::Edit | AppMode::EditField
        | AppMode::SelectOption | AppMode::ExternalEditor | AppMode::Links => true,
        _ => false,
    }
}

/// Only the list modes (Normal, Search and Filter) show the issue list; the
/// detail mode and every mode entered from it show the selected issue.
/// Every overlay over the whole screen is drawn over the detail, and the
/// search box over the list.
pub proof fn lemma_detail_modes(mode: AppMode)
    ensures
        shows_detail(mode) <==> !(mode == AppMode::Normal || mode == AppMode::Search || mode
            == AppMode::Filter),
        shows_detail(AppMode::Detail),
        overlay_of(mode) != Overlay::NoOverlay ==> shows_detail(mode),
        (overlay_of(mode) == Overlay::NoOverlay) <==> (mode == AppMode::Normal || mode
            == AppMode::Search || mode == AppMode::Filter || mode == AppMode::Detail || mode
            == AppMode::Links),
        list_overlay_of(mode) == ListOverlay::SearchBox <==> mode == AppMode::Search,
        list_overlay_of(mode) == ListOverlay::CommentBox <==> mode == AppMode::Comment,
{
}

/// The colours of the workflow state kinds differ from one another, and from
/// the white of any other kind.
pub proof fn lemma_status_tones_distinct(a: Seq<char>, b: Seq<char>)
    ensures
        status_tone_of("backlog"@) == Tone::Gray,
        status_tone_of("unstarted"@) == Tone::LightBlue,
        status_tone_of("started"@) == Tone::Yellow,
        status_tone_of("completed"@) == Tone::Green,
        status_tone_of("canceled"@) == Tone::DarkGray,
        ({
            let kinds = seq!["backlog"@, "unstarted"@, "started"@, "completed"@, "canceled"@];
            &&& !kinds.contains(a) ==> status_tone_of(a) == Tone::White
            &&& kinds.contains(a) && kinds.contains(b) && a != b ==> status_tone_of(a)
                != status_tone_of(b)
        }),
{
    reveal_strlit("backlog");
    reveal_strlit("unstarted");
    reveal_strlit("started");
    reveal_strlit("completed");
    reveal_strlit("canceled");
    assert("backlog"@[0] != "unstarted"@[0]);
    assert("started"@[0] != "unstarted"@[0]);
    assert("completed"@[0] != "canceled"@[1] || "completed"@[1] != "canceled"@[1]);
    let kinds = seq!["backlog"@, "unstarted"@, "started"@, "completed"@, "canceled"@];
    if !kinds.contains(a) {
        assert(a != kinds[0] && a != kinds[1] && a != kinds[2] && a != kinds[3] && a != kinds[4]);
    }
}

/// Whether the screen shows the detail of the selected issue in `mode`.
pub fn detail_shown(mode: AppMode) -> (res: bool)
    ensures
        res == shows_detail(mode),
{
    match mode {
        AppMode::Detail | AppMode::Comment | AppMode::Edit | AppMode::EditField
        | AppMode::SelectOption | AppMode::ExternalEditor | AppMode::Links => true,
        _ => false,
    }
}

/// A window drawn on top of the screen.
#[derive(Clone, Copy, Debug, PartialEq, Eq, Structural)]
pub enum Overlay {
    NoOverlay,
    Comment,
    EditMenu,
    EditField,
    SelectOption,
    ExternalEditor,
}

/// The window drawn on top of the whole screen in `mode`.
pub open spec fn overlay_of(mode: AppMode) -> Overlay {
    match mode {
        AppMode::Comment => Overlay::Comment,
        AppMode::Edit => Overlay::EditMenu,
        AppMode::EditField => Overlay::EditField,
        AppMode::SelectOption => Overlay::SelectOption,
        AppMode::ExternalEditor => Overlay::ExternalEditor,
        _ => Overlay::NoOverlay,
    }
}

/// The window drawn on top of the whole screen in `mode`.
pub fn overlay_for(mode: AppMode) -> (res: Overlay)
    ensures
        res == overlay_of(mode),
{
    match mode {
        AppMode::Comment => Overlay::Comment,
        AppMode::Edit => Overlay::EditMenu,
        AppMode::EditField => Overlay::EditField,
        AppMode::SelectOption => Overlay::SelectOption,
        AppMode::ExternalEditor => Overlay::ExternalEditor,
        _ => Overlay::NoOverlay,
    }
}

/// A window drawn on top of the issue list.
#[derive(Clone, Copy, Debug, PartialEq, Eq, Structural)]
pub enum ListOverlay {
    NoListOverlay,
    /// The search box, in `Search` mode.
    SearchBox,
    /// The comment box, in `Comment` mode.
    CommentBox,
}

/// The window drawn on top of the issue list in `mode`.
pub open spec fn list_overlay_of(mode: AppMode) -> ListOverlay {
    match mode {
        AppMode::Search => ListOverlay::SearchBox,
        AppMode::Comment => ListOverlay::CommentBox,
        _ => ListOverlay::NoListOverlay,
    }
}

/// The window drawn on top of the issue list in `mode` (the list itself
/// drawn, not a loading, error or empty notice).
pub fn list_overlay_for(mode: AppMode) -> (res: ListOverlay)
    ensures
        res == list_overlay_of(mode),
{
    match mode {
        AppMode::Search => ListOverlay::SearchBox,
        AppMode::Comment => ListOverlay::CommentBox,
        _ => ListOverlay::NoListOverlay,
    }
}

/// The search window's line: the query followed by a cursor mark.
pub fn search_prompt(query: &str) -> (res: String)
    ensures
        res@ == "Search: "@ + query@ + "_"@,
{
    let mut t = "Search: ".to_owned();
    t.append(query);
    t.append("_");
    t
}


/// The heading of the detail view: identifier and title.
pub fn issue_heading(identifier: &str, title: &str) -> (res: String)
    ensures
        res@ == identifier@ + " - "@ + title@,
{
    let mut t = identifier.to_owned();
    t.append(" - ");
    t.append(title);
    t
}

/// The description shown in the detail view, or a placeholder without one.
pub fn description_or_placeholder(description: &Option<String>) -> (res: String)
    ensures
        res@ == match description {
            Some(d) => d@,
            None => "No description"@,
        },
{
    match description {
        Some(d) => d.clone(),
        None => "No description".to_owned(),
    }
}


/// What the issue list area shows.
#[derive(Clone, Copy, Debug, PartialEq, Eq, Structural)]
pub enum ListScreen {
    /// The issues are being fetched.
    Loading,
    /// Fetching failed; the error message is shown.
    Failed,
    /// There are no issues to show.
    NoIssues,
    /// The list of issues.
    Issues,
}

/// What the issue list area shows: loading first, then an error, then the
/// empty notice, else the list.
pub open spec fn list_screen_of(loading: bool, has_error: bool, issue_count: nat) -> ListScreen {
    if loading {
        ListScreen::Loading
    } else if has_error {
        ListScreen::Failed
    } else if issue_count == 0 {
        ListScreen::NoIssues
    } else {
        ListScreen::Issues
    }
}

/// Loading wins over an error, an error over an empty list; the list is
/// shown exactly when nothing is loading, nothing failed and there are issues.
pub proof fn lemma_list_screen_order(loading: bool, has_error: bool, issue_count: nat)
    ensures
        loading ==> list_screen_of(loading, has_error, issue_count) == ListScreen::Loading,
        !loading && has_error ==> list_screen_of(loading, has_error, issue_count)
            == ListScreen::Failed,
        (list_screen_of(loading, has_error, issue_count) == ListScreen::Issues) <==> (!loading
            && !has_error && issue_count > 0),
        (list_screen_of(loading, has_error, issue_count) == ListScreen::NoIssues) <==> (!loading
            && !has_error && issue_count == 0),
{
}

/// What the issue list area shows.
pub fn list_screen(loading: bool, has_error: bool, issue_count: usize) -> (res: ListScreen)
    ensures
        res == list_screen_of(loading, has_error, issue_count as nat),
{
    if loading {
        ListScreen::Loading
    } else if has_error {
        ListScreen::Failed
    } else if issue_count == 0 {
        ListScreen::NoIssues
    } else {
        ListScreen::Issues
    }
}

} // verus!
