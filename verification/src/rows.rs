use vstd::prelude::*;
use vstd::string::*;

use crate::columns::ColumnWidths;
use crate::links::{description_text, get_issue_links, issue_links};
use crate::model::{Issue, IssueLabel, User};
use crate::panels::{
    priority_label, priority_mark, priority_name, priority_symbol, status_tone, status_tone_of, Tone,
};
use crate::text::{
    assignee_label, can_truncate, decimal, decimal_string, pad_right, padded, parse_assignee_name,
    shorten_id_defined, shortened_id, truncate, truncate_defined, truncate_id, truncated,
    lemma_chars_within_bytes, lemma_cut_and_padded_width, lemma_shortened_id_fits,
    lemma_decimal_digits, lemma_decimal_injective,
};

verus! {

/// The names of some labels.
pub open spec fn label_names(labels: Seq<IssueLabel>) -> Seq<Seq<char>> {
    labels.map_values(|l: IssueLabel| l.name@)
}

/// The first two label names, separated by `, ` (empty without labels).
pub open spec fn labels_summary_text(names: Seq<Seq<char>>) -> Seq<char> {
    if names.len() == 0 {
        Seq::empty()
    } else if names.len() == 1 {
        names[0]
    } else {
        names[0] + ", "@ + names[1]
    }
}

/// The first two label names, separated by `, `.
pub fn labels_summary(labels: &Vec<IssueLabel>) -> (res: String)
    ensures
        res@ == labels_summary_text(label_names(labels@)),
{
    if labels.len() == 0 {
        String::new()
    } else if labels.len() == 1 {
        labels[0].name.clone()
    } else {
        let mut t = labels[0].name.clone();
        t.append(", ");
        t.append(labels[1].name.as_str());
        t
    }
}

/// How the label count is shown: `[n]`, or blanks without labels.
pub open spec fn label_count_text(count: nat) -> Seq<char> {
    if count == 0 {
        "   "@
    } else {
        "["@ + decimal(count) + "]"@
    }
}

/// The labels column, when it counts, is blank without labels and otherwise
/// shows the count in brackets, different for different counts.
pub proof fn lemma_label_count_cell(n: nat, m: nat)
    ensures
        n == 0 ==> label_count_text(n) == "   "@,
        n > 0 ==> label_count_text(n) == "["@ + decimal(n) + "]"@,
        n > 0 && m > 0 && label_count_text(n) == label_count_text(m) ==> n == m,
        n > 0 ==> label_count_text(n) != label_count_text(0),
{
    reveal_strlit("[");
    reveal_strlit("]");
    reveal_strlit("   ");
    if n > 0 {
        let t = "["@ + decimal(n) + "]"@;
        lemma_decimal_digits(n);
        assert(t[0] == '[');
        assert("   "@[0] == ' ');
        if m > 0 && label_count_text(n) == label_count_text(m) {
            let u = "["@ + decimal(m) + "]"@;
            lemma_decimal_digits(m);
            assert(decimal(n) =~= t.subrange(1, t.len() - 1));
            assert(decimal(m) =~= u.subrange(1, u.len() - 1));
            lemma_decimal_injective(n, m);
        }
    }
}

/// The labels column shows at most the first two label names, separated by
/// `, `: nothing without labels, the one name for one label.
pub proof fn lemma_labels_summary(names: Seq<Seq<char>>)
    ensures
        names.len() == 0 ==> labels_summary_text(names) == Seq::<char>::empty(),
        names.len() == 1 ==> labels_summary_text(names) == names[0],
        names.len() >= 2 ==> labels_summary_text(names) == names[0] + ", "@ + names[1],
        names.len() >= 2 ==> labels_summary_text(names) == labels_summary_text(names.take(2)),
{
    if names.len() >= 2 {
        assert(names.take(2)[0] == names[0]);
        assert(names.take(2)[1] == names[1]);
    }
}

/// How the label count is shown.
pub fn label_count(count: usize) -> (res: String)
    ensures
        res@ == label_count_text(count as nat),
{
    if count == 0 {
        "   ".to_owned()
    } else {
        let mut t = "[".to_owned();
        t.append(decimal_string(count).as_str());
        t.append("]");
        t
    }
}

/// How many links an issue has besides its own URL, as the list shows it:
/// ` n ` with a space on each side, or blanks when there are none.
pub open spec fn link_count_text(link_count: nat) -> Seq<char> {
    let extra: nat = if link_count > 1 { (link_count - 1) as nat } else { 0 };
    if extra > 0 {
        " "@ + decimal(extra) + " "@
    } else {
        "   "@
    }
}

/// How many links an issue has besides its own URL.
pub fn link_count(count: usize) -> (res: String)
    ensures
        res@ == link_count_text(count as nat),
{
    let extra = if count > 1 { count - 1 } else { 0 };
    if extra > 0 {
        let mut t = " ".to_owned();
        t.append(decimal_string(extra).as_str());
        t.append(" ");
        t
    } else {
        "   ".to_owned()
    }
}

/// The links cell counts the links besides the issue's own: for `n` distinct
/// links (the issue's URL included) it is blank when `n` is at most one, and
/// otherwise ` n-1 `, never blank, and different for different counts.
pub proof fn lemma_link_cell_counts_extra_links(n: nat, m: nat)
    ensures
        n <= 1 ==> link_count_text(n) == "   "@,
        n >= 2 ==> link_count_text(n) == " "@ + decimal((n - 1) as nat) + " "@,
        n >= 2 ==> link_count_text(n) != "   "@,
        n >= 2 && m >= 2 && link_count_text(n) == link_count_text(m) ==> n == m,
{
    reveal_strlit(" ");
    reveal_strlit("   ");
    if n >= 2 {
        let d = decimal((n - 1) as nat);
        lemma_decimal_digits((n - 1) as nat);
        let t = " "@ + d + " "@;
        assert(t[1] == d[0]);
        if t == "   "@ {
            assert("   "@[1] == ' ');
        }
        if m >= 2 && link_count_text(n) == link_count_text(m) {
            let e = decimal((m - 1) as nat);
            lemma_decimal_digits((m - 1) as nat);
            let u = " "@ + e + " "@;
            assert(d =~= t.subrange(1, t.len() - 1));
            assert(e =~= u.subrange(1, u.len() - 1));
            lemma_decimal_injective((n - 1) as nat, (m - 1) as nat);
        }
    }
}

/// Where the list shows links, a row's links cell is blank exactly when the
/// issue has no link besides its own URL, and otherwise tells how many others
/// it has.
pub proof fn lemma_row_links_cell(r: IssueRow, issue: &Issue, c: ColumnWidths)
    requires
        row_matches(r, issue, c),
        c.show_links,
    ensures
        r.links is Some,
        distinct_link_count(issue) <= 1 ==> r.links->0@ == "   "@,
        distinct_link_count(issue) >= 2 ==> r.links->0@ == " "@ + decimal(
            (distinct_link_count(issue) - 1) as nat,
        ) + " "@,
{
    lemma_link_cell_counts_extra_links(distinct_link_count(issue), 0);
}

/// The name shown for an issue's assignee.
pub open spec fn assignee_text(assignee: Option<User>) -> Seq<char> {
    match assignee {
        Some(u) => assignee_label(u.name@, u.email@),
        None => "Unassigned"@,
    }
}

/// The name shown for an issue's assignee.
pub fn assignee_name(assignee: &Option<User>) -> (res: String)
    ensures
        res@ == assignee_text(*assignee),
{
    match assignee {
        Some(u) => parse_assignee_name(u),
        None => "Unassigned".to_owned(),
    }
}

/// What the labels column shows: the label count, or the first two names.
pub open spec fn labels_cell_text(labels: Seq<IssueLabel>, as_count: bool) -> Seq<char> {
    if as_count {
        label_count_text(labels.len())
    } else {
        labels_summary_text(label_names(labels))
    }
}

/// The number of distinct links of an issue, its own URL included.
pub open spec fn distinct_link_count(issue: &Issue) -> nat {
    issue_links(issue.url@, description_text(issue)).to_set().len()
}

/// The cells of one row of the issue list.
pub struct IssueRow {
    pub id: String,
    pub priority: String,
    pub priority_tone: Tone,
    pub title: String,
    pub status: String,
    pub status_tone: Tone,
    pub assignee: Option<String>,
    pub labels: Option<String>,
    pub links: Option<String>,
}

/// The text of an optional cell.
pub open spec fn cell_text(cell: Option<String>) -> Option<Seq<char>> {
    match cell {
        Some(s) => Some(s@),
        None => None,
    }
}

/// Every cell of the row can be cut to its column's width: where a cell is
/// too long, its cut point lies on a character boundary.
pub open spec fn row_defined(issue: &Issue, c: ColumnWidths) -> bool {
    &&& shorten_id_defined(issue.identifier@, c.id as nat)
    &&& truncate_defined(issue.title@, c.title as nat)
    &&& truncate_defined(issue.state.name@, c.status as nat)
    &&& c.show_assignee ==> truncate_defined(assignee_text(issue.assignee), c.assignee as nat)
    &&& c.show_labels ==> truncate_defined(
        labels_cell_text(issue.labels.nodes@, c.labels_as_count),
        c.labels as nat,
    )
}

/// The row is the issue's cells cut and padded to the column widths `c`.
pub open spec fn row_matches(r: IssueRow, issue: &Issue, c: ColumnWidths) -> bool {
    &&& r.id@ == padded(shortened_id(issue.identifier@, c.id as nat), c.id as nat)
    &&& r.priority@ == " "@ + priority_mark(issue.priority).0 + " "@
    &&& r.priority_tone == priority_mark(issue.priority).1
    &&& r.title@ == padded(truncated(issue.title@, c.title as nat), c.title as nat)
    &&& r.status@ == padded(truncated(issue.state.name@, c.status as nat), c.status as nat)
    &&& r.status_tone == status_tone_of(issue.state.state_type@)
    &&& cell_text(r.assignee) == if c.show_assignee {
        Some(padded(truncated(assignee_text(issue.assignee), c.assignee as nat), c.assignee as nat))
    } else {
        None
    }
    &&& cell_text(r.labels) == if c.show_labels {
        Some(
            padded(
                truncated(labels_cell_text(issue.labels.nodes@, c.labels_as_count), c.labels as nat),
                c.labels as nat,
            ),
        )
    } else {
        None
    }
    &&& cell_text(r.links) == if c.show_links {
        Some(link_count_text(distinct_link_count(issue)))
    } else {
        None
    }
}

/// The cells of the issue list's row for `issue` with columns `c`, or `None`
/// when a cell cannot be cut to its width at a character boundary.
pub fn issue_row(issue: &Issue, c: &ColumnWidths) -> (res: Option<IssueRow>)
    ensures
        res is Some <==> row_defined(issue, *c),
        res matches Some(r) ==> row_matches(r, issue, *c),
{
    let assignee = assignee_name(&issue.assignee);
    let labels_display = if c.labels_as_count {
        label_count(issue.labels.nodes.len())
    } else {
        labels_summary(&issue.labels.nodes)
    };
    let id_ok = truncate_id_ok(issue.identifier.as_str(), c.id);
    if !id_ok || !can_truncate(issue.title.as_str(), c.title) || !can_truncate(
        issue.state.name.as_str(),
        c.status,
    ) || (c.show_assignee && !can_truncate(assignee.as_str(), c.assignee)) || (c.show_labels
        && !can_truncate(labels_display.as_str(), c.labels)) {
        return None;
    }
    let id = pad_right(truncate_id(issue.identifier.as_str(), c.id).as_str(), c.id);
    let (symbol, priority_tone) = priority_symbol(issue.priority);
    let mut priority = " ".to_owned();
    priority.append(symbol);
    priority.append(" ");
    let title = pad_right(truncate(issue.title.as_str(), c.title).as_str(), c.title);
    let status = pad_right(truncate(issue.state.name.as_str(), c.status).as_str(), c.status);
    let status_tone = status_tone(issue.state.state_type.as_str());
    let assignee_cell = if c.show_assignee {
        Some(pad_right(truncate(assignee.as_str(), c.assignee).as_str(), c.assignee))
    } else {
        None
    };
    let labels_cell = if c.show_labels {
        Some(pad_right(truncate(labels_display.as_str(), c.labels).as_str(), c.labels))
    } else {
        None
    };
    let links_cell = if c.show_links {
        let links = get_issue_links(issue);
        Some(link_count(links.len()))
    } else {
        None
    };
    Some(
        IssueRow {
            id,
            priority,
            priority_tone,
            title,
            status,
            status_tone,
            assignee: assignee_cell,
            labels: labels_cell,
            links: links_cell,
        },
    )
}

/// Every cell of a row fills its column exactly, so the columns line up:
/// identifier, title, status, assignee and labels take their column's width
/// in characters, and the priority mark three.
pub proof fn lemma_row_cells_fill_columns(r: IssueRow, issue: &Issue, c: ColumnWidths)
    requires
        row_defined(issue, c),
        row_matches(r, issue, c),
    ensures
        r.id@.len() == c.id,
        r.priority@.len() == 3,
        r.title@.len() == c.title,
        r.status@.len() == c.status,
        r.assignee matches Some(a) ==> a@.len() == c.assignee,
        r.labels matches Some(l) ==> l@.len() == c.labels,
{
    lemma_shortened_id_fits(issue.identifier@, c.id as nat);
    lemma_chars_within_bytes(shortened_id(issue.identifier@, c.id as nat));
    lemma_cut_and_padded_width(issue.title@, c.title as nat);
    lemma_cut_and_padded_width(issue.state.name@, c.status as nat);
    if c.show_assignee {
        lemma_cut_and_padded_width(assignee_text(issue.assignee), c.assignee as nat);
    }
    if c.show_labels {
        lemma_cut_and_padded_width(
            labels_cell_text(issue.labels.nodes@, c.labels_as_count),
            c.labels as nat,
        );
    }
    reveal_strlit(" ");
    reveal_strlit("◦");
    reveal_strlit("•");
    reveal_strlit("■");
    reveal_strlit("▲");
}

/// Whether `truncate_id(id, max_width)` is defined.
pub fn truncate_id_ok(id: &str, max_width: usize) -> (res: bool)
    ensures
        res == shorten_id_defined(id@, max_width as nat),
{
    if can_truncate(id, max_width) {
        return true;
    }
    // The identifier does not fit, so only its part after the first dash can
    // spare the cut.
    let n = id.unicode_len();
    let mut i: usize = 0;
    while i < n
        invariant
            n == id@.len(),
            i <= n,
            forall|j: int| 0 <= j < i ==> id@[j] != '-',
            !truncate_defined(id@, max_width as nat),
        decreases n - i,
    {
        if id.get_char(i) == '-' {
            proof {
                id@.index_of_first_ensures('-');
                let k = id@.index_of_first('-')->0;
                assert(k == i);
            }
            let rest = id.substring_char(i + 1, n);
            assert(rest@ =~= id@.skip(i + 1));
            return rest.as_bytes().len() <= max_width;
        }
        i = i + 1;
    }
    proof {
        id@.index_of_first_ensures('-');
    }
    false
}


/// A piece of the detail view's metadata line: its text, its colour (none for
/// the captions), and whether it is bold.
pub struct Segment {
    pub text: String,
    pub tone: Option<Tone>,
    pub bold: bool,
}

/// The (text, colour, bold) triples of some segments.
pub open spec fn segment_triples(segs: Seq<Segment>) -> Seq<(Seq<char>, Option<Tone>, bool)> {
    segs.map_values(|s: Segment| (s.text@, s.tone, s.bold))
}

/// The label names of the metadata line, in magenta, separated by `, `.
pub open spec fn label_segments(names: Seq<Seq<char>>) -> Seq<(Seq<char>, Option<Tone>, bool)>
    decreases names.len(),
{
    if names.len() == 0 {
        Seq::empty()
    } else {
        let sep = if names.len() > 1 {
            seq![(", "@, None::<Tone>, false)]
        } else {
            Seq::empty()
        };
        label_segments(names.drop_last()) + sep + seq![(names.last(), Some(Tone::Magenta), false)]
    }
}

/// The metadata line of the detail view: state, assignee, team and priority,
/// then the labels when there are any.
pub open spec fn metadata_spec(issue: &Issue) -> Seq<(Seq<char>, Option<Tone>, bool)> {
    let head = seq![
        ("State: "@, None::<Tone>, false),
        (issue.state.name@, Some(status_tone_of(issue.state.state_type@)), true),
        (" | Assignee: "@, None::<Tone>, false),
        (assignee_text(issue.assignee), Some(Tone::Cyan), false),
        (" | Team: "@, None::<Tone>, false),
        (issue.team.name@, Some(Tone::LightGreen), false),
        (" | Priority: "@, None::<Tone>, false),
        (priority_label(issue.priority).0, Some(priority_label(issue.priority).1), true),
    ];
    let names = label_names(issue.labels.nodes@);
    if names.len() == 0 {
        head
    } else {
        head + seq![(" | Labels: "@, None::<Tone>, false)] + label_segments(names)
    }
}

fn segment(text: &str, tone: Option<Tone>, bold: bool) -> (res: Segment)
    ensures
        res.text@ == text@,
        res.tone == tone,
        res.bold == bold,
{
    Segment { text: text.to_owned(), tone, bold }
}

/// The metadata line of the detail view.
pub fn metadata_segments(issue: &Issue) -> (res: Vec<Segment>)
    ensures
        segment_triples(res@) == metadata_spec(issue),
{
    let (priority, priority_tone) = priority_name(issue.priority);
    let mut segs: Vec<Segment> = Vec::new();
    segs.push(segment("State: ", None, false));
    segs.push(
        segment(issue.state.name.as_str(), Some(status_tone(issue.state.state_type.as_str())), true),
    );
    segs.push(segment(" | Assignee: ", None, false));
    segs.push(Segment { text: assignee_name(&issue.assignee), tone: Some(Tone::Cyan), bold: false });
    segs.push(segment(" | Team: ", None, false));
    segs.push(segment(issue.team.name.as_str(), Some(Tone::LightGreen), false));
    segs.push(segment(" | Priority: ", None, false));
    segs.push(segment(priority, Some(priority_tone), true));
    let ghost head = segment_triples(segs@);
    let labels = &issue.labels.nodes;
    let ghost names = label_names(labels@);
    if labels.len() == 0 {
        assert(segment_triples(segs@) =~= metadata_spec(issue));
        return segs;
    }
    segs.push(segment(" | Labels: ", None, false));
    let ghost caption = segment_triples(segs@);
    assert(label_segments(names.take(0)) =~= Seq::<(Seq<char>, Option<Tone>, bool)>::empty());
    assert(caption + label_segments(names.take(0)) =~= caption);
    let mut i: usize = 0;
    while i < labels.len()
        invariant
            i <= labels.len(),
            names == label_names(labels@),
            segment_triples(segs@) == caption + label_segments(names.take(i as int)),
        decreases labels.len() - i,
    {
        let ghost before = segment_triples(segs@);
        if i > 0 {
            segs.push(segment(", ", None, false));
        }
        segs.push(segment(labels[i].name.as_str(), Some(Tone::Magenta), false));
        let ghost t = names.take(i + 1);
        assert(t.drop_last() =~= names.take(i as int));
        assert(t.last() == labels@[i as int].name@);
        let ghost sep = if t.len() > 1 {
            seq![(", "@, None::<Tone>, false)]
        } else {
            Seq::empty()
        };
        assert(label_segments(t) == label_segments(t.drop_last()) + sep + seq![
            (t.last(), Some(Tone::Magenta), false),
        ]);
        assert(segment_triples(segs@) =~= before + sep + seq![(t.last(), Some(Tone::Magenta), false)]);
        assert(segment_triples(segs@) =~= caption + label_segments(names.take(i + 1)));
        i = i + 1;
    }
    assert(names.take(labels.len() as int) =~= names);
    assert(segment_triples(segs@) =~= metadata_spec(issue));
    segs
}


/// A row of the issue list, and whether it is the selected one.
pub struct ListedRow {
    pub row: IssueRow,
    pub selected: bool,
}

/// The rows of the issue list for `issues` with columns `c`, in order, the
/// one at `selected_index` marked as selected; `None` when some issue's row
/// cannot be cut to the column widths.
pub fn issue_rows(issues: &Vec<Issue>, c: &ColumnWidths, selected_index: usize) -> (res: Option<
    Vec<ListedRow>,
>)
    ensures
        res is Some <==> forall|i: int| 0 <= i < issues@.len() ==> row_defined(#[trigger] &issues@[i], *c),
        res matches Some(rows) ==> {
            &&& rows@.len() == issues@.len()
            &&& forall|i: int|
                0 <= i < rows@.len() ==> {
                    &&& row_matches(#[trigger] rows@[i].row, &issues@[i], *c)
                    &&& rows@[i].selected == (i == selected_index)
                }
        },
{
    let mut rows: Vec<ListedRow> = Vec::new();
    let mut i: usize = 0;
    while i < issues.len()
        invariant
            i <= issues@.len(),
            rows@.len() == i,
            forall|j: int| 0 <= j < i ==> row_defined(#[trigger] &issues@[j], *c),
            forall|j: int|
                0 <= j < i ==> {
                    &&& row_matches(#[trigger] rows@[j].row, &issues@[j], *c)
                    &&& rows@[j].selected == (j == selected_index)
                },
        decreases issues@.len() - i,
    {
        match issue_row(&issues[i], c) {
            Some(row) => {
                rows.push(ListedRow { row, selected: i == selected_index });
            },
            None => {
                return None;
            },
        }
        i = i + 1;
    }
    Some(rows)
}

} // verus!
