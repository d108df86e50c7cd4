use vstd::prelude::*;

use crate::text::{pad_right, padded};

verus! {

/// Widths (in characters) of the issue list's columns, and which of the
/// optional columns are shown.
#[derive(Clone, Copy, Debug, PartialEq, Eq, Structural)]
pub struct ColumnWidths {
    pub id: usize,
    pub priority: usize,
    pub title: usize,
    pub status: usize,
    pub assignee: usize,
    pub labels: usize,
    pub links: usize,
    pub show_assignee: bool,
    pub show_labels: bool,
    pub show_links: bool,
    pub labels_as_count: bool,
}

/// `a - b`, or zero when `b > a`.
pub open spec fn minus_or_zero(a: nat, b: nat) -> nat {
    if a >= b { (a - b) as nat } else { 0 }
}

/// The column layout for an inner width of `width` characters.
///
/// Below 80 only identifier, priority, title and status are shown; from 80
/// the assignee joins; from 100 the labels, as a count; from 120 the labels
/// by name and the link count; from 160 the columns get generous widths and
/// the title is capped at 80. The title takes what the other columns leave.
pub open spec fn column_layout(width: nat) -> ColumnWidths {
    if width < 80 {
        ColumnWidths {
            id: 7,
            priority: 3,
            title: minus_or_zero(width, 22) as usize,
            status: 8,
            assignee: 0,
            labels: 0,
            links: 0,
            show_assignee: false,
            show_labels: false,
            show_links: false,
            labels_as_count: false,
        }
    } else if width < 100 {
        ColumnWidths {
            id: 7,
            priority: 3,
            title: (width - 33) as usize,
            status: 8,
            assignee: 10,
            labels: 0,
            links: 0,
            show_assignee: true,
            show_labels: false,
            show_links: false,
            labels_as_count: false,
        }
    } else if width < 120 {
        ColumnWidths {
            id: 8,
            priority: 3,
            title: (width - 40) as usize,
            status: 10,
            assignee: 12,
            labels: 6,
            links: 0,
            show_assignee: true,
            show_labels: true,
            show_links: false,
            labels_as_count: true,
        }
    } else if width < 160 {
        ColumnWidths {
            id: 9,
            priority: 3,
            title: (width - 59) as usize,
            status: 12,
            assignee: 12,
            labels: 15,
            links: 3,
            show_assignee: true,
            show_labels: true,
            show_links: true,
            labels_as_count: false,
        }
    } else {
        ColumnWidths {
            id: 10,
            priority: 3,
            title: (if width - 75 < 80 { width - 75 } else { 80 }) as usize,
            status: 15,
            assignee: 15,
            labels: 20,
            links: 4,
            show_assignee: true,
            show_labels: true,
            show_links: true,
            labels_as_count: false,
        }
    }
}

/// Chooses the issue list's columns for an inner width of `available_width`.
pub fn calculate_column_widths(available_width: u16) -> (res: ColumnWidths)
    ensures
        res == column_layout(available_width as nat),
{
    let width = available_width as usize;

    // Minimum widths
    let min_id: usize = 7;
    let min_priority_and_space: usize = 3;
    let min_status: usize = 8;
    let min_assignee: usize = 10;
    let min_labels: usize = 6;
    let min_links: usize = 3;

    if width < 80 {
        // Only the essential columns; 4 for borders and padding.
        ColumnWidths {
            id: min_id,
            priority: min_priority_and_space,
            title: width.saturating_sub(min_id + min_priority_and_space + min_status + 4),
            status: min_status,
            assignee: 0,
            labels: 0,
            links: 0,
            show_assignee: false,
            show_labels: false,
            show_links: false,
            labels_as_count: false,
        }
    } else if width < 100 {
        let essential_width = min_id + min_priority_and_space + min_status + min_assignee + 5;
        ColumnWidths {
            id: min_id,
            priority: min_priority_and_space,
            title: width.saturating_sub(essential_width),
            status: min_status,
            assignee: min_assignee,
            labels: 0,
            links: 0,
            show_assignee: true,
            show_labels: false,
            show_links: false,
            labels_as_count: false,
        }
    } else if width < 120 {
        let essential_width = min_id + min_priority_and_space + min_status + min_assignee
            + min_labels + 6;
        ColumnWidths {
            id: 8,
            priority: min_priority_and_space,
            title: width.saturating_sub(essential_width),
            status: 10,
            assignee: 12,
            labels: min_labels,
            links: 0,
            show_assignee: true,
            show_labels: true,
            show_links: false,
            labels_as_count: true,
        }
    } else if width < 160 {
        let essential_width = min_id + min_priority_and_space + 12 + 12 + 15 + min_links + 7;
        ColumnWidths {
            id: 9,
            priority: min_priority_and_space,
            title: width.saturating_sub(essential_width),
            status: 12,
            assignee: 12,
            labels: 15,
            links: min_links,
            show_assignee: true,
            show_labels: true,
            show_links: true,
            labels_as_count: false,
        }
    } else {
        let used_width = 10 + min_priority_and_space + 15 + 15 + 20 + 4 + 8;
        let remaining = width.saturating_sub(used_width);
        // Cap the title for readability.
        let title_width = if remaining < 80 { remaining } else { 80 };
        ColumnWidths {
            id: 10,
            priority: min_priority_and_space,
            title: title_width,
            status: 15,
            assignee: 15,
            labels: 20,
            links: 4,
            show_assignee: true,
            show_labels: true,
            show_links: true,
            labels_as_count: false,
        }
    }
}

/// Characters a row of the list takes: every shown column at its width.
pub open spec fn row_width(c: ColumnWidths) -> nat {
    (c.id + c.priority + c.title + c.status + (if c.show_assignee { c.assignee } else { 0 }) + (
    if c.show_labels { c.labels } else { 0 }) + (if c.show_links { c.links } else { 0 })) as nat
}

/// The optional columns come in a fixed order: links only with labels, labels
/// only with the assignee, a label count only instead of label names and
/// without links; a hidden column has width 0; the priority column is 3 wide;
/// on the widest screens the title is capped at 80.
pub proof fn lemma_columns_nest(width: nat)
    ensures
        ({
            let c = column_layout(width);
            &&& c.show_links ==> c.show_labels
            &&& c.show_labels ==> c.show_assignee
            &&& c.labels_as_count ==> c.show_labels && !c.show_links
            &&& !c.show_assignee ==> c.assignee == 0
            &&& !c.show_labels ==> c.labels == 0
            &&& !c.show_links ==> c.links == 0
            &&& c.priority == 3
            &&& width >= 160 ==> c.title <= 80
        }),
{
}

/// A wider list never shows fewer optional columns than a narrower one.
pub proof fn lemma_columns_monotone(narrow: nat, wide: nat)
    requires
        narrow <= wide,
    ensures
        column_layout(narrow).show_assignee ==> column_layout(wide).show_assignee,
        column_layout(narrow).show_labels ==> column_layout(wide).show_labels,
        column_layout(narrow).show_links ==> column_layout(wide).show_links,
{
}

/// From an inner width of 22 on, the shown columns of a row fit in it.
pub proof fn lemma_columns_fit(width: nat)
    requires
        22 <= width,
    ensures
        row_width(column_layout(width)) <= width,
{
}

/// The title takes the room the other columns leave: a row of shown columns
/// leaves 4 cells for borders and padding below 80 columns, 5 up to 100, 1 up
/// to 120 and 5 up to 160; from 160 on the title is at its cap of 80 and a
/// row takes 147 cells.
pub proof fn lemma_columns_use_width(width: nat)
    ensures
        22 <= width < 80 ==> row_width(column_layout(width)) == width - 4,
        80 <= width < 100 ==> row_width(column_layout(width)) == width - 5,
        100 <= width < 120 ==> row_width(column_layout(width)) == width - 1,
        120 <= width < 160 ==> row_width(column_layout(width)) == width - 5,
        160 <= width ==> row_width(column_layout(width)) == 147 && column_layout(width).title == 80,
        width < 22 ==> column_layout(width).title == 0,
{
}

/// The header line of the issue list for columns `c`.
pub open spec fn header_line(c: ColumnWidths) -> Seq<char> {
    let base = padded("ID"@, c.id as nat) + " "@ + padded("P"@, 2) + " "@ + padded(
        "Title"@,
        c.title as nat,
    ) + " "@ + padded("Status"@, c.status as nat);
    let with_assignee = if c.show_assignee {
        base + " "@ + padded("Assignee"@, c.assignee as nat)
    } else {
        base
    };
    let with_labels = if c.show_labels {
        with_assignee + " "@ + padded(
            if c.labels_as_count { "Lbl"@ } else { "Labels"@ },
            c.labels as nat,
        )
    } else {
        with_assignee
    };
    if c.show_links {
        with_labels + " 🔗"@
    } else {
        with_labels
    }
}

/// Builds the header line of the issue list.
pub fn list_header(c: &ColumnWidths) -> (res: String)
    ensures
        res@ == header_line(*c),
{
    let mut header = pad_right("ID", c.id);
    header.append(" ");
    header.append(pad_right("P", 2).as_str());
    header.append(" ");
    header.append(pad_right("Title", c.title).as_str());
    header.append(" ");
    header.append(pad_right("Status", c.status).as_str());
    if c.show_assignee {
        header.append(" ");
        header.append(pad_right("Assignee", c.assignee).as_str());
    }
    if c.show_labels {
        let label_header = if c.labels_as_count { "Lbl" } else { "Labels" };
        header.append(" ");
        header.append(pad_right(label_header, c.labels).as_str());
    }
    if c.show_links {
        header.append(" 🔗");
    }
    header
}

} // verus!
