use vstd::prelude::*;

use crate::links::texts;
use crate::model::AppMode;
use crate::text::{can_truncate, decimal, lemma_decimal_injective, decimal_string, truncate, truncate_defined, truncated};

verus! {

/// Height of the links box of the detail view for `count` links: room for a
/// header, the links and a scroll note, at most 12 lines.
pub open spec fn links_box_height(count: nat) -> u16 {
    let h = 3 + (count % 65536);
    if h < 12 { h as u16 } else { 12 }
}

/// Height of the links box of the detail view for `count` links.
pub fn links_section_height(count: usize) -> (res: u16)
    requires
        3 + count % 65536 <= u16::MAX,
    ensures
        res == links_box_height(count as nat),
        res <= 12,
{
    assert((count as u16) == count % 65536) by (bit_vector);
    let h: u16 = 3 + (count as u16);
    if h < 12 { h } else { 12 }
}

/// How many links fit in a links box of `box_height` lines: its height less
/// borders and header, less one line for the scroll note.
pub open spec fn link_slots(box_height: nat) -> nat {
    let inner = if box_height >= 3 { (box_height - 3) as nat } else { 0 };
    if inner >= 1 { (inner - 1) as nat } else { 0 }
}

/// How many links fit in a links box of `box_height` lines.
pub fn visible_link_slots(box_height: u16) -> (res: usize)
    ensures
        res == link_slots(box_height as nat),
{
    let available_height = box_height.saturating_sub(3) as usize;
    available_height.saturating_sub(1)
}

/// The first shown link, and one past the last, of `count` links in a box with
/// room for `max_visible`, when link `selected` is highlighted: all of them when
/// they fit, else a window of `max_visible` kept around the selection.
pub open spec fn link_window(count: nat, max_visible: nat, selected: nat) -> (nat, nat) {
    if count <= max_visible {
        (0, count)
    } else {
        let half = max_visible / 2;
        let start: nat = if selected < half {
            0
        } else if selected > count - half {
            (count - max_visible) as nat
        } else {
            (selected - half) as nat
        };
        (start, if start + max_visible < count { start + max_visible } else { count })
    }
}

/// The range of links that the links box shows.
pub fn visible_link_range(count: usize, max_visible: usize, selected: usize) -> (res: (usize, usize))
    requires
        count < usize::MAX,
    ensures
        res.0 == link_window(count as nat, max_visible as nat, selected as nat).0,
        res.1 == link_window(count as nat, max_visible as nat, selected as nat).1,
{
    if count <= max_visible {
        (0, count)
    } else {
        let half_visible = max_visible / 2;
        let start = if selected < half_visible {
            0
        } else if selected > count - half_visible {
            count.saturating_sub(max_visible)
        } else {
            selected.saturating_sub(half_visible)
        };
        let end = if start + max_visible < count { start + max_visible } else { count };
        (start, end)
    }
}

/// The window lies within the links, holds at most `max_visible` of them, and
/// holds all of them when they fit.
pub proof fn lemma_link_window_bounds(count: nat, max_visible: nat, selected: nat)
    ensures
        ({
            let (start, end) = link_window(count, max_visible, selected);
            &&& start <= end <= count
            &&& end - start <= max_visible
            &&& count <= max_visible ==> start == 0 && end == count
        }),
{
}

/// The selected link is always in the window, whenever the box has room for a
/// link at all.
pub proof fn lemma_link_window_shows_selected(count: nat, max_visible: nat, selected: nat)
    requires
        0 < max_visible,
        selected < count,
    ensures
        link_window(count, max_visible, selected).0 <= selected < link_window(
            count,
            max_visible,
            selected,
        ).1,
{
}

/// How a line of the links box is drawn.
#[derive(Clone, Copy, Debug, PartialEq, Eq, Structural)]
pub enum LinkLineKind {
    /// The first line, which tells how to navigate.
    Help,
    /// An empty line.
    Blank,
    /// A note that more links are above or below.
    ScrollNote,
    /// The highlighted link while navigating links.
    SelectedLink,
    /// The first link, opened with `o`.
    FirstLink,
    /// Any other link.
    OtherLink,
}

/// A line of the links box.
pub struct LinkLine {
    pub text: String,
    pub kind: LinkLineKind,
}

/// The text of the line for link `i` (whose text is `link`).
pub open spec fn link_line_text(i: nat, link: Seq<char>) -> Seq<char> {
    if i == 0 {
        "[o] Linear: "@ + truncated(link, 60)
    } else if i < 10 {
        "["@ + decimal(i) + "] "@ + truncated(link, 60)
    } else {
        "    "@ + truncated(link, 60)
    }
}

/// The kind of the line for link `i`.
pub open spec fn link_line_kind(i: nat, navigating: bool, selected: nat) -> LinkLineKind {
    if navigating && i == selected {
        LinkLineKind::SelectedLink
    } else if i == 0 {
        LinkLineKind::FirstLink
    } else {
        LinkLineKind::OtherLink
    }
}

/// The help line of the links box.
pub open spec fn links_help(navigating: bool) -> Seq<char> {
    if navigating {
        "Navigate with j/k or ↑/↓, Enter to open, Esc to exit"@
    } else {
        "Press 'l' to navigate links, 'o' for Linear, or number keys:"@
    }
}

/// Every link in the window that the links box shows can be cut to 60 bytes.
pub open spec fn window_printable(
    links: Seq<Seq<char>>,
    navigating: bool,
    selected_link: nat,
    max_visible: nat,
) -> bool {
    let selected = if navigating { selected_link } else { 0 };
    let (start, end) = link_window(links.len(), max_visible, selected);
    forall|i: int| start <= i < end ==> truncate_defined(#[trigger] links[i], 60)
}

/// The lines of the links box, as (text, kind) pairs.
pub open spec fn link_lines_spec(
    links: Seq<Seq<char>>,
    navigating: bool,
    selected_link: nat,
    max_visible: nat,
) -> Seq<(Seq<char>, LinkLineKind)> {
    let selected = if navigating { selected_link } else { 0 };
    let (start, end) = link_window(links.len(), max_visible, selected);
    let head = seq![(links_help(navigating), LinkLineKind::Help), (Seq::empty(), LinkLineKind::Blank)];
    let above = if start > 0 {
        seq![("    ↑ "@ + decimal(start) + " more"@, LinkLineKind::ScrollNote)]
    } else {
        Seq::empty()
    };
    let shown = Seq::new(
        (end - start) as nat,
        |k: int|
            (
                link_line_text((start + k) as nat, links[start + k]),
                link_line_kind((start + k) as nat, navigating, selected_link),
            ),
    );
    let below = if end < links.len() {
        seq![("    ↓ "@ + decimal((links.len() - end) as nat) + " more"@, LinkLineKind::ScrollNote)]
    } else {
        Seq::empty()
    };
    head + above + shown + below
}

/// The (text, kind) pairs of some lines.
pub open spec fn line_pairs(lines: Seq<LinkLine>) -> Seq<(Seq<char>, LinkLineKind)> {
    lines.map_values(|l: LinkLine| (l.text@, l.kind))
}

fn text_line(text: &str, kind: LinkLineKind) -> (res: LinkLine)
    ensures
        res.text@ == text@,
        res.kind == kind,
{
    LinkLine { text: text.to_owned(), kind }
}

fn count_note(lead: &str, n: usize) -> (res: String)
    ensures
        res@ == lead@ + decimal(n as nat) + " more"@,
{
    let mut t = lead.to_owned();
    t.append(decimal_string(n).as_str());
    t.append(" more");
    t
}

/// The text of the line for link `i`.
pub fn link_line(i: usize, link: &str) -> (res: String)
    requires
        truncate_defined(link@, 60),
    ensures
        res@ == link_line_text(i as nat, link@),
{
    let cut = truncate(link, 60);
    if i == 0 {
        let mut t = "[o] Linear: ".to_owned();
        t.append(cut.as_str());
        t
    } else if i < 10 {
        let mut t = "[".to_owned();
        t.append(decimal_string(i).as_str());
        t.append("] ");
        t.append(cut.as_str());
        t
    } else {
        let mut t = "    ".to_owned();
        t.append(cut.as_str());
        t
    }
}

/// The lines of the links box of the detail view: the help line, a blank
/// line, the links in the window around the selection, and notes of how many
/// more links lie above and below. `None` exactly when a link in the window
/// cannot be cut to 60 bytes at a character boundary.
pub fn link_lines(
    links: &Vec<String>,
    navigating: bool,
    selected_link: usize,
    max_visible: usize,
) -> (res: Option<Vec<LinkLine>>)
    requires
        links.len() < usize::MAX,
    ensures
        res is Some <==> window_printable(
            texts(links@),
            navigating,
            selected_link as nat,
            max_visible as nat,
        ),
        res matches Some(lines) ==> line_pairs(lines@) == link_lines_spec(
            texts(links@),
            navigating,
            selected_link as nat,
            max_visible as nat,
        ),
{
    let ghost ls = texts(links@);
    let selected = if navigating { selected_link } else { 0 };
    let (start, end) = visible_link_range(links.len(), max_visible, selected);
    proof {
        lemma_link_window_bounds(links.len() as nat, max_visible as nat, selected as nat);
    }
    let mut lines: Vec<LinkLine> = Vec::new();
    if navigating {
        lines.push(text_line("Navigate with j/k or ↑/↓, Enter to open, Esc to exit", LinkLineKind::Help));
    } else {
        lines.push(text_line("Press 'l' to navigate links, 'o' for Linear, or number keys:", LinkLineKind::Help));
    }
    lines.push(LinkLine { text: String::new(), kind: LinkLineKind::Blank });
    if start > 0 {
        lines.push(LinkLine { text: count_note("    ↑ ", start), kind: LinkLineKind::ScrollNote });
    }
    let ghost prefix = line_pairs(lines@);
    let ghost head = seq![(links_help(navigating), LinkLineKind::Help), (Seq::<char>::empty(), LinkLineKind::Blank)];
    let ghost above = if start > 0 {
        seq![("    ↑ "@ + decimal(start as nat) + " more"@, LinkLineKind::ScrollNote)]
    } else {
        Seq::empty()
    };
    assert(prefix =~= head + above);
    let mut i = start;
    while i < end
        invariant
            start <= i <= end <= links.len(),
            ls == texts(links@),
            start == link_window(links.len() as nat, max_visible as nat, selected as nat).0,
            end == link_window(links.len() as nat, max_visible as nat, selected as nat).1,
            selected == if navigating { selected_link } else { 0 },
            forall|j: int| start <= j < i ==> truncate_defined(#[trigger] ls[j], 60),
            line_pairs(lines@) == prefix + Seq::new(
                (i - start) as nat,
                |k: int|
                    (
                        link_line_text((start + k) as nat, ls[start + k]),
                        link_line_kind((start + k) as nat, navigating, selected_link as nat),
                    ),
            ),
        decreases end - i,
    {
        assert(ls[i as int] == links@[i as int]@);
        if !can_truncate(links[i].as_str(), 60) {
            return None;
        }
        let text = link_line(i, links[i].as_str());
        let kind = if navigating && i == selected_link {
            LinkLineKind::SelectedLink
        } else if i == 0 {
            LinkLineKind::FirstLink
        } else {
            LinkLineKind::OtherLink
        };
        assert(kind == link_line_kind(i as nat, navigating, selected_link as nat));
        assert(text@ == link_line_text(i as nat, ls[i as int]));
        let ghost old_pairs = line_pairs(lines@);
        lines.push(LinkLine { text, kind });
        assert(line_pairs(lines@) =~= old_pairs.push((text@, kind)));
        i = i + 1;
        assert(line_pairs(lines@) =~= prefix + Seq::new(
            (i - start) as nat,
            |k: int|
                (
                    link_line_text((start + k) as nat, ls[start + k]),
                    link_line_kind((start + k) as nat, navigating, selected_link as nat),
                ),
        ));
    }
    let ghost mid = line_pairs(lines@);
    if end < links.len() {
        lines.push(LinkLine { text: count_note("    ↓ ", links.len() - end), kind: LinkLineKind::ScrollNote });
        assert(line_pairs(lines@) =~= mid.push(line_pairs(lines@).last()));
    } else {
        assert(line_pairs(lines@) =~= mid + Seq::empty());
    }
    assert(line_pairs(lines@) =~= link_lines_spec(ls, navigating, selected_link as nat, max_visible as nat));
    Some(lines)
}

/// The title of the links box: with the position of the selection while
/// navigating links that do not all fit.
pub open spec fn links_title_text(count: nat, max_visible: nat, navigating: bool, selected: nat) -> Seq<char> {
    if count > max_visible && navigating {
        " Links ("@ + decimal(selected + 1) + "/"@ + decimal(count) + ") "@
    } else {
        " Links "@
    }
}

/// While navigating links that do not all fit, the title shows the position
/// of the selection and the number of links: " Links (s+1/count) ". Otherwise
/// it is just " Links ". The count in a title is the number of links, whatever
/// is selected: two such titles for the same selection agree only when they
/// count the same number of links.
pub proof fn lemma_links_title_position(
    count: nat,
    max_visible: nat,
    selected: nat,
    other_count: nat,
    other_max: nat,
)
    ensures
        count > max_visible ==> links_title_text(count, max_visible, true, selected) == " Links ("@
            + decimal(selected + 1) + "/"@ + decimal(count) + ") "@,
        count <= max_visible ==> links_title_text(count, max_visible, true, selected) == " Links "@,
        links_title_text(count, max_visible, false, selected) == " Links "@,
        count > max_visible && other_count > other_max && links_title_text(
            count,
            max_visible,
            true,
            selected,
        ) == links_title_text(other_count, other_max, true, selected) ==> count == other_count,
{
    if count > max_visible && other_count > other_max && links_title_text(
        count,
        max_visible,
        true,
        selected,
    ) == links_title_text(other_count, other_max, true, selected) {
        let p = " Links ("@ + decimal(selected + 1) + "/"@;
        let d = decimal(count);
        let e = decimal(other_count);
        let t = p + d + ") "@;
        let u = p + e + ") "@;
        assert(t == u);
        assert(d.len() == e.len());
        assert(d =~= t.subrange(p.len() as int, (p.len() + d.len()) as int));
        assert(e =~= u.subrange(p.len() as int, (p.len() + e.len()) as int));
        lemma_decimal_injective(count, other_count);
    }
}

/// A link's line is highlighted exactly when it is the selected link while
/// navigating; otherwise the first link is set apart from the others.
pub proof fn lemma_link_line_kinds(i: nat, navigating: bool, selected: nat)
    ensures
        (link_line_kind(i, navigating, selected) == LinkLineKind::SelectedLink) <==> (navigating
            && i == selected),
        !(navigating && i == selected) ==> ((link_line_kind(i, navigating, selected)
            == LinkLineKind::FirstLink) <==> i == 0),
{
}

/// The title of the links box.
pub fn links_title(count: usize, max_visible: usize, navigating: bool, selected: usize) -> (res: String)
    requires
        count > max_visible && navigating ==> selected < usize::MAX,
    ensures
        res@ == links_title_text(count as nat, max_visible as nat, navigating, selected as nat),
{
    if count > max_visible && navigating {
        let mut t = " Links (".to_owned();
        t.append(decimal_string(selected + 1).as_str());
        t.append("/");
        t.append(decimal_string(count).as_str());
        t.append(") ");
        t
    } else {
        " Links ".to_owned()
    }
}

/// Whether the detail view shows a links box: more links than the issue's own.
pub fn has_extra_links(count: usize) -> (res: bool)
    ensures
        res == (count > 1),
{
    count > 1
}

/// Whether the screen in `mode` is navigating links.
pub fn navigating_links(mode: AppMode) -> (res: bool)
    ensures
        res == (mode == AppMode::Links),
{
    mode == AppMode::Links
}

} // verus!
