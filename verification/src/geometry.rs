use vstd::prelude::*;

use ratatui::layout::{Constraint, Direction, Layout, Rect};

verus! {

/// A rectangle of the terminal, in cells.
#[derive(Clone, Copy, Debug, PartialEq, Eq, Structural)]
pub struct Area {
    pub x: u16,
    pub y: u16,
    pub width: u16,
    pub height: u16,
}

/// How one part of a split area is sized.
#[derive(Clone, Copy, Debug, PartialEq, Eq, Structural)]
pub enum Extent {
    /// Exactly this many cells.
    Length(u16),
    /// At least this many cells.
    Min(u16),
    /// This percentage of the area.
    Percentage(u16),
}

/// Along which axis an area is split.
#[derive(Clone, Copy, Debug, PartialEq, Eq, Structural)]
pub enum SplitDirection {
    Horizontal,
    Vertical,
}

/// `part` is one of the parts that a split of `area` along `direction` gives:
/// it spans the whole area across the split and lies within it along it.
pub open spec fn part_of(part: Area, area: Area, direction: SplitDirection) -> bool {
    match direction {
        SplitDirection::Vertical => {
            &&& part.x == area.x
            &&& part.width == area.width
            &&& area.y <= part.y
            &&& part.y + part.height <= area.y + area.height
        },
        SplitDirection::Horizontal => {
            &&& part.y == area.y
            &&& part.height == area.height
            &&& area.x <= part.x
            &&& part.x + part.width <= area.x + area.width
        },
    }
}

/// `inner` lies within `outer`.
pub open spec fn within(inner: Area, outer: Area) -> bool {
    &&& outer.x <= inner.x
    &&& inner.x + inner.width <= outer.x + outer.width
    &&& outer.y <= inner.y
    &&& inner.y + inner.height <= outer.y + outer.height
}

/// The extent of `area` along `direction`: its height for a vertical split,
/// its width for a horizontal one.
pub open spec fn room(area: Area, direction: SplitDirection) -> nat {
    match direction {
        SplitDirection::Vertical => area.height as nat,
        SplitDirection::Horizontal => area.width as nat,
    }
}

/// Where `area` starts along `direction`.
pub open spec fn origin(area: Area, direction: SplitDirection) -> nat {
    match direction {
        SplitDirection::Vertical => area.y as nat,
        SplitDirection::Horizontal => area.x as nat,
    }
}

/// The cells that the `Length` and `Min` sizes ask for together.
pub open spec fn asked_total(cs: Seq<Extent>) -> nat
    decreases cs.len(),
{
    if cs.len() == 0 {
        0
    } else {
        asked_total(cs.drop_last()) + match cs.last() {
            Extent::Length(n) => n as nat,
            Extent::Min(m) => m as nat,
            Extent::Percentage(_) => 0nat,
        }
    }
}

/// The cells that the `Length` sizes ask for together.
pub open spec fn lengths_total(cs: Seq<Extent>) -> nat
    decreases cs.len(),
{
    if cs.len() == 0 {
        0
    } else {
        lengths_total(cs.drop_last()) + match cs.last() {
            Extent::Length(n) => n as nat,
            _ => 0nat,
        }
    }
}

/// How many of the sizes are `Min`.
pub open spec fn min_count(cs: Seq<Extent>) -> nat
    decreases cs.len(),
{
    if cs.len() == 0 {
        0
    } else {
        min_count(cs.drop_last()) + if cs.last() is Min { 1nat } else { 0nat }
    }
}

/// The sizes are `Length`s and at most one `Min`, and they all fit in `room`
/// cells: then every size is met, the `Min` taking what the lengths leave.
pub open spec fn settles(cs: Seq<Extent>, room: nat) -> bool {
    &&& forall|i: int| 0 <= i < cs.len() ==> !(#[trigger] cs[i] is Percentage)
    &&& min_count(cs) <= 1
    &&& asked_total(cs) <= room
}

/// The cells a part of size `c` gets when the sizes `cs` settle in `room` cells.
pub open spec fn settled_len(c: Extent, cs: Seq<Extent>, room: nat) -> nat {
    match c {
        Extent::Length(n) => n as nat,
        Extent::Min(_) => (room - lengths_total(cs)) as nat,
        Extent::Percentage(_) => 0,
    }
}

/// Where part `i` starts, from the area's start, when the sizes `cs` settle.
pub open spec fn settled_offset(cs: Seq<Extent>, room: nat, i: int) -> nat
    decreases i,
{
    if i <= 0 {
        0
    } else {
        settled_offset(cs, room, i - 1) + settled_len(cs[i - 1], cs, room)
    }
}

/// The sizes are all `Percentage`s.
pub open spec fn all_percentages(cs: Seq<Extent>) -> bool {
    forall|i: int| 0 <= i < cs.len() ==> #[trigger] cs[i] is Percentage
}

/// The sum of the first `i` percentages of `cs`.
pub open spec fn percent_before(cs: Seq<Extent>, i: int) -> nat
    decreases i,
{
    if i <= 0 {
        0
    } else {
        percent_before(cs, i - 1) + match cs[i - 1] {
            Extent::Percentage(p) => p as nat,
            _ => 0nat,
        }
    }
}

/// Where the boundary before part `i` of a percentage split falls, from the
/// area's start: the exact position `room * P / 100` (with `P` the percentages
/// before it) rounded to the nearest cell, halves up.
pub open spec fn percent_boundary(cs: Seq<Extent>, room: nat, i: int) -> nat {
    (room * percent_before(cs, i) + 50) / 100
}

/// `part` starts `offset` cells into `area` along `direction` and takes `len` cells.
pub open spec fn placed(part: Area, area: Area, direction: SplitDirection, offset: nat, len: nat) -> bool {
    match direction {
        SplitDirection::Vertical => part.y == area.y + offset && part.height == len,
        SplitDirection::Horizontal => part.x == area.x + offset && part.width == len,
    }
}

/// Splits `area` with `ratatui::layout::Layout::split` (default layout: no
/// margin, no spacing, `Flex::Start`).
/// Trusted:
/// - one part per constraint (the solver builds one segment per constraint);
/// - each part spans the area across the split and lies within it along the
///   split (every segment boundary is held between the area's start and end by
///   a required constraint, and a part runs from one boundary to the next, or
///   is empty);
/// - when the sizes are `Length`s and at most one `Min` that fit in the area
///   (which does not reach the last cell of the screen's coordinates), each
///   `Length` part gets exactly its length, the `Min` part the rest, and the
///   parts follow one another from the area's start. In the solver the spacers
///   between parts are held at zero more strongly than lengths are held, the
///   lengths more strongly than the `Min` part grows, and that growth more
///   strongly than the trailing spacer's; all of these can hold at once here.
/// - when the sizes are all `Percentage`s adding up to at most 100 (in an area
///   that does not reach the last cell of the screen's coordinates), the
///   boundary before part `i` is the area's start plus `room * P / 100`, `P`
///   the percentages before it, rounded to the nearest cell, halves up. The
///   spacers are held at zero and each percentage more strongly than the
///   trailing spacer grows, so every percentage is met exactly; ratatui then
///   rounds each boundary (`changes_to_rects`).
/// Mixtures of `Percentage`s with other sizes, and sizes that do not fit, are
/// left to the solver: where sizes conflict it breaks ties in an order that
/// differs from one solver to the next.
#[verifier::external_body]
fn split_area(area: Area, direction: SplitDirection, constraints: &Vec<Extent>) -> (res: Vec<Area>)
    ensures
        res@.len() == constraints@.len(),
        forall|i: int| 0 <= i < res@.len() ==> part_of(#[trigger] res@[i], area, direction),
        origin(area, direction) + room(area, direction) <= u16::MAX && settles(
            constraints@,
            room(area, direction),
        ) ==> forall|i: int|
            0 <= i < res@.len() ==> placed(
                #[trigger] res@[i],
                area,
                direction,
                settled_offset(constraints@, room(area, direction), i),
                settled_len(constraints@[i], constraints@, room(area, direction)),
            ),
        origin(area, direction) + room(area, direction) <= u16::MAX && all_percentages(constraints@)
            && percent_before(constraints@, constraints@.len() as int) <= 100 ==> forall|i: int|
            0 <= i < res@.len() ==> placed(
                #[trigger] res@[i],
                area,
                direction,
                percent_boundary(constraints@, room(area, direction), i),
                (percent_boundary(constraints@, room(area, direction), i + 1) - percent_boundary(
                    constraints@,
                    room(area, direction),
                    i,
                )) as nat,
            ),
{
    let dir = match direction {
        SplitDirection::Horizontal => Direction::Horizontal,
        SplitDirection::Vertical => Direction::Vertical,
    };
    let sizes = constraints.iter().map(|c| match *c {
        Extent::Length(n) => Constraint::Length(n),
        Extent::Min(n) => Constraint::Min(n),
        Extent::Percentage(n) => Constraint::Percentage(n),
    });
    let rect = Rect { x: area.x, y: area.y, width: area.width, height: area.height };
    let parts = Layout::default().direction(dir).constraints(sizes).split(rect);
    parts.iter().map(|r| Area { x: r.x, y: r.y, width: r.width, height: r.height }).collect()
}

/// The rows of the vertical split that centres `height` rows in `area_height`:
/// equal margins above and below.
pub fn centre_rows(area_height: u16, height: u16) -> (res: Vec<Extent>)
    requires
        height <= area_height,
    ensures
        res@ == seq![
            Extent::Length(((area_height - height) / 2) as u16),
            Extent::Length(height),
            Extent::Length(((area_height - height) / 2) as u16),
        ],
{
    let margin = (area_height - height) / 2;
    vec![Extent::Length(margin), Extent::Length(height), Extent::Length(margin)]
}

/// The columns of the horizontal split that centres `percent_x` percent.
pub fn centre_columns(percent_x: u16) -> (res: Vec<Extent>)
    requires
        percent_x <= 100,
    ensures
        res@ == seq![
            Extent::Percentage(((100 - percent_x) / 2) as u16),
            Extent::Percentage(percent_x),
            Extent::Percentage(((100 - percent_x) / 2) as u16),
        ],
{
    let side = (100 - percent_x) / 2;
    vec![Extent::Percentage(side), Extent::Percentage(percent_x), Extent::Percentage(side)]
}

/// A popup area of `height` rows and `percent_x` percent of the width,
/// centred in `area`: the middle part of a vertical split of `area` by
/// `centre_rows`, split across by `centre_columns`. The popup lies within
/// `area`; it is `height` rows high and starts halfway down the rows it
/// leaves; its columns run from `side` percent of the width to `side +
/// percent_x` percent, rounded to the nearest cell, with `side` the
/// `(100 - percent_x) / 2` percent left on each side.
pub fn centered_rect(percent_x: u16, height: u16, area: Area) -> (res: Area)
    requires
        height <= area.height,
        percent_x <= 100,
    ensures
        within(res, area),
        area.y + area.height <= u16::MAX ==> res.height == height && res.y == area.y + (
        area.height - height) / 2,
        ({
            let side = (100 - percent_x) / 2;
            area.x + area.width <= u16::MAX ==> {
                &&& res.x == area.x + (area.width * side + 50) / 100
                &&& res.x + res.width == area.x + (area.width * (side + percent_x) + 50) / 100
            }
        }),
{
    let rows = centre_rows(area.height, height);
    proof {
        reveal_with_fuel(asked_total, 4);
        reveal_with_fuel(min_count, 4);
        reveal_with_fuel(settled_offset, 3);
        assert(rows@.drop_last().drop_last().drop_last() =~= Seq::<Extent>::empty());
    }
    let popup_layout = split_area(area, SplitDirection::Vertical, &rows);
    let band = popup_layout[1];
    assert(part_of(popup_layout@[1], area, SplitDirection::Vertical));
    let columns = centre_columns(percent_x);
    proof {
        reveal_with_fuel(percent_before, 4);
        let side = (100 - percent_x) / 2;
        assert(percent_before(columns@, 1) == side);
        assert(percent_before(columns@, 2) == side + percent_x);
        assert(percent_before(columns@, 3) == side + percent_x + side);
    }
    assert(all_percentages(columns@));
    let parts = split_area(band, SplitDirection::Horizontal, &columns);
    assert(part_of(parts@[1], band, SplitDirection::Horizontal));
    proof {
        let side = (100 - percent_x) / 2;
        let w = area.width as nat;
        assert(band.x == area.x && band.width == area.width);
        assert(w * side <= w * (side + percent_x)) by (nonlinear_arith);
        assert((w * side + 50) / 100 <= (w * (side + percent_x) + 50) / 100) by (nonlinear_arith)
            requires
                w * side <= w * (side + percent_x),
        ;
        assert(percent_boundary(columns@, w, 1) == (w * side + 50) / 100);
        assert(percent_boundary(columns@, w, 2) == (w * (side + percent_x) + 50) / 100);
        if area.x + area.width <= u16::MAX {
            assert(placed(
                parts@[1],
                band,
                SplitDirection::Horizontal,
                percent_boundary(columns@, w, 1),
                (percent_boundary(columns@, w, 2) - percent_boundary(columns@, w, 1)) as nat,
            ));
        }
    }
    parts[1]
}

/// The sizes of the screen's bands: header 3 rows, content at least 10, footer 3.
pub fn screen_constraints() -> (res: Vec<Extent>)
    ensures
        res@ == seq![Extent::Length(3), Extent::Min(10), Extent::Length(3)],
{
    vec![Extent::Length(3), Extent::Min(10), Extent::Length(3)]
}

/// The three bands of the screen, split by `screen_constraints`: each the full
/// width of `area` and within it; from 16 rows on, 3 rows of header, the
/// content, and 3 rows of footer, one after another.
pub fn screen_sections(area: Area) -> (res: Vec<Area>)
    ensures
        res@.len() == 3,
        forall|i: int| 0 <= i < 3 ==> part_of(#[trigger] res@[i], area, SplitDirection::Vertical),
        area.height >= 16 && area.y + area.height <= u16::MAX ==> {
            &&& res@[0].y == area.y && res@[0].height == 3
            &&& res@[1].y == area.y + 3 && res@[1].height == area.height - 6
            &&& res@[2].y == area.y + area.height - 3 && res@[2].height == 3
        },
{
    let sizes = screen_constraints();
    proof {
        reveal_with_fuel(asked_total, 4);
        reveal_with_fuel(lengths_total, 4);
        reveal_with_fuel(min_count, 4);
        reveal_with_fuel(settled_offset, 3);
        assert(sizes@.drop_last().drop_last().drop_last() =~= Seq::<Extent>::empty());
    }
    split_area(area, SplitDirection::Vertical, &sizes)
}

/// The sizes of the header's parts: the title at least 20 columns, the issue
/// count 30.
pub fn header_constraints() -> (res: Vec<Extent>)
    ensures
        res@ == seq![Extent::Min(20), Extent::Length(30)],
{
    vec![Extent::Min(20), Extent::Length(30)]
}

/// The two parts of the header, split by `header_constraints`: each the full
/// height of `area` and within it; from 50 columns on, the title takes all but
/// the last 30 columns, which show the issue count.
pub fn header_sections(area: Area) -> (res: Vec<Area>)
    ensures
        res@.len() == 2,
        forall|i: int| 0 <= i < 2 ==> part_of(#[trigger] res@[i], area, SplitDirection::Horizontal),
        area.width >= 50 && area.x + area.width <= u16::MAX ==> {
            &&& res@[0].x == area.x && res@[0].width == area.width - 30
            &&& res@[1].x == area.x + area.width - 30 && res@[1].width == 30
        },
{
    let sizes = header_constraints();
    proof {
        reveal_with_fuel(asked_total, 3);
        reveal_with_fuel(lengths_total, 3);
        reveal_with_fuel(min_count, 3);
        reveal_with_fuel(settled_offset, 2);
        assert(sizes@.drop_last().drop_last() =~= Seq::<Extent>::empty());
    }
    split_area(area, SplitDirection::Horizontal, &sizes)
}

/// The sizes of the detail view's bands: title 4 rows, metadata 3,
/// description at least 10, and the links box of `links_height` rows where
/// there is one.
pub fn detail_constraints(links_height: Option<u16>) -> (res: Vec<Extent>)
    ensures
        res@ == match links_height {
            Some(h) => seq![Extent::Length(4), Extent::Length(3), Extent::Min(10), Extent::Length(h)],
            None => seq![Extent::Length(4), Extent::Length(3), Extent::Min(10)],
        },
{
    let mut sizes = vec![Extent::Length(4), Extent::Length(3), Extent::Min(10)];
    if let Some(h) = links_height {
        sizes.push(Extent::Length(h));
    }
    sizes
}

/// The bands of the detail view, split by `detail_constraints`: each the full
/// width of `area` and within it; when they fit, title, metadata, description
/// and links box follow one another, the description taking what the others
/// leave.
pub fn detail_sections(area: Area, links_height: Option<u16>) -> (res: Vec<Area>)
    ensures
        res@.len() == if links_height is Some { 4int } else { 3int },
        forall|i: int| 0 <= i < res@.len() ==> part_of(#[trigger] res@[i], area, SplitDirection::Vertical),
        ({
            let links: nat = match links_height {
                Some(h) => h as nat,
                None => 0,
            };
            area.height >= 17 + links && area.y + area.height <= u16::MAX ==> {
                &&& res@[0].y == area.y && res@[0].height == 4
                &&& res@[1].y == area.y + 4 && res@[1].height == 3
                &&& res@[2].y == area.y + 7 && res@[2].height == area.height - 7 - links
                &&& links_height is Some ==> res@[3].y == area.y + area.height - links
                    && res@[3].height == links
            }
        }),
{
    let sizes = detail_constraints(links_height);
    proof {
        reveal_with_fuel(asked_total, 5);
        reveal_with_fuel(lengths_total, 5);
        reveal_with_fuel(min_count, 5);
        reveal_with_fuel(settled_offset, 4);
        if links_height is Some {
            assert(sizes@.drop_last().drop_last().drop_last().drop_last() =~= Seq::<Extent>::empty());
        } else {
            assert(sizes@.drop_last().drop_last().drop_last() =~= Seq::<Extent>::empty());
        }
    }
    split_area(area, SplitDirection::Vertical, &sizes)
}

/// The area of a popup's shadow: one cell more on every side, clipped at the
/// top and left edges of the screen.
pub open spec fn shadow_of(a: Area) -> Area {
    Area {
        x: if a.x >= 1 { (a.x - 1) as u16 } else { 0 },
        y: if a.y >= 1 { (a.y - 1) as u16 } else { 0 },
        width: (a.width + 2) as u16,
        height: (a.height + 2) as u16,
    }
}

/// The area of a popup's shadow.
pub fn shadow_area(a: Area) -> (res: Area)
    requires
        a.width + 2 <= u16::MAX,
        a.height + 2 <= u16::MAX,
    ensures
        res == shadow_of(a),
{
    Area {
        x: a.x.saturating_sub(1),
        y: a.y.saturating_sub(1),
        width: a.width + 2,
        height: a.height + 2,
    }
}

/// The text area inside a popup's frame: one cell of padding on every side.
pub open spec fn padded_of(a: Area) -> Area {
    Area {
        x: (a.x + 1) as u16,
        y: (a.y + 1) as u16,
        width: if a.width >= 2 { (a.width - 2) as u16 } else { 0 },
        height: if a.height >= 2 { (a.height - 2) as u16 } else { 0 },
    }
}

/// The text area inside a popup's frame.
pub fn padded_area(a: Area) -> (res: Area)
    requires
        a.x + 1 <= u16::MAX,
        a.y + 1 <= u16::MAX,
    ensures
        res == padded_of(a),
{
    Area { x: a.x + 1, y: a.y + 1, width: a.width.saturating_sub(2), height: a.height.saturating_sub(2) }
}

/// The last row of an area (the first, for an area without rows), where a
/// popup shows its key help.
pub open spec fn bottom_row_of(a: Area) -> Area {
    Area {
        x: a.x,
        y: (a.y + if a.height >= 1 { a.height - 1 } else { 0 }) as u16,
        width: a.width,
        height: 1,
    }
}

/// The last row of an area.
pub fn bottom_row(a: Area) -> (res: Area)
    requires
        a.y + a.height <= u16::MAX + 1,
    ensures
        res == bottom_row_of(a),
{
    Area { x: a.x, y: a.y + a.height.saturating_sub(1), width: a.width, height: 1 }
}

} // verus!
