use vstd::prelude::*;
use vstd::string::*;
use vstd::utf8::*;

use crate::model::{EditField, WorkflowState};
use crate::panels::same_text;
use crate::text::{byte_len, byte_prefix};

verus! {

broadcast use {vstd::utf8::encode_utf8_decode_utf8, vstd::utf8::encode_utf8_valid_utf8};

/// How a line of a menu or option list is drawn.
#[derive(Clone, Copy, Debug, PartialEq, Eq, Structural)]
pub enum ItemKind {
    /// An empty line.
    Blank,
    /// The entry under the cursor.
    Highlighted,
    /// The entry that holds the issue's current value.
    Current,
    /// Any other entry.
    Plain,
    /// A dimmed hint.
    Hint,
    /// A message that nothing can be chosen.
    Problem,
}

/// A line of a menu or option list.
pub struct MenuItem {
    pub text: String,
    pub kind: ItemKind,
}

/// The (text, kind) pairs of some menu lines.
pub open spec fn item_pairs(items: Seq<MenuItem>) -> Seq<(Seq<char>, ItemKind)> {
    items.map_values(|m: MenuItem| (m.text@, m.kind))
}

/// The editable fields, in menu order.
pub open spec fn edit_menu_name(index: nat) -> Seq<char> {
    if index == 0 {
        "Title"@
    } else if index == 1 {
        "Description"@
    } else if index == 2 {
        "Status"@
    } else if index == 3 {
        "Assignee"@
    } else {
        "Priority"@
    }
}

/// What the menu adds after a field's name: how it is edited.
pub open spec fn edit_menu_suffix(index: nat) -> Seq<char> {
    if index == 0 {
        ""@
    } else if index == 1 {
        " [Enter or E for editor]"@
    } else {
        " [select]"@
    }
}

/// The lines of the edit menu with entry `selected` under the cursor.
pub open spec fn edit_menu_spec(selected: nat) -> Seq<(Seq<char>, ItemKind)> {
    seq![(Seq::<char>::empty(), ItemKind::Blank)] + Seq::new(
        5,
        |i: int|
            if i == selected {
                (" › "@ + edit_menu_name(i as nat) + edit_menu_suffix(i as nat), ItemKind::Highlighted)
            } else {
                ("   "@ + edit_menu_name(i as nat) + edit_menu_suffix(i as nat), ItemKind::Plain)
            },
    ) + seq![
        (Seq::<char>::empty(), ItemKind::Blank),
        ("Use ↑/↓ to select, Enter to edit"@, ItemKind::Hint),
    ]
}

fn menu_entry(index: usize) -> (res: (&'static str, &'static str))
    requires
        index < 5,
    ensures
        res.0@ == edit_menu_name(index as nat),
        res.1@ == edit_menu_suffix(index as nat),
{
    if index == 0 {
        ("Title", "")
    } else if index == 1 {
        ("Description", " [Enter or E for editor]")
    } else if index == 2 {
        ("Status", " [select]")
    } else if index == 3 {
        ("Assignee", " [select]")
    } else {
        ("Priority", " [select]")
    }
}

/// The lines of the edit menu, with the field at `selected` under the cursor.
pub fn edit_menu_lines(selected: usize) -> (res: Vec<MenuItem>)
    ensures
        item_pairs(res@) == edit_menu_spec(selected as nat),
{
    let mut lines: Vec<MenuItem> = Vec::new();
    lines.push(MenuItem { text: String::new(), kind: ItemKind::Blank });
    let mut i: usize = 0;
    while i < 5
        invariant
            i <= 5,
            item_pairs(lines@) == edit_menu_spec(selected as nat).take(i + 1),
        decreases 5 - i,
    {
        let (name, suffix) = menu_entry(i);
        let (mut text, kind) = if i == selected {
            (" › ".to_owned(), ItemKind::Highlighted)
        } else {
            ("   ".to_owned(), ItemKind::Plain)
        };
        text.append(name);
        text.append(suffix);
        let ghost before = item_pairs(lines@);
        lines.push(MenuItem { text, kind });
        assert(item_pairs(lines@) =~= before.push(item_pairs(lines@).last()));
        assert(edit_menu_spec(selected as nat).take(i + 2) =~= edit_menu_spec(selected as nat).take(
            i + 1,
        ).push(edit_menu_spec(selected as nat)[i + 1]));
        i = i + 1;
    }
    let ghost mid = item_pairs(lines@);
    lines.push(MenuItem { text: String::new(), kind: ItemKind::Blank });
    lines.push(MenuItem { text: "Use ↑/↓ to select, Enter to edit".to_owned(), kind: ItemKind::Hint });
    let ghost tail = seq![
        (Seq::<char>::empty(), ItemKind::Blank),
        ("Use ↑/↓ to select, Enter to edit"@, ItemKind::Hint),
    ];
    assert(item_pairs(lines@) =~= mid + tail);
    assert(edit_menu_spec(selected as nat) =~= edit_menu_spec(selected as nat).take(6) + tail);
    lines
}

/// The name of an editable field.
pub open spec fn field_name_text(field: EditField) -> Seq<char> {
    match field {
        EditField::Title => "Title"@,
        EditField::Description => "Description"@,
        EditField::Status => "Status"@,
        EditField::Assignee => "Assignee"@,
        EditField::Priority => "Priority"@,
    }
}

/// The name of an editable field.
pub fn field_name(field: EditField) -> (res: &'static str)
    ensures
        res@ == field_name_text(field),
{
    match field {
        EditField::Title => "Title",
        EditField::Description => "Description",
        EditField::Status => "Status",
        EditField::Assignee => "Assignee",
        EditField::Priority => "Priority",
    }
}

/// The title of the window that edits `field`.
pub fn edit_field_title(field: EditField) -> (res: String)
    ensures
        res@ == "╭─ Edit "@ + field_name_text(field) + " ─╮"@,
{
    let mut t = "╭─ Edit ".to_owned();
    t.append(field_name(field));
    t.append(" ─╮");
    t
}

/// The text input of an overlay, split at the cursor.
pub enum InputView {
    /// Nothing typed yet.
    Empty,
    /// The text before the cursor, and the text after it if there is any.
    Typed { before: String, after: Option<String> },
}

/// The characters after the first `n` bytes of the encoding of `s`.
pub open spec fn byte_suffix(s: Seq<char>, n: nat) -> Seq<char> {
    decode_utf8(encode_utf8(s).skip(n as int))
}

/// `input` can be split at byte `cursor` (or is empty, and is not split).
pub open spec fn input_splittable(input: Seq<char>, cursor: nat) -> bool {
    input.len() == 0 || is_char_boundary(encode_utf8(input), cursor as int)
}

/// Splitting the input at the cursor loses nothing: the text before the
/// cursor followed by the text after it is the input, and the text before it
/// takes exactly `cursor` bytes.
pub proof fn lemma_input_split_rejoins(input: Seq<char>, cursor: nat)
    requires
        is_char_boundary(encode_utf8(input), cursor as int),
    ensures
        byte_prefix(input, cursor) + byte_suffix(input, cursor) == input,
        byte_len(byte_prefix(input, cursor)) == cursor,
{
    let bytes = encode_utf8(input);
    vstd::utf8::decode_utf8_split(bytes, cursor as int);
    vstd::utf8::valid_utf8_split(bytes, cursor as int);
    assert(bytes.subrange(0, cursor as int) =~= bytes.take(cursor as int));
    assert(bytes.subrange(cursor as int, bytes.len() as int) =~= bytes.skip(cursor as int));
    vstd::utf8::decode_utf8_encode_utf8(bytes.take(cursor as int));
}

/// The input split at byte `cursor`; `None` when the cursor is not on a
/// character boundary of a non-empty input.
pub fn input_view(input: &str, cursor: usize) -> (res: Option<InputView>)
    ensures
        res is Some <==> input_splittable(input@, cursor as nat),
        res matches Some(v) ==> match v {
            InputView::Empty => input@.len() == 0,
            InputView::Typed { before, after } => {
                &&& input@.len() > 0
                &&& before@ == byte_prefix(input@, cursor as nat)
                &&& match after {
                    Some(a) => a@ == byte_suffix(input@, cursor as nat) && a@.len() > 0,
                    None => byte_suffix(input@, cursor as nat).len() == 0,
                }
            },
        },
{
    if input.is_empty() {
        return Some(InputView::Empty);
    }
    if !input.is_char_boundary(cursor) {
        return None;
    }
    let (head, tail) = input.split_at(cursor);
    proof {
        let bytes = encode_utf8(input@);
        assert(bytes.subrange(0, cursor as int) =~= bytes.take(cursor as int));
        assert(bytes.subrange(cursor as int, bytes.len() as int) =~= bytes.skip(cursor as int));
        assert(decode_utf8(encode_utf8(head@)) == head@);
        assert(decode_utf8(encode_utf8(tail@)) == tail@);
    }
    let after = if tail.is_empty() { None } else { Some(tail.to_owned()) };
    Some(InputView::Typed { before: head.to_owned(), after })
}

/// Height of the option window for `field` when there are `state_count`
/// workflow states: room for the states and a frame, at most 20 lines.
pub open spec fn select_height_of(field: EditField, state_count: nat) -> u16 {
    match field {
        EditField::Status => (if state_count + 4 < 20 { state_count + 4 } else { 20 }) as u16,
        EditField::Priority => 9,
        _ => 10,
    }
}

/// Height of the option window.
pub fn select_popup_height(field: EditField, state_count: usize) -> (res: u16)
    requires
        state_count + 4 <= usize::MAX,
    ensures
        res == select_height_of(field, state_count as nat),
{
    match field {
        EditField::Status => {
            let h = state_count + 4;
            (if h < 20 { h } else { 20 }) as u16
        },
        EditField::Priority => 9,
        _ => 10,
    }
}

/// What the option window for `field` is titled.
pub open spec fn select_title_text(field: EditField) -> Seq<char> {
    "╭─ "@ + match field {
        EditField::Status => "Select Status"@,
        EditField::Priority => "Select Priority"@,
        _ => "Select Option"@,
    } + " ─╮"@
}

/// The title of the option window.
pub fn select_title(field: EditField) -> (res: String)
    ensures
        res@ == select_title_text(field),
{
    let mut t = "╭─ ".to_owned();
    match field {
        EditField::Status => t.append("Select Status"),
        EditField::Priority => t.append("Select Priority"),
        _ => t.append("Select Option"),
    }
    t.append(" ─╮");
    t
}

/// The priorities that can be chosen, in order.
pub open spec fn priority_choice(index: nat) -> Seq<char> {
    if index == 0 {
        "None"@
    } else if index == 1 {
        "Low"@
    } else if index == 2 {
        "Medium"@
    } else if index == 3 {
        "High"@
    } else {
        "Urgent"@
    }
}

/// The marker after the state that the issue is in.
pub open spec fn current_marker(state: Seq<char>, current: Option<Seq<char>>) -> Seq<char> {
    if current == Some(state) {
        " (current)"@
    } else {
        ""@
    }
}

/// The names of some workflow states.
pub open spec fn state_names(states: Seq<WorkflowState>) -> Seq<Seq<char>> {
    states.map_values(|s: WorkflowState| s.name@)
}

/// The entries of the option window for `field`: the workflow states (the
/// issue's own marked), or the priorities, with entry `option_index` under
/// the cursor.
pub open spec fn select_items_spec(
    field: EditField,
    states: Seq<Seq<char>>,
    current: Option<Seq<char>>,
    option_index: nat,
) -> Seq<(Seq<char>, ItemKind)> {
    match field {
        EditField::Status => if states.len() == 0 {
            seq![(" No workflow states available "@, ItemKind::Problem)]
        } else {
            Seq::new(
                states.len(),
                |i: int|
                    (
                        " "@ + states[i] + current_marker(states[i], current) + " "@,
                        if i == option_index {
                            ItemKind::Highlighted
                        } else if current_marker(states[i], current).len() > 0 {
                            ItemKind::Current
                        } else {
                            ItemKind::Plain
                        },
                    ),
            )
        },
        EditField::Priority => Seq::new(
            5,
            |i: int|
                (
                    " "@ + priority_choice(i as nat) + " "@,
                    if i == option_index { ItemKind::Highlighted } else { ItemKind::Plain },
                ),
        ),
        _ => Seq::empty(),
    }
}

/// In the status list, the entry under the cursor is highlighted, whether or
/// not it is the issue's current state; the current state is marked
/// " (current)" and, away from the cursor, shown as current; every other entry
/// is plain. Each entry shows its state's name between spaces.
pub proof fn lemma_status_list_cursor(
    states: Seq<Seq<char>>,
    current: Option<Seq<char>>,
    option_index: nat,
)
    requires
        states.len() > 0,
    ensures
        ({
            let items = select_items_spec(EditField::Status, states, current, option_index);
            &&& items.len() == states.len()
            &&& forall|i: int|
                0 <= i < items.len() ==> {
                    &&& (#[trigger] items[i].1 == ItemKind::Highlighted) <==> i == option_index
                    &&& (items[i].1 == ItemKind::Current) <==> (i != option_index && current
                        == Some(states[i]))
                    &&& (items[i].1 == ItemKind::Plain) <==> (i != option_index && current
                        != Some(states[i]))
                    &&& items[i].0 == " "@ + states[i] + (if current == Some(states[i]) {
                        " (current)"@
                    } else {
                        Seq::empty()
                    }) + " "@
                }
        }),
{
    reveal_strlit(" (current)");
    reveal_strlit("");
    let items = select_items_spec(EditField::Status, states, current, option_index);
    assert forall|i: int| 0 <= i < items.len() implies {
        &&& (#[trigger] items[i].1 == ItemKind::Highlighted) <==> i == option_index
        &&& (items[i].1 == ItemKind::Current) <==> (i != option_index && current == Some(states[i]))
        &&& (items[i].1 == ItemKind::Plain) <==> (i != option_index && current != Some(states[i]))
        &&& items[i].0 == " "@ + states[i] + (if current == Some(states[i]) {
            " (current)"@
        } else {
            Seq::empty()
        }) + " "@
    } by {
        assert(current_marker(states[i], current).len() > 0 <==> current == Some(states[i]));
        assert(""@ =~= Seq::<char>::empty());
    }
}

/// In the priority list, exactly the entry under the cursor is highlighted;
/// the entries are the five priorities in order.
pub proof fn lemma_priority_list_cursor(states: Seq<Seq<char>>, current: Option<Seq<char>>, option_index: nat)
    ensures
        ({
            let items = select_items_spec(EditField::Priority, states, current, option_index);
            &&& items.len() == 5
            &&& forall|i: int|
                0 <= i < 5 ==> {
                    &&& (#[trigger] items[i].1 == ItemKind::Highlighted) <==> i == option_index
                    &&& items[i].1 != ItemKind::Highlighted ==> items[i].1 == ItemKind::Plain
                }
            &&& forall|i: int| 0 <= i < 5 ==> #[trigger] items[i].0 == " "@ + priority_choice(i as nat) + " "@
            &&& priority_choice(0) == "None"@ && priority_choice(1) == "Low"@
            &&& priority_choice(2) == "Medium"@ && priority_choice(3) == "High"@
            &&& priority_choice(4) == "Urgent"@
        }),
{
}

/// In the edit menu, exactly the line of the field at `selected` is
/// highlighted and marked with " › "; the five fields come in the order
/// Title, Description, Status, Assignee, Priority, after a blank line.
pub proof fn lemma_edit_menu_cursor(selected: nat)
    ensures
        ({
            let lines = edit_menu_spec(selected);
            &&& lines.len() == 8
            &&& forall|i: int|
                1 <= i <= 5 ==> ((#[trigger] lines[i].1 == ItemKind::Highlighted) <==> i - 1
                    == selected)
            &&& forall|i: int|
                1 <= i <= 5 ==> #[trigger] lines[i].0 == (if i - 1 == selected {
                    " › "@
                } else {
                    "   "@
                }) + edit_menu_name((i - 1) as nat) + edit_menu_suffix((i - 1) as nat)
            &&& edit_menu_name(0) == "Title"@ && edit_menu_name(1) == "Description"@
            &&& edit_menu_name(2) == "Status"@ && edit_menu_name(3) == "Assignee"@
            &&& edit_menu_name(4) == "Priority"@
        }),
{
}

fn priority_entry(index: usize) -> (res: &'static str)
    requires
        index < 5,
    ensures
        res@ == priority_choice(index as nat),
{
    if index == 0 {
        "None"
    } else if index == 1 {
        "Low"
    } else if index == 2 {
        "Medium"
    } else if index == 3 {
        "High"
    } else {
        "Urgent"
    }
}

/// The entries of the option window; `current` is the state of the selected
/// issue, if an issue is selected.
pub fn select_items(
    field: EditField,
    states: &Vec<WorkflowState>,
    current: Option<&str>,
    option_index: usize,
) -> (res: Vec<MenuItem>)
    ensures
        item_pairs(res@) == select_items_spec(
            field,
            state_names(states@),
            match current {
                Some(c) => Some(c@),
                None => None,
            },
            option_index as nat,
        ),
{
    let ghost cur = match current {
        Some(c) => Some(c@),
        None => None::<Seq<char>>,
    };
    let mut items: Vec<MenuItem> = Vec::new();
    match field {
        EditField::Status => {
            if states.len() == 0 {
                items.push(
                    MenuItem {
                        text: " No workflow states available ".to_owned(),
                        kind: ItemKind::Problem,
                    },
                );
                assert(item_pairs(items@) =~= select_items_spec(
                    field,
                    state_names(states@),
                    cur,
                    option_index as nat,
                ));
                return items;
            }
            let ghost want = select_items_spec(field, state_names(states@), cur, option_index as nat);
            let mut i: usize = 0;
            while i < states.len()
                invariant
                    i <= states.len(),
                    states.len() > 0,
                    field == EditField::Status,
                    want == select_items_spec(field, state_names(states@), cur, option_index as nat),
                    cur == match current {
                        Some(c) => Some(c@),
                        None => None::<Seq<char>>,
                    },
                    item_pairs(items@) == want.take(i as int),
                decreases states.len() - i,
            {
                let name = states[i].name.as_str();
                let is_current = match current {
                    Some(c) => same_text(c, name),
                    None => false,
                };
                let mut text = " ".to_owned();
                text.append(name);
                if is_current {
                    text.append(" (current)");
                }
                text.append(" ");
                proof {
                    reveal_strlit(" (current)");
                    reveal_strlit("");
                }
                let kind = if i == option_index {
                    ItemKind::Highlighted
                } else if is_current {
                    ItemKind::Current
                } else {
                    ItemKind::Plain
                };
                let ghost before = item_pairs(items@);
                assert(state_names(states@)[i as int] == name@);
                if is_current {
                    assert(text@ =~= " "@ + name@ + " (current)"@ + " "@);
                } else {
                    assert(text@ =~= " "@ + name@ + ""@ + " "@);
                }
                items.push(MenuItem { text, kind });
                assert(item_pairs(items@) =~= before.push(item_pairs(items@).last()));
                assert(want.take(i + 1) =~= want.take(i as int).push(want[i as int]));
                i = i + 1;
            }
            assert(want.take(states.len() as int) =~= want);
        },
        EditField::Priority => {
            let ghost want = select_items_spec(field, state_names(states@), cur, option_index as nat);
            let mut i: usize = 0;
            while i < 5
                invariant
                    i <= 5,
                    field == EditField::Priority,
                    want == select_items_spec(field, state_names(states@), cur, option_index as nat),
                    item_pairs(items@) == want.take(i as int),
                decreases 5 - i,
            {
                let mut text = " ".to_owned();
                text.append(priority_entry(i));
                text.append(" ");
                let kind = if i == option_index { ItemKind::Highlighted } else { ItemKind::Plain };
                let ghost before = item_pairs(items@);
                items.push(MenuItem { text, kind });
                assert(item_pairs(items@) =~= before.push(item_pairs(items@).last()));
                assert(want.take(i + 1) =~= want.take(i as int).push(want[i as int]));
                i = i + 1;
            }
            assert(want.take(5) =~= want);
        },
        _ => {
            assert(item_pairs(items@) =~= select_items_spec(
                field,
                state_names(states@),
                cur,
                option_index as nat,
            ));
        },
    }
    items
}

} // verus!
