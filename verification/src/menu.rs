use vstd::prelude::*;
use crate::status::{Status, not_ready_code, lemma_not_ready_is_not_success};
use crate::firmware::InputKey;

verus! {

/// The scan code of the up arrow key.
pub const SCAN_UP: u16 = 0x01;

/// The scan code of the down arrow key.
pub const SCAN_DOWN: u16 = 0x02;

/// The character code of the enter key.
pub const CHAR_ENTER: u16 = 0x0D;

/// Light grey on black: the attribute of ordinary text.
pub const COLOR_DEFAULT: usize = 0x07;

/// Black on light grey: the attribute of the highlighted option.
pub const COLOR_HIGHLIGHT: usize = 0x70;

/// How many options the menu offers.
pub const OPTION_COUNT: usize = 2;

/// The option that is selected when the menu first appears.
pub const FIRST_OPTION: usize = 0;

/// The option that boots the kernel.
pub const OPTION_BOOT: usize = 0;

/// The option that powers the machine off.
pub const OPTION_POWER_OFF: usize = 1;

/// One operation on the text screen.
#[derive(Clone, Copy, Debug)]
pub enum ScreenOp {
    /// Sets the colours of what follows.
    SetAttribute(usize),
    /// Clears the screen.
    ClearScreen,
    /// Writes a text through the console.
    Text(&'static str),
}

/// The label of each option, padded to the same width.
pub open spec fn option_label(i: int) -> &'static str {
    if i == 0 {
        "Boot Linux Kernel "
    } else {
        "Poweroff System   "
    }
}

/// The label of option `i`.
pub fn menu_option(i: usize) -> (label: &'static str)
    requires
        i < OPTION_COUNT,
    ensures
        label == option_label(i as int),
{
    if i == 0 {
        "Boot Linux Kernel "
    } else {
        "Poweroff System   "
    }
}

/// Sets the default colours and clears the screen: how every drawing of the menu starts,
/// and how the screen is left once an option is chosen.
pub open spec fn clear_ops() -> Seq<ScreenOp> {
    seq![ScreenOp::SetAttribute(COLOR_DEFAULT), ScreenOp::ClearScreen]
}

/// The title above the options.
pub open spec fn header_ops() -> Seq<ScreenOp> {
    seq![
        ScreenOp::Text("\n\n"),
        ScreenOp::Text("    ----------------------------------------\n"),
        ScreenOp::Text("            Aaah, lazy. Time to boot        \n"),
        ScreenOp::Text("    ----------------------------------------\n\n"),
    ]
}

/// The line of option `i`: indented in the default colours, its label highlighted when it
/// is the selected one.
pub open spec fn option_ops(i: int, selected: int) -> Seq<ScreenOp> {
    seq![ScreenOp::SetAttribute(COLOR_DEFAULT), ScreenOp::Text("    ")] + (if i == selected {
        seq![
            ScreenOp::SetAttribute(COLOR_HIGHLIGHT),
            ScreenOp::Text(option_label(i)),
            ScreenOp::SetAttribute(COLOR_DEFAULT),
        ]
    } else {
        seq![ScreenOp::Text(option_label(i))]
    }) + seq![ScreenOp::Text("\n")]
}

/// The help line below the options.
pub open spec fn footer_ops() -> Seq<ScreenOp> {
    seq![ScreenOp::Text("\n    [ UP / DOWN: Navigation ] | [ ENTER: Chose ]\n")]
}

/// The whole screen of the menu with option `selected` highlighted.
pub open spec fn menu_screen(selected: int) -> Seq<ScreenOp> {
    clear_ops() + header_ops() + option_ops(0, selected) + option_ops(1, selected) + footer_ops()
}

/// The operations that clear the screen in the default colours.
pub fn clear_screen_ops() -> (ops: Vec<ScreenOp>)
    ensures
        ops@ == clear_ops(),
{
    let mut ops: Vec<ScreenOp> = Vec::new();
    ops.push(ScreenOp::SetAttribute(COLOR_DEFAULT));
    ops.push(ScreenOp::ClearScreen);
    assert(ops@ =~= clear_ops());
    ops
}

/// The operations that draw the menu with option `selected` highlighted.
pub fn render_menu(selected: usize) -> (ops: Vec<ScreenOp>)
    ensures
        ops@ == menu_screen(selected as int),
        selected < OPTION_COUNT ==> ops@[label_index(0, selected as int)] == ScreenOp::Text(
            "Boot Linux Kernel ",
        ),
        selected < OPTION_COUNT ==> ops@[label_index(1, selected as int)] == ScreenOp::Text(
            "Poweroff System   ",
        ),
{
    let mut ops = clear_screen_ops();
    ops.push(ScreenOp::Text("\n\n"));
    ops.push(ScreenOp::Text("    ----------------------------------------\n"));
    ops.push(ScreenOp::Text("            Aaah, lazy. Time to boot        \n"));
    ops.push(ScreenOp::Text("    ----------------------------------------\n\n"));
    assert(ops@ =~= clear_ops() + header_ops());
    let mut i: usize = 0;
    while i < OPTION_COUNT
        invariant
            i <= OPTION_COUNT,
            ops@ == clear_ops() + header_ops() + (if i == 0 {
                Seq::empty()
            } else if i == 1 {
                option_ops(0, selected as int)
            } else {
                option_ops(0, selected as int) + option_ops(1, selected as int)
            }),
        decreases OPTION_COUNT - i,
    {
        let ghost prev = ops@;
        ops.push(ScreenOp::SetAttribute(COLOR_DEFAULT));
        ops.push(ScreenOp::Text("    "));
        if i == selected {
            ops.push(ScreenOp::SetAttribute(COLOR_HIGHLIGHT));
            ops.push(ScreenOp::Text(menu_option(i)));
            ops.push(ScreenOp::SetAttribute(COLOR_DEFAULT));
        } else {
            ops.push(ScreenOp::Text(menu_option(i)));
        }
        ops.push(ScreenOp::Text("\n"));
        assert(ops@ =~= prev + option_ops(i as int, selected as int));
        i = i + 1;
    }
    ops.push(ScreenOp::Text("\n    [ UP / DOWN: Navigation ] | [ ENTER: Chose ]\n"));
    assert(ops@ =~= menu_screen(selected as int));
    proof {
        if selected < OPTION_COUNT {
            lemma_each_line_shows_its_label(selected);
        }
    }
    ops
}

/// What the menu does with the answer to one attempt to read a key.
#[derive(PartialEq, Eq, Structural, Clone, Copy, Debug)]
pub enum MenuAction {
    /// No key is waiting yet: pause briefly, then read again.
    Pause,
    /// The answer changes nothing: read again.
    ReadAgain,
    /// Draw the menu again with this option selected.
    Redraw(usize),
    /// This option is chosen: clear the screen and leave the menu with it.
    Choose(usize),
}

/// The menu's answer to a key read with `status` while `selected` is the selected option.
pub open spec fn menu_response(selected: usize, status: Status, key: InputKey) -> MenuAction {
    if status.0 == 0 {
        if key.scan_code == SCAN_UP {
            MenuAction::Redraw(if selected > 0 { (selected - 1) as usize } else { selected })
        } else if key.scan_code == SCAN_DOWN {
            MenuAction::Redraw(
                if selected < OPTION_COUNT - 1 { (selected + 1) as usize } else { selected },
            )
        } else if key.unicode_char == CHAR_ENTER {
            MenuAction::Choose(selected)
        } else {
            MenuAction::ReadAgain
        }
    } else if status.0 == not_ready_code() {
        MenuAction::Pause
    } else {
        MenuAction::ReadAgain
    }
}

/// Decides what the menu does with the answer to one attempt to read a key.
pub fn menu_key(selected: usize, status: Status, key: InputKey) -> (action: MenuAction)
    ensures
        action == menu_response(selected, status, key),
        selected < OPTION_COUNT ==> (action matches MenuAction::Redraw(n) ==> n < OPTION_COUNT),
        selected < OPTION_COUNT ==> (action matches MenuAction::Choose(n) ==> n < OPTION_COUNT),
{
    proof {
        lemma_not_ready_is_not_success();
    }
    if status == Status::not_ready() {
        return MenuAction::Pause;
    }
    if status == Status::success() {
        if key.scan_code == SCAN_UP {
            let mut next = selected;
            if next > 0 {
                next = next - 1;
            }
            return MenuAction::Redraw(next);
        } else if key.scan_code == SCAN_DOWN {
            let mut next = selected;
            if next < OPTION_COUNT - 1 {
                next = next + 1;
            }
            return MenuAction::Redraw(next);
        } else if key.unicode_char == CHAR_ENTER {
            return MenuAction::Choose(selected);
        }
    }
    MenuAction::ReadAgain
}

/// A key stroke with this scan code and character.
pub open spec fn key(scan_code: u16, unicode_char: u16) -> InputKey {
    InputKey { scan_code, unicode_char }
}

/// Moving down and then up, or up and then down, comes back to where it started whenever
/// the first move changed the selection.
pub proof fn lemma_up_down_undo(selected: usize, moved: usize, c1: u16, c2: u16)
    requires
        selected < OPTION_COUNT,
        moved != selected,
    ensures
        menu_response(selected, Status(0), key(SCAN_DOWN, c1)) == MenuAction::Redraw(moved)
            ==> menu_response(moved, Status(0), key(SCAN_UP, c2)) == MenuAction::Redraw(selected),
        menu_response(selected, Status(0), key(SCAN_UP, c1)) == MenuAction::Redraw(moved)
            ==> menu_response(moved, Status(0), key(SCAN_DOWN, c2)) == MenuAction::Redraw(selected),
{
}

/// The selection stops at the ends of the list: up on the first option and down on the
/// last keep them selected.
pub proof fn lemma_navigation_stops_at_ends(c: u16)
    ensures
        menu_response(0, Status(0), key(SCAN_UP, c)) == MenuAction::Redraw(0),
        menu_response((OPTION_COUNT - 1) as usize, Status(0), key(SCAN_DOWN, c))
            == MenuAction::Redraw((OPTION_COUNT - 1) as usize),
{
}

/// A read that does not succeed never moves the selection and never chooses: the menu
/// pauses when no key is waiting, and otherwise reads again.
pub proof fn lemma_failed_read_changes_nothing(selected: usize, status: Status, k: InputKey)
    requires
        status.0 != 0,
    ensures
        menu_response(selected, status, k) == (if status.0 == not_ready_code() {
            MenuAction::Pause
        } else {
            MenuAction::ReadAgain
        }),
{
}

/// Enter chooses the option that is selected, and only enter chooses.
pub proof fn lemma_enter_chooses_selected(selected: usize, status: Status, k: InputKey)
    ensures
        menu_response(selected, status, k) matches MenuAction::Choose(n) ==> n == selected
            && status.0 == 0 && k.unicode_char == CHAR_ENTER,
        status.0 == 0 && k.scan_code != SCAN_UP && k.scan_code != SCAN_DOWN && k.unicode_char
            == CHAR_ENTER ==> menu_response(selected, status, k) == MenuAction::Choose(selected),
{
}

/// The index in the menu screen of the label of option `i` when `selected` is highlighted.
pub open spec fn label_index(i: int, selected: int) -> int {
    if i == 0 {
        if selected == 0 {
            9
        } else {
            8
        }
    } else {
        if selected == 0 {
            14
        } else {
            13
        }
    }
}

/// Whatever option is selected, the first line of options shows "Boot Linux Kernel " and the
/// second "Poweroff System   ": every option's line shows its own label.
pub proof fn lemma_each_line_shows_its_label(selected: usize)
    requires
        selected < OPTION_COUNT,
    ensures
        ({
            let ops = menu_screen(selected as int);
            &&& ops.len() == 17
            &&& ops[label_index(0, selected as int)] == ScreenOp::Text("Boot Linux Kernel ")
            &&& ops[label_index(1, selected as int)] == ScreenOp::Text("Poweroff System   ")
        }),
{
    let ops = menu_screen(selected as int);
    if selected == 0 {
        assert(ops.len() == 17);
        assert(ops[9] == option_ops(0, 0)[3]);
        assert(ops[14] == option_ops(1, 0)[2]);
    } else {
        assert(ops.len() == 17);
        assert(ops[8] == option_ops(0, 1)[2]);
        assert(ops[13] == option_ops(1, 1)[3]);
    }
}

/// The index in the menu screen where the highlight colour is set.
pub open spec fn highlight_index(selected: int) -> int {
    if selected == 0 {
        8
    } else {
        12
    }
}

/// The drawn menu sets the highlight colour exactly once, right before the label of the
/// selected option, and goes back to the default colours right after it.
pub proof fn lemma_only_selected_highlighted(selected: usize)
    requires
        selected < OPTION_COUNT,
    ensures
        ({
            let ops = menu_screen(selected as int);
            let k = highlight_index(selected as int);
            &&& 0 <= k && k + 2 < ops.len()
            &&& ops[k] == ScreenOp::SetAttribute(COLOR_HIGHLIGHT)
            &&& ops[k + 1] == ScreenOp::Text(option_label(selected as int))
            &&& ops[k + 2] == ScreenOp::SetAttribute(COLOR_DEFAULT)
            &&& forall|j: int|
                0 <= j < ops.len() && ops[j] == ScreenOp::SetAttribute(COLOR_HIGHLIGHT) ==> j == k
        }),
{
    let ops = menu_screen(selected as int);
    if selected == 0 {
        assert(ops =~= seq![
            ScreenOp::SetAttribute(COLOR_DEFAULT),
            ScreenOp::ClearScreen,
            ScreenOp::Text("\n\n"),
            ScreenOp::Text("    ----------------------------------------\n"),
            ScreenOp::Text("            Aaah, lazy. Time to boot        \n"),
            ScreenOp::Text("    ----------------------------------------\n\n"),
            ScreenOp::SetAttribute(COLOR_DEFAULT),
            ScreenOp::Text("    "),
            ScreenOp::SetAttribute(COLOR_HIGHLIGHT),
            ScreenOp::Text(option_label(0)),
            ScreenOp::SetAttribute(COLOR_DEFAULT),
            ScreenOp::Text("\n"),
            ScreenOp::SetAttribute(COLOR_DEFAULT),
            ScreenOp::Text("    "),
            ScreenOp::Text(option_label(1)),
            ScreenOp::Text("\n"),
            ScreenOp::Text("\n    [ UP / DOWN: Navigation ] | [ ENTER: Chose ]\n"),
        ]);
        assert forall|j: int|
            0 <= j < ops.len() && ops[j] == ScreenOp::SetAttribute(COLOR_HIGHLIGHT) implies j
            == highlight_index(selected as int) by {
            if j == 0 {
            } else if j == 1 {
            } else if j == 2 {
            } else if j == 3 {
            } else if j == 4 {
            } else if j == 5 {
            } else if j == 6 {
            } else if j == 7 {
            } else if j == 8 {
            } else if j == 9 {
            } else if j == 10 {
            } else if j == 11 {
            } else if j == 12 {
            } else if j == 13 {
            } else if j == 14 {
            } else if j == 15 {
            } else if j == 16 {
            }
        }
    } else {
        assert(ops =~= seq![
            ScreenOp::SetAttribute(COLOR_DEFAULT),
            ScreenOp::ClearScreen,
            ScreenOp::Text("\n\n"),
            ScreenOp::Text("    ----------------------------------------\n"),
            ScreenOp::Text("            Aaah, lazy. Time to boot        \n"),
            ScreenOp::Text("    ----------------------------------------\n\n"),
            ScreenOp::SetAttribute(COLOR_DEFAULT),
            ScreenOp::Text("    "),
            ScreenOp::Text(option_label(0)),
            ScreenOp::Text("\n"),
            ScreenOp::SetAttribute(COLOR_DEFAULT),
            ScreenOp::Text("    "),
            ScreenOp::SetAttribute(COLOR_HIGHLIGHT),
            ScreenOp::Text(option_label(1)),
            ScreenOp::SetAttribute(COLOR_DEFAULT),
            ScreenOp::Text("\n"),
            ScreenOp::Text("\n    [ UP / DOWN: Navigation ] | [ ENTER: Chose ]\n"),
        ]);
        assert forall|j: int|
            0 <= j < ops.len() && ops[j] == ScreenOp::SetAttribute(COLOR_HIGHLIGHT) implies j
            == highlight_index(selected as int) by {
            if j == 0 {
            } else if j == 1 {
            } else if j == 2 {
            } else if j == 3 {
            } else if j == 4 {
            } else if j == 5 {
            } else if j == 6 {
            } else if j == 7 {
            } else if j == 8 {
            } else if j == 9 {
            } else if j == 10 {
            } else if j == 11 {
            } else if j == 12 {
            } else if j == 13 {
            } else if j == 14 {
            } else if j == 15 {
            } else if j == 16 {
            }
        }
    }
}

} // verus!
