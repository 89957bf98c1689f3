use lib::firmware::InputKey;
use lib::menu::{
    clear_screen_ops, menu_key, menu_option, render_menu, MenuAction, ScreenOp, CHAR_ENTER,
    COLOR_DEFAULT, COLOR_HIGHLIGHT, SCAN_DOWN, SCAN_UP,
};
use lib::status::Status;

fn up() -> InputKey {
    InputKey { scan_code: SCAN_UP, unicode_char: 0 }
}

fn down() -> InputKey {
    InputKey { scan_code: SCAN_DOWN, unicode_char: 0 }
}

fn enter() -> InputKey {
    InputKey { scan_code: 0, unicode_char: CHAR_ENTER }
}

fn highlights(ops: &[ScreenOp]) -> Vec<usize> {
    let mut found = Vec::new();
    for (i, op) in ops.iter().enumerate() {
        if matches!(op, ScreenOp::SetAttribute(a) if *a == COLOR_HIGHLIGHT) {
            found.push(i);
        }
    }
    found
}

#[test]
fn option_labels() {
    assert_eq!(menu_option(0), "Boot Linux Kernel ");
    assert_eq!(menu_option(1), "Poweroff System   ");
}

#[test]
fn screen_starts_by_clearing() {
    let ops = render_menu(0);
    assert!(matches!(ops[0], ScreenOp::SetAttribute(a) if a == COLOR_DEFAULT));
    assert!(matches!(ops[1], ScreenOp::ClearScreen));
    assert_eq!(clear_screen_ops().len(), 2);
}

#[test]
fn first_option_highlighted() {
    let ops = render_menu(0);
    assert_eq!(ops.len(), 17);
    assert_eq!(highlights(&ops), vec![8]);
    assert!(matches!(ops[9], ScreenOp::Text(t) if t == "Boot Linux Kernel "));
    assert!(matches!(ops[10], ScreenOp::SetAttribute(a) if a == COLOR_DEFAULT));
}

#[test]
fn second_option_highlighted() {
    let ops = render_menu(1);
    assert_eq!(ops.len(), 17);
    assert_eq!(highlights(&ops), vec![12]);
    assert!(matches!(ops[13], ScreenOp::Text(t) if t == "Poweroff System   "));
    assert!(matches!(ops[8], ScreenOp::Text(t) if t == "Boot Linux Kernel "));
}

#[test]
fn screen_texts_in_order() {
    let ops = render_menu(1);
    let texts: Vec<&str> = ops
        .iter()
        .filter_map(|op| match op {
            ScreenOp::Text(t) => Some(*t),
            _ => None,
        })
        .collect();
    assert_eq!(
        texts.concat(),
        "\n\n    ----------------------------------------\n            Aaah, lazy. Time to boot        \n    ----------------------------------------\n\n    Boot Linux Kernel \n    Poweroff System   \n\n    [ UP / DOWN: Navigation ] | [ ENTER: Chose ]\n"
    );
}

#[test]
fn up_and_down_move_within_bounds() {
    let ok = Status::success();
    assert_eq!(menu_key(0, ok, up()), MenuAction::Redraw(0));
    assert_eq!(menu_key(0, ok, down()), MenuAction::Redraw(1));
    assert_eq!(menu_key(1, ok, down()), MenuAction::Redraw(1));
    assert_eq!(menu_key(1, ok, up()), MenuAction::Redraw(0));
}

#[test]
fn down_then_up_comes_back() {
    let ok = Status::success();
    if let MenuAction::Redraw(n) = menu_key(0, ok, down()) {
        assert_eq!(menu_key(n, ok, up()), MenuAction::Redraw(0));
    } else {
        panic!("down must redraw");
    }
}

#[test]
fn enter_chooses_selected() {
    let ok = Status::success();
    assert_eq!(menu_key(0, ok, enter()), MenuAction::Choose(0));
    assert_eq!(menu_key(1, ok, enter()), MenuAction::Choose(1));
}

#[test]
fn scan_code_wins_over_enter() {
    let ok = Status::success();
    let k = InputKey { scan_code: SCAN_DOWN, unicode_char: CHAR_ENTER };
    assert_eq!(menu_key(0, ok, k), MenuAction::Redraw(1));
}

#[test]
fn no_key_waiting_pauses() {
    assert_eq!(menu_key(1, Status::not_ready(), enter()), MenuAction::Pause);
}

#[test]
fn failed_read_is_ignored() {
    assert_eq!(menu_key(0, Status(7), down()), MenuAction::ReadAgain);
}

#[test]
fn other_key_is_ignored() {
    let k = InputKey { scan_code: 0, unicode_char: 'x' as u16 };
    assert_eq!(menu_key(1, Status::success(), k), MenuAction::ReadAgain);
}
