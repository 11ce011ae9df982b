use textpad::editor::{Editor, Event};
use textpad::paint::{font_height, FONT_FAMILY};
use textpad::shell::{LoopStep, MessagePump, CLASS_NAME, WINDOW_TITLE};
use textpad::wide::{encode_chars, wide_string, wide_string_term};

#[test]
fn empty_buffer_draws_only_the_caret() {
    let e = Editor::new();
    let plan = e.paint_plan(96);
    assert_eq!(plan.text, vec![0x7Cu16]);
    assert_eq!(plan.font_height, 24);
}

#[test]
fn paint_draws_text_then_caret() {
    let mut e = Editor::new();
    for c in "Hé😀".chars() {
        e.handle(Event::Char(c as u32));
    }
    let plan = e.paint_plan(144);
    assert_eq!(plan.text, vec![0x48, 0xE9, 0xD83D, 0xDE00, 0x7C]);
    assert_eq!(plan.font_height, 36);
}

#[test]
fn font_height_is_a_quarter_inch() {
    assert_eq!(font_height(0), 0);
    assert_eq!(font_height(96), 24);
    assert_eq!(font_height(120), 30);
    assert_eq!(font_height(97), 24);
    assert_eq!(font_height(99), 24);
    assert_eq!(font_height(u32::MAX), 1073741823);
}

#[test]
fn wide_strings_are_utf16() {
    assert_eq!(wide_string("Hi"), vec![0x48, 0x69]);
    assert_eq!(wide_string(""), Vec::<u16>::new());
    assert_eq!(wide_string("a😀"), vec![0x61, 0xD83D, 0xDE00]);
    assert_eq!(wide_string("\u{10FFFF}"), vec![0xDBFF, 0xDFFF]);
    assert_eq!(wide_string("\u{FFFF}"), vec![0xFFFF]);
    assert_eq!(encode_chars(&['x', '✓']), vec![0x78, 0x2713]);
}

#[test]
fn terminated_wide_strings_end_in_zero() {
    let expected: Vec<u16> = FONT_FAMILY.encode_utf16().chain(std::iter::once(0)).collect();
    assert_eq!(wide_string_term(FONT_FAMILY), expected);
    assert_eq!(wide_string_term(""), vec![0]);
    assert_eq!(wide_string_term(CLASS_NAME).len(), CLASS_NAME.len() + 1);
    assert_eq!(*wide_string_term(WINDOW_TITLE).last().unwrap(), 0);
}

#[test]
fn pump_forces_two_repaints_then_stops_on_quit() {
    let mut p = MessagePump::new();
    assert_eq!(p.next(1), LoopStep::Dispatch { force_repaint: true });
    assert_eq!(p.next(1), LoopStep::Dispatch { force_repaint: true });
    assert_eq!(p.next(1), LoopStep::Dispatch { force_repaint: false });
    assert_eq!(p.next(5), LoopStep::Dispatch { force_repaint: false });
    assert_eq!(p.next(0), LoopStep::Exit(0));
}

#[test]
fn pump_stops_on_error() {
    let mut p = MessagePump::new();
    assert_eq!(p.next(-1), LoopStep::Exit(-1));
    assert_eq!(p.next(1), LoopStep::Dispatch { force_repaint: true });
}
