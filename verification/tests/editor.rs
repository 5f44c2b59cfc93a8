use mtx::editor::{is_control, Action, Editor, Key, Size};
use mtx::mappings::{Mappings, MoveOptions};
use mtx::Document;
use mtx::Mode;
use mtx::Position;

const SIZE: Size = Size { width: 20, height: 5 };

fn editor(text: &str) -> Editor {
    Editor::default(Some("file.txt"), Some(text), SIZE)
}

fn lines(editor: &Editor) -> Vec<String> {
    let doc = editor.document();
    let mut all = Vec::new();
    let mut y = 0;
    while let Some(row) = doc.row(y) {
        all.push(row.as_str().to_string());
        y += 1;
    }
    all
}

fn at(x: usize, y: usize) -> Position {
    Position { x, y }
}

fn press(editor: &mut Editor, keys: &str) {
    for c in keys.chars() {
        assert_eq!(editor.process_keypress(Key::Char(c)), Action::Continue);
    }
}

#[test]
fn editor_starts_in_normal_mode_at_the_origin() {
    let ed = editor("abc\ndef\n");
    assert_eq!(ed.mode(), Mode::Normal);
    assert_eq!(ed.cursor_position(), at(0, 0));
    assert_eq!(ed.offset(), at(0, 0));
    assert!(!ed.should_quit());
    assert_eq!(ed.status_message(), "HELP: Ctrl-Q = quit");
    assert_eq!(lines(&ed), vec!["abc", "def"]);
    assert_eq!(ed.document().file_name.as_deref(), Some("file.txt"));
    assert!(!ed.document().is_dirty());
}

#[test]
fn editor_without_a_file_is_empty_and_unnamed() {
    let ed = Editor::default(None, None, SIZE);
    assert!(ed.document().is_empty());
    assert!(ed.document().file_name.is_none());
    assert_eq!(ed.status_message(), "HELP: Ctrl-Q = quit");
    let ignored = Editor::default(None, Some("text"), SIZE);
    assert!(ignored.document().is_empty());
}

#[test]
fn editor_reports_a_file_that_could_not_be_read() {
    let ed = Editor::default(Some("missing.txt"), None, SIZE);
    assert!(ed.document().is_empty());
    assert!(ed.document().file_name.is_none());
    assert_eq!(ed.status_message(), "Err: could not open file missing.txt");
}

#[test]
fn editor_new_takes_document_and_status() {
    let ed = Editor::new(Document::open("a", "x\n"), "ready".to_string(), SIZE);
    assert_eq!(ed.status_message(), "ready");
    assert_eq!(lines(&ed), vec!["x"]);
    assert_eq!(ed.mode(), Mode::Normal);
}

#[test]
fn editor_quits_on_ctrl_q() {
    for keys in ["", "i", "v"] {
        let mut ed = editor("abc\n");
        press(&mut ed, keys);
        assert_eq!(ed.process_keypress(Key::Ctrl('q')), Action::Continue);
        assert!(ed.should_quit());
    }
}

#[test]
fn editor_normal_mode_movement() {
    let mut ed = editor("abc\ndefgh\n");
    press(&mut ed, "ll");
    assert_eq!(ed.cursor_position(), at(2, 0));
    // Normal mode rests on the last cluster.
    press(&mut ed, "l");
    assert_eq!(ed.cursor_position(), at(2, 0));
    press(&mut ed, "j");
    assert_eq!(ed.cursor_position(), at(2, 1));
    press(&mut ed, "j");
    assert_eq!(ed.cursor_position(), at(2, 1));
    press(&mut ed, "h");
    assert_eq!(ed.cursor_position(), at(1, 1));
    press(&mut ed, "k");
    assert_eq!(ed.cursor_position(), at(1, 0));
    ed.process_keypress(Key::Right);
    ed.process_keypress(Key::Down);
    ed.process_keypress(Key::Left);
    ed.process_keypress(Key::Up);
    assert_eq!(ed.cursor_position(), at(1, 0));
    ed.process_keypress(Key::Backspace);
    assert_eq!(ed.cursor_position(), at(0, 0));
    assert_eq!(ed.mode(), Mode::Normal);
    assert!(!ed.document().is_dirty());
}

#[test]
fn editor_mode_transitions() {
    let mut ed = editor("abc\n");
    press(&mut ed, "i");
    assert_eq!(ed.mode(), Mode::Insert);
    ed.process_keypress(Key::Ctrl('c'));
    assert_eq!(ed.mode(), Mode::Normal);
    press(&mut ed, "v");
    assert_eq!(ed.mode(), Mode::Visual);
    assert_eq!(ed.status_message(), "-- Visual Mode --");
    press(&mut ed, "v");
    assert_eq!(ed.mode(), Mode::Normal);
    press(&mut ed, "v");
    ed.process_keypress(Key::Ctrl('c'));
    assert_eq!(ed.mode(), Mode::Normal);
    // Insert mode has no way into visual mode: "v" is typed.
    press(&mut ed, "iv");
    assert_eq!(ed.mode(), Mode::Insert);
    assert_eq!(lines(&ed), vec!["vabc"]);
}

#[test]
fn editor_append_enters_insert_after_the_cursor() {
    let mut ed = editor("abc\n");
    press(&mut ed, "lla");
    assert_eq!(ed.mode(), Mode::Insert);
    assert_eq!(ed.cursor_position(), at(3, 0));
    press(&mut ed, "d");
    assert_eq!(lines(&ed), vec!["abcd"]);
    assert_eq!(ed.cursor_position(), at(4, 0));
}

#[test]
fn editor_typing_in_insert_mode() {
    let mut ed = Editor::default(None, None, SIZE);
    press(&mut ed, "ihello\nworld");
    assert_eq!(lines(&ed), vec!["hello", "world"]);
    assert_eq!(ed.cursor_position(), at(5, 1));
    assert!(ed.document().is_dirty());
    ed.process_keypress(Key::Backspace);
    assert_eq!(lines(&ed), vec!["hello", "worl"]);
    assert_eq!(ed.cursor_position(), at(4, 1));
    ed.process_keypress(Key::Left);
    ed.process_keypress(Key::Delete);
    assert_eq!(lines(&ed), vec!["hello", "wor"]);
    assert_eq!(ed.cursor_position(), at(3, 1));
}

#[test]
fn editor_return_splits_the_line_and_backspace_joins_it() {
    let mut ed = editor("hello world\n");
    press(&mut ed, "lllll");
    press(&mut ed, "i\n");
    assert_eq!(lines(&ed), vec!["hello", " world"]);
    assert_eq!(ed.cursor_position(), at(0, 1));
    ed.process_keypress(Key::Backspace);
    assert_eq!(lines(&ed), vec!["hello world"]);
    assert_eq!(ed.cursor_position(), at(5, 0));
}

#[test]
fn editor_x_deletes_under_the_cursor_and_clamps() {
    let mut ed = editor("abc\n");
    press(&mut ed, "llx");
    assert_eq!(lines(&ed), vec!["ab"]);
    assert_eq!(ed.cursor_position(), at(1, 0));
    press(&mut ed, "xx");
    assert_eq!(lines(&ed), vec![""]);
    assert_eq!(ed.cursor_position(), at(0, 0));
    press(&mut ed, "x");
    assert_eq!(lines(&ed), vec![""]);
}

#[test]
fn editor_dd_deletes_the_line() {
    let mut ed = editor("a\nb\nc\n");
    press(&mut ed, "jdd");
    assert_eq!(lines(&ed), vec!["a", "c"]);
    assert_eq!(ed.cursor_position(), at(0, 1));
    press(&mut ed, "dd");
    assert_eq!(lines(&ed), vec!["a"]);
    assert_eq!(ed.cursor_position(), at(0, 0));
    press(&mut ed, "dd");
    assert!(ed.document().is_empty());
    assert_eq!(ed.cursor_position(), at(0, 0));
    press(&mut ed, "dd");
    assert!(ed.document().is_empty());
}

#[test]
fn editor_d_then_another_key_does_nothing() {
    let mut ed = editor("a\nb\n");
    press(&mut ed, "dj");
    assert_eq!(lines(&ed), vec!["a", "b"]);
    assert_eq!(ed.cursor_position(), at(0, 0));
    // The prefix is used up: a single "d" does not delete now.
    press(&mut ed, "j");
    assert_eq!(ed.cursor_position(), at(0, 1));
    assert_eq!(lines(&ed), vec!["a", "b"]);
}

#[test]
fn editor_capital_d_and_j() {
    let mut ed = editor("hello world\nnext\n");
    press(&mut ed, "lllllD");
    assert_eq!(lines(&ed), vec!["hello", "next"]);
    assert_eq!(ed.cursor_position(), at(4, 0));
    press(&mut ed, "J");
    assert_eq!(lines(&ed), vec!["hellonext"]);
}

#[test]
fn editor_open_line_below_and_above() {
    let mut ed = editor("one\ntwo\n");
    press(&mut ed, "llo");
    assert_eq!(lines(&ed), vec!["one", "", "two"]);
    assert_eq!(ed.mode(), Mode::Insert);
    assert_eq!(ed.cursor_position(), at(0, 1));
    press(&mut ed, "x");
    assert_eq!(lines(&ed), vec!["one", "x", "two"]);
    ed.process_keypress(Key::Ctrl('c'));
    press(&mut ed, "jO");
    assert_eq!(lines(&ed), vec!["one", "x", "", "two"]);
    assert_eq!(ed.mode(), Mode::Insert);
}

#[test]
fn editor_visual_delete_across_lines() {
    let mut ed = editor("abcde\nfghij\nklmno\n");
    press(&mut ed, "llvjj");
    assert_eq!(ed.hl_text().start, at(2, 0));
    assert_eq!(ed.hl_text().end, at(2, 2));
    press(&mut ed, "x");
    assert_eq!(lines(&ed), vec!["abno"]);
    assert_eq!(ed.mode(), Mode::Normal);
    assert_eq!(ed.cursor_position(), at(2, 0));
    assert_eq!(ed.status_message(), "");
}

#[test]
fn editor_visual_delete_backwards_selection() {
    let mut ed = editor("abcde\nfghij\nklmno\n");
    press(&mut ed, "jjllvkk");
    assert_eq!(ed.hl_text().start, at(2, 2));
    assert_eq!(ed.hl_text().end, at(2, 0));
    press(&mut ed, "x");
    assert_eq!(lines(&ed), vec!["abno"]);
    assert_eq!(ed.cursor_position(), at(2, 0));
}

#[test]
fn editor_visual_selection_stays_on_clusters() {
    let mut ed = editor("abc\n");
    press(&mut ed, "vlll");
    assert_eq!(ed.cursor_position(), at(3, 0));
    assert_eq!(ed.hl_text().end, at(2, 0));
    press(&mut ed, "x");
    assert_eq!(lines(&ed), vec![""]);
    assert_eq!(ed.cursor_position(), at(0, 0));
}

#[test]
fn editor_paging_and_scrolling() {
    let mut text = String::new();
    for _ in 0..30 {
        text.push_str("x\n");
    }
    let mut ed = editor(&text);
    ed.process_keypress(Key::Ctrl('u'));
    assert_eq!(ed.cursor_position(), at(0, 5));
    assert_eq!(ed.offset(), at(0, 5));
    press(&mut ed, "jjjjjj");
    assert_eq!(ed.cursor_position(), at(0, 11));
    // The viewport of 5 rows follows: rows 7 to 11 are shown.
    assert_eq!(ed.offset(), at(0, 7));
    ed.process_keypress(Key::Ctrl('d'));
    assert_eq!(ed.cursor_position(), at(0, 6));
    assert_eq!(ed.offset(), at(0, 2));
    press(&mut ed, "kkkkkkk");
    assert_eq!(ed.cursor_position(), at(0, 0));
    assert_eq!(ed.offset(), at(0, 0));
}

#[test]
fn editor_scrolls_sideways() {
    let mut ed = editor("0123456789012345678901234567890123456789\n");
    ed.resize(Size { width: 10, height: 5 });
    for _ in 0..9 {
        press(&mut ed, "l");
    }
    assert_eq!(ed.offset(), at(0, 0));
    press(&mut ed, "l");
    assert_eq!(ed.cursor_position(), at(10, 0));
    assert_eq!(ed.offset(), at(1, 0));
    for _ in 0..10 {
        press(&mut ed, "h");
    }
    assert_eq!(ed.offset(), at(0, 0));
}

#[test]
fn editor_cursor_on_screen() {
    let mut ed = editor("abc\n\nlonger line here!!!!!!!!\n");
    press(&mut ed, "ll");
    assert_eq!(ed.cursor_on_screen(), at(2, 0));
    // On the empty line the cursor keeps its column but is shown at the end.
    press(&mut ed, "j");
    assert_eq!(ed.cursor_position(), at(2, 1));
    assert_eq!(ed.cursor_on_screen(), at(0, 1));
    press(&mut ed, "j");
    assert_eq!(ed.cursor_on_screen(), at(2, 2));
}

#[test]
fn editor_save_of_a_named_document() {
    let mut ed = editor("abc\n");
    press(&mut ed, "ix");
    ed.process_keypress(Key::Ctrl('c'));
    assert!(ed.document().is_dirty());
    press(&mut ed, " ");
    assert_eq!(ed.process_keypress(Key::Char('s')), Action::Save);
    assert_eq!(ed.mode(), Mode::Normal);
    assert_eq!(ed.save_target(), Some("file.txt".to_string()));
    assert_eq!(ed.document().contents(), "xabc\n");
    ed.finish_save(true);
    assert!(!ed.document().is_dirty());
    assert_eq!(ed.status_message(), "file.txt written");
}

#[test]
fn editor_failed_save_leaves_the_document_dirty() {
    let mut ed = editor("abc\n");
    press(&mut ed, "ix");
    assert_eq!(ed.process_keypress(Key::Ctrl('s')), Action::Save);
    ed.finish_save(false);
    assert!(ed.document().is_dirty());
    assert_eq!(ed.status_message(), "Error writing file");
    assert_eq!(ed.mode(), Mode::Insert);
    assert_eq!(lines(&ed), vec!["xabc"]);
}

#[test]
fn editor_save_of_an_unnamed_document_prompts_for_a_name() {
    let mut ed = Editor::default(None, None, SIZE);
    press(&mut ed, "ihi");
    assert_eq!(ed.process_keypress(Key::Ctrl('s')), Action::Continue);
    assert_eq!(ed.mode(), Mode::Command);
    assert_eq!(ed.status_message(), "Save as: ");
    press(&mut ed, "note.txT");
    assert_eq!(ed.status_message(), "Save as: note.txT");
    ed.process_keypress(Key::Backspace);
    press(&mut ed, "t");
    // Control codes and keys without a character are not part of the name.
    ed.process_keypress(Key::Char('\t'));
    ed.process_keypress(Key::Char('\u{7f}'));
    ed.process_keypress(Key::Left);
    ed.process_keypress(Key::Other);
    assert_eq!(ed.status_message(), "Save as: note.txt");
    assert_eq!(lines(&ed), vec!["hi"]);
    assert_eq!(ed.process_keypress(Key::Char('\n')), Action::Save);
    // The mode from before the prompt is back.
    assert_eq!(ed.mode(), Mode::Insert);
    assert_eq!(ed.document().file_name.as_deref(), Some("note.txt"));
    assert_eq!(ed.save_target(), Some("note.txt".to_string()));
    ed.finish_save(true);
    assert_eq!(ed.status_message(), "note.txt written");
    assert!(!ed.document().is_dirty());
}

#[test]
fn editor_save_as_writes_elsewhere_once() {
    let mut ed = editor("abc\n");
    press(&mut ed, " w");
    assert_eq!(ed.mode(), Mode::Command);
    assert_eq!(ed.status_message(), "Save as: ");
    press(&mut ed, "copy.txt");
    assert_eq!(ed.process_keypress(Key::Char('\n')), Action::Save);
    assert_eq!(ed.mode(), Mode::Normal);
    assert_eq!(ed.save_target(), Some("copy.txt".to_string()));
    assert_eq!(ed.document().file_name.as_deref(), Some("file.txt"));
    ed.finish_save(true);
    assert_eq!(ed.status_message(), "file.txt written");
    assert_eq!(ed.save_target(), Some("file.txt".to_string()));
}

#[test]
fn editor_prompt_can_be_aborted() {
    let mut ed = Editor::default(None, None, SIZE);
    press(&mut ed, " s");
    assert_eq!(ed.mode(), Mode::Command);
    press(&mut ed, "abc");
    assert_eq!(ed.process_keypress(Key::Ctrl('q')), Action::Continue);
    assert_eq!(ed.mode(), Mode::Normal);
    assert_eq!(ed.status_message(), "Save aborted");
    assert!(ed.document().file_name.is_none());
    assert!(!ed.should_quit());
    // An empty answer aborts as well, and restores insert mode.
    press(&mut ed, "i");
    ed.process_keypress(Key::Ctrl('w'));
    assert_eq!(ed.mode(), Mode::Command);
    assert_eq!(ed.process_keypress(Key::Char('\n')), Action::Continue);
    assert_eq!(ed.mode(), Mode::Insert);
    assert_eq!(ed.status_message(), "Save aborted");
}

#[test]
fn editor_prompt_backspace_on_empty_input() {
    let mut ed = Editor::default(None, None, SIZE);
    press(&mut ed, " s");
    ed.process_keypress(Key::Backspace);
    assert_eq!(ed.status_message(), "Save as: ");
    press(&mut ed, "\u{E9}");
    ed.process_keypress(Key::Backspace);
    assert_eq!(ed.status_message(), "Save as: ");
    assert_eq!(ed.mode(), Mode::Command);
}

#[test]
fn editor_leader_then_another_key_does_nothing() {
    let mut ed = editor("abc\n");
    press(&mut ed, " l");
    assert_eq!(ed.cursor_position(), at(0, 0));
    assert_eq!(ed.mode(), Mode::Normal);
    press(&mut ed, "l");
    assert_eq!(ed.cursor_position(), at(1, 0));
}

#[test]
fn editor_keys_on_an_empty_document() {
    let mut ed = Editor::default(None, None, SIZE);
    press(&mut ed, "hjklxDJdd");
    ed.process_keypress(Key::Ctrl('d'));
    ed.process_keypress(Key::Ctrl('u'));
    press(&mut ed, "vhjklx");
    assert!(ed.document().is_empty());
    assert_eq!(ed.cursor_position(), at(0, 0));
    assert_eq!(ed.cursor_on_screen(), at(0, 0));
    assert_eq!(ed.mode(), Mode::Normal);
}

#[test]
fn control_codes() {
    assert!(is_control('\0'));
    assert!(is_control('\n'));
    assert!(is_control('\u{1f}'));
    assert!(!is_control(' '));
    assert!(!is_control('a'));
    assert!(!is_control('~'));
    assert!(is_control('\u{7f}'));
    assert!(is_control('\u{9f}'));
    assert!(!is_control('\u{a0}'));
    assert!(!is_control('\u{1F600}'));
    for code in 0..0x300u32 {
        if let Some(c) = char::from_u32(code) {
            assert_eq!(is_control(c), c.is_control());
        }
    }
}

#[test]
fn mappings_move_by_key_name() {
    let doc = Document::open("m.txt", "abc\ndef\n");
    let keys = Mappings::default();
    let plain = MoveOptions { allow_wrap: false, allow_eol: false };
    let mut pos = at(0, 0);
    keys.call_fn(&"l".to_string(), &mut pos, &doc, plain);
    assert_eq!(pos, at(1, 0));
    keys.call_fn(&"j".to_string(), &mut pos, &doc, plain);
    assert_eq!(pos, at(1, 1));
    keys.call_fn(&"h".to_string(), &mut pos, &doc, plain);
    assert_eq!(pos, at(0, 1));
    keys.call_fn(&"k".to_string(), &mut pos, &doc, plain);
    assert_eq!(pos, at(0, 0));
}

#[test]
fn mappings_pass_the_options_on() {
    let doc = Document::open("m.txt", "abc\ndef\n");
    let keys = Mappings::default();
    let free = MoveOptions { allow_wrap: true, allow_eol: true };
    let mut pos = at(2, 0);
    keys.call_fn(&"l".to_string(), &mut pos, &doc, free);
    assert_eq!(pos, at(3, 0));
    keys.call_fn(&"l".to_string(), &mut pos, &doc, free);
    assert_eq!(pos, at(0, 1));
    keys.call_fn(&"h".to_string(), &mut pos, &doc, free);
    assert_eq!(pos, at(3, 0));
}
