use mtx::commands::cursor_cmds::{
    move_cursor_bol, move_cursor_down, move_cursor_down_n, move_cursor_eol, move_cursor_left,
    move_cursor_left_n, move_cursor_right, move_cursor_right_n, move_cursor_up,
    move_cursor_up_n, move_last_word, move_next_word, move_page_down, move_page_up,
    update_cursor,
};
use mtx::Document;
use mtx::Mode;
use mtx::Position;

fn sample() -> Document {
    Document::open("sample.txt", "hello\n\nab\nlonger line\n")
}

fn at(x: usize, y: usize) -> Position {
    Position { x, y }
}

fn clamp(pos: Position, doc: &Document, mode: Mode) -> Position {
    let mut pos = pos;
    update_cursor(&mut pos, doc, &mode);
    pos
}

#[test]
fn clamp_normal_rests_on_the_last_cluster() {
    let doc = sample();
    assert_eq!(clamp(at(5, 0), &doc, Mode::Normal), at(4, 0));
    assert_eq!(clamp(at(99, 0), &doc, Mode::Normal), at(4, 0));
    assert_eq!(clamp(at(4, 0), &doc, Mode::Normal), at(4, 0));
    assert_eq!(clamp(at(2, 0), &doc, Mode::Normal), at(2, 0));
    assert_eq!(clamp(at(3, 1), &doc, Mode::Normal), at(0, 1));
    assert_eq!(clamp(at(0, 1), &doc, Mode::Normal), at(0, 1));
}

#[test]
fn clamp_insert_and_visual_may_rest_past_the_end() {
    let doc = sample();
    assert_eq!(clamp(at(5, 0), &doc, Mode::Insert), at(5, 0));
    assert_eq!(clamp(at(6, 0), &doc, Mode::Insert), at(5, 0));
    assert_eq!(clamp(at(5, 0), &doc, Mode::Visual), at(5, 0));
    assert_eq!(clamp(at(99, 2), &doc, Mode::Visual), at(2, 2));
    assert_eq!(clamp(at(1, 1), &doc, Mode::Insert), at(0, 1));
}

#[test]
fn clamp_beyond_the_last_line() {
    let doc = sample();
    // The last line, "longer line", has 11 clusters.
    assert_eq!(clamp(at(0, 4), &doc, Mode::Normal), at(10, 3));
    assert_eq!(clamp(at(3, 100), &doc, Mode::Visual), at(11, 3));
    assert_eq!(clamp(at(3, usize::MAX), &doc, Mode::Insert), at(10, 3));
}

#[test]
fn clamp_command_mode_leaves_the_position() {
    let doc = sample();
    assert_eq!(clamp(at(99, 99), &doc, Mode::Command), at(99, 99));
}

#[test]
fn clamp_on_an_empty_document() {
    let doc = Document::default();
    assert_eq!(clamp(at(7, 3), &doc, Mode::Normal), at(0, 0));
    assert_eq!(clamp(at(7, 3), &doc, Mode::Insert), at(0, 0));
    assert_eq!(clamp(at(7, 3), &doc, Mode::Visual), at(0, 0));
    assert_eq!(clamp(at(0, 0), &doc, Mode::Normal), at(0, 0));
    assert_eq!(clamp(at(7, 3), &doc, Mode::Command), at(7, 3));
}

#[test]
fn clamp_twice_is_clamp_once() {
    let doc = sample();
    let empty = Document::default();
    for mode in [Mode::Normal, Mode::Insert, Mode::Visual, Mode::Command] {
        for y in [0, 1, 2, 3, 4, 9, usize::MAX] {
            for x in [0, 1, 2, 4, 5, 6, 10, 11, 12, usize::MAX] {
                let once = clamp(at(x, y), &doc, mode);
                assert_eq!(clamp(once, &doc, mode), once);
                let once = clamp(at(x, y), &empty, mode);
                assert_eq!(clamp(once, &empty, mode), once);
            }
        }
    }
}

#[test]
fn eol_and_bol() {
    let doc = sample();
    let mut pos = at(1, 0);
    move_cursor_eol(&mut pos, &doc, true);
    assert_eq!(pos, at(5, 0));
    move_cursor_eol(&mut pos, &doc, false);
    assert_eq!(pos, at(4, 0));
    move_cursor_bol(&mut pos);
    assert_eq!(pos, at(0, 0));
    let mut on_empty_line = at(3, 1);
    move_cursor_eol(&mut on_empty_line, &doc, false);
    assert_eq!(on_empty_line, at(0, 1));
    move_cursor_eol(&mut on_empty_line, &doc, true);
    assert_eq!(on_empty_line, at(0, 1));
    let mut nowhere = at(3, 9);
    move_cursor_eol(&mut nowhere, &doc, true);
    assert_eq!(nowhere, at(3, 9));
}

#[test]
fn up_stops_at_the_first_line() {
    let mut pos = at(3, 2);
    move_cursor_up(&mut pos);
    assert_eq!(pos, at(3, 1));
    move_cursor_up(&mut pos);
    move_cursor_up(&mut pos);
    assert_eq!(pos, at(3, 0));
    let mut far = at(1, 10);
    move_cursor_up_n(&mut far, 4);
    assert_eq!(far, at(1, 6));
    move_cursor_up_n(&mut far, 100);
    assert_eq!(far, at(1, 0));
}

#[test]
fn down_stops_at_the_last_line_and_keeps_the_column() {
    let doc = sample();
    let mut pos = at(4, 0);
    move_cursor_down(&mut pos, &doc);
    assert_eq!(pos, at(4, 1));
    move_cursor_down_n(&mut pos, &doc, 2);
    assert_eq!(pos, at(4, 3));
    move_cursor_down(&mut pos, &doc);
    assert_eq!(pos, at(4, 3));
    let mut other = at(0, 1);
    move_cursor_down_n(&mut other, &doc, usize::MAX);
    assert_eq!(other, at(0, 3));
    let mut outside = at(0, 50);
    move_cursor_down(&mut outside, &doc);
    assert_eq!(outside, at(0, 3));
}

#[test]
fn left_within_a_line() {
    let doc = sample();
    let mut pos = at(3, 0);
    move_cursor_left(&mut pos, &doc, false);
    assert_eq!(pos, at(2, 0));
    let mut start = at(0, 2);
    move_cursor_left(&mut start, &doc, false);
    assert_eq!(start, at(0, 2));
}

#[test]
fn left_wraps_to_the_end_of_the_previous_line() {
    let doc = sample();
    let mut pos = at(0, 3);
    move_cursor_left(&mut pos, &doc, true);
    assert_eq!(pos, at(2, 2));
    let mut top = at(0, 0);
    move_cursor_left(&mut top, &doc, true);
    assert_eq!(top, at(0, 0));
    let mut below_empty = at(0, 2);
    move_cursor_left(&mut below_empty, &doc, true);
    assert_eq!(below_empty, at(0, 1));
}

#[test]
fn left_from_beyond_the_line_lands_on_its_last_cluster() {
    let doc = sample();
    let mut pos = at(9, 2);
    move_cursor_left(&mut pos, &doc, false);
    assert_eq!(pos, at(1, 2));
    let mut on_empty = at(9, 1);
    move_cursor_left(&mut on_empty, &doc, false);
    assert_eq!(on_empty, at(8, 1));
}

#[test]
fn left_n_repeats() {
    let doc = sample();
    let mut pos = at(4, 0);
    move_cursor_left_n(&mut pos, &doc, false, 3);
    assert_eq!(pos, at(1, 0));
    move_cursor_left_n(&mut pos, &doc, false, 0);
    assert_eq!(pos, at(1, 0));
    let mut wrapping = at(1, 3);
    move_cursor_left_n(&mut wrapping, &doc, true, 4);
    // 1 -> 0, wrap to (2,2), 1, 0
    assert_eq!(wrapping, at(0, 2));
}

#[test]
fn right_within_a_line() {
    let doc = sample();
    let mut pos = at(0, 0);
    move_cursor_right(&mut pos, &doc, false, false);
    assert_eq!(pos, at(1, 0));
    let mut last = at(4, 0);
    move_cursor_right(&mut last, &doc, false, false);
    assert_eq!(last, at(4, 0));
    move_cursor_right(&mut last, &doc, true, false);
    assert_eq!(last, at(5, 0));
    move_cursor_right(&mut last, &doc, true, false);
    assert_eq!(last, at(5, 0));
}

#[test]
fn right_wraps_from_past_the_end() {
    let doc = sample();
    let mut pos = at(5, 0);
    move_cursor_right(&mut pos, &doc, true, true);
    assert_eq!(pos, at(0, 1));
    // On the empty line the cursor is already past the end.
    move_cursor_right(&mut pos, &doc, true, true);
    assert_eq!(pos, at(0, 2));
    let mut bottom = at(11, 3);
    move_cursor_right(&mut bottom, &doc, true, true);
    assert_eq!(bottom, at(11, 3));
}

#[test]
fn right_on_an_empty_line_stays_in_place() {
    let doc = sample();
    let mut pos = at(0, 1);
    move_cursor_right(&mut pos, &doc, true, false);
    assert_eq!(pos, at(0, 1));
    move_cursor_right(&mut pos, &doc, false, false);
    assert_eq!(pos, at(0, 1));
}

#[test]
fn right_n_repeats() {
    let doc = sample();
    let mut pos = at(0, 0);
    move_cursor_right_n(&mut pos, &doc, false, false, 3);
    assert_eq!(pos, at(3, 0));
    move_cursor_right_n(&mut pos, &doc, false, false, 10);
    assert_eq!(pos, at(4, 0));
    let mut wrapping = at(3, 0);
    move_cursor_right_n(&mut wrapping, &doc, true, true, 4);
    // 4, 5, wrap to (0,1), wrap to (0,2)
    assert_eq!(wrapping, at(0, 2));
}

#[test]
fn word_motions_leave_the_position() {
    let doc = sample();
    let mut pos = at(2, 0);
    move_next_word(&mut pos, &doc);
    assert_eq!(pos, at(2, 0));
    move_last_word(&mut pos, &doc);
    assert_eq!(pos, at(2, 0));
}

#[test]
fn page_up_moves_cursor_and_viewport() {
    let mut pos = at(3, 25);
    let mut offset = at(0, 20);
    move_page_up(&mut pos, &mut offset, 10);
    assert_eq!(pos, at(3, 15));
    assert_eq!(offset, at(0, 10));
    move_page_up(&mut pos, &mut offset, 12);
    assert_eq!(pos, at(3, 3));
    assert_eq!(offset, at(0, 0));
    move_page_up(&mut pos, &mut offset, 12);
    assert_eq!(pos, at(3, 0));
    assert_eq!(offset, at(0, 0));
}

fn tall(lines: usize) -> Document {
    let mut text = String::new();
    for _ in 0..lines {
        text.push_str("x\n");
    }
    Document::open("tall.txt", &text)
}

#[test]
fn page_down_by_a_full_page() {
    let doc = tall(100);
    let mut pos = at(0, 5);
    let mut offset = at(0, 0);
    move_page_down(&mut pos, &mut offset, &doc, 20);
    assert_eq!(pos, at(0, 25));
    assert_eq!(offset, at(0, 20));
}

#[test]
fn page_down_near_the_end_advances_by_what_is_left() {
    let doc = tall(100);
    let mut pos = at(0, 90);
    let mut offset = at(0, 80);
    move_page_down(&mut pos, &mut offset, &doc, 20);
    assert_eq!(pos, at(0, 99));
    assert_eq!(offset, at(0, 89));
    move_page_down(&mut pos, &mut offset, &doc, 20);
    assert_eq!(pos, at(0, 99));
    assert_eq!(offset, at(0, 89));
}

#[test]
fn page_down_exactly_to_the_last_line() {
    let doc = tall(30);
    let mut pos = at(0, 9);
    let mut offset = at(0, 0);
    // 9 + 20 = 29 is the last line: still a full page.
    move_page_down(&mut pos, &mut offset, &doc, 20);
    assert_eq!(pos, at(0, 29));
    assert_eq!(offset, at(0, 20));
    let mut next = at(0, 10);
    let mut next_offset = at(0, 0);
    // 10 + 20 = 30 is past the end: 19 lines were left.
    move_page_down(&mut next, &mut next_offset, &doc, 20);
    assert_eq!(next, at(0, 29));
    assert_eq!(next_offset, at(0, 19));
}

#[test]
fn movement_on_an_empty_document() {
    let doc = Document::default();
    let mut pos = at(3, 2);
    move_cursor_left(&mut pos, &doc, true);
    assert_eq!(pos, at(3, 2));
    move_cursor_right(&mut pos, &doc, true, true);
    assert_eq!(pos, at(3, 2));
    move_cursor_eol(&mut pos, &doc, true);
    assert_eq!(pos, at(3, 2));
    move_cursor_left_n(&mut pos, &doc, true, 5);
    assert_eq!(pos, at(3, 2));
    move_cursor_right_n(&mut pos, &doc, true, true, 5);
    assert_eq!(pos, at(3, 2));
    move_cursor_down(&mut pos, &doc);
    assert_eq!(pos, at(3, 0));
    let mut paged = at(1, 4);
    let mut offset = at(0, 2);
    move_page_down(&mut paged, &mut offset, &doc, 10);
    assert_eq!(paged, at(1, 0));
    assert_eq!(offset, at(0, 2));
}
