use status_line::render::{clear, redraw};

const ERASE_DOWN: &str = "\x1b[J";
const CURSOR_LEFT: &str = "\x1b[1000D";
const CURSOR_PREV_LINE: &str = "\x1b[F";

#[test]
fn erase_with_control_sequences_is_erase_down() {
    assert_eq!(clear(true), ERASE_DOWN);
}

#[test]
fn erase_without_control_sequences_is_empty() {
    assert_eq!(clear(false), "");
}

#[test]
fn redraw_of_one_line_erases_writes_and_returns_left() {
    assert_eq!(redraw(true, "42%"), "\x1b[J42%\x1b[1000D");
}

#[test]
fn redraw_moves_up_once_per_line_break() {
    assert_eq!(
        redraw(true, "a\nb\nc"),
        "\x1b[Ja\nb\nc\x1b[1000D\x1b[F\x1b[F"
    );
}

#[test]
fn redraw_counts_a_trailing_line_break() {
    assert_eq!(redraw(true, "done\n"), "\x1b[Jdone\n\x1b[1000D\x1b[F");
}

#[test]
fn redraw_of_line_breaks_only() {
    let out = redraw(true, "\n\n\n");
    let expected = format!(
        "{}\n\n\n{}{}",
        ERASE_DOWN,
        CURSOR_LEFT,
        CURSOR_PREV_LINE.repeat(3)
    );
    assert_eq!(out, expected);
}

#[test]
fn redraw_of_empty_text_still_writes() {
    assert_eq!(redraw(true, ""), "\x1b[J\x1b[1000D");
    assert_eq!(redraw(false, ""), "\n");
}

#[test]
fn redraw_without_control_sequences_is_a_line() {
    assert_eq!(redraw(false, "a\nb"), "a\nb\n");
    assert_eq!(redraw(false, "42%"), "42%\n");
}

#[test]
fn redraw_keeps_text_beyond_ascii() {
    assert_eq!(
        redraw(true, "zażółć\n→ 50 %"),
        "\x1b[Jzażółć\n→ 50 %\x1b[1000D\x1b[F"
    );
    assert_eq!(redraw(false, "→ 50 %"), "→ 50 %\n");
}

#[test]
fn redraw_ignores_carriage_returns_when_counting() {
    assert_eq!(redraw(true, "a\r\nb\r"), "\x1b[Ja\r\nb\r\x1b[1000D\x1b[F");
}

#[test]
fn redraw_of_many_lines_moves_up_as_often() {
    let lines = vec!["x"; 200];
    let text = lines.join("\n");
    let out = redraw(true, &text);
    let tail = &out[ERASE_DOWN.len() + text.len()..];
    assert_eq!(tail, format!("{}{}", CURSOR_LEFT, CURSOR_PREV_LINE.repeat(199)));
}

#[test]
fn redraw_is_never_empty() {
    for ansi in [false, true] {
        for text in ["", "x", "\n", "a\nb"] {
            assert!(!redraw(ansi, text).is_empty());
        }
    }
}

#[test]
fn redraw_holds_the_text_in_one_piece() {
    for text in ["", "x", "[****    ]", "a\nb\n", "\x1b[Jodd"] {
        let with = redraw(true, text);
        assert_eq!(&with[ERASE_DOWN.len()..ERASE_DOWN.len() + text.len()], text);
        let without = redraw(false, text);
        assert_eq!(&without[..text.len()], text);
    }
}

#[test]
fn progress_bar_is_drawn_and_erased() {
    let bar = "[****    ]";
    let drawn = redraw(true, bar);
    assert!(drawn.contains(bar));
    assert_eq!(drawn, "\x1b[J[****    ]\x1b[1000D");
    let erased = clear(true);
    assert!(!erased.contains(bar));
    assert_eq!(erased, ERASE_DOWN);
    let next = redraw(true, "[*****   ]");
    assert!(next.starts_with(&erased));
    assert!(!next.contains(bar));
}

#[test]
fn progress_bar_without_control_sequences_piles_up() {
    let stream = format!("{}{}{}", redraw(false, "[****    ]"), clear(false), redraw(false, "[*****   ]"));
    assert_eq!(stream, "[****    ]\n[*****   ]\n");
}
