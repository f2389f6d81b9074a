//! Exact frame bytes: every render and seal compared against the ANSI
//! sequences it must produce.

use prompter::key::Key;
use prompter::prompt::options::Options;
use prompter::prompt::slider::{SliderFill, SliderPos};
use prompter::prompt::text::{erase_cell_str, Text};
use prompter::prompt_options::PromptOptions;

const RESTORE: &str = "\x1b[u";
const NORMAL: &str = "\x1b[37m";
const SEPARATOR: &str = "\x1b[90m";
const HIGHLIGHT: &str = "\x1b[47;30m";
const SELECTED_FINAL: &str = "\x1b[32;5;1m";
const FAIL: &str = "\x1b[38;5;1m";
const RESET: &str = "\x1b[0m";

fn labels(names: &[&str]) -> Vec<String> {
    names.iter().map(|s| s.to_string()).collect()
}

#[test]
fn options_live_frame_highlights_the_cursor() {
    let w = Options::new(labels(&["red", "green", "blue"])).unwrap();
    let sep = format!(" {SEPARATOR}::{RESET} ");
    let expected = format!(
        "{RESTORE}{HIGHLIGHT}red{RESET}{sep}{NORMAL}green{RESET}{sep}{NORMAL}blue{RESET}"
    );
    assert_eq!(w.render(), expected);
}

#[test]
fn options_live_frame_moves_with_the_cursor() {
    let mut w = Options::new(labels(&["red", "green"])).unwrap();
    w.step(Key::Right);
    let sep = format!(" {SEPARATOR}::{RESET} ");
    let expected = format!("{RESTORE}{NORMAL}red{RESET}{sep}{HIGHLIGHT}green{RESET}");
    assert_eq!(w.render(), expected);
}

#[test]
fn options_sealed_frame_marks_the_choice() {
    let w = Options::new(labels(&["red", "green"])).unwrap();
    let sep = format!(" {SEPARATOR}::{RESET} ");
    let expected =
        format!("{RESTORE}{SEPARATOR}red{RESET}{sep}{SELECTED_FINAL}green{RESET}\r\n");
    assert_eq!(w.seal(Some(1)), expected);
}

#[test]
fn options_sealed_frame_on_cancel_dims_everything() {
    let w = Options::new(labels(&["red", "green"])).unwrap();
    let sep = format!(" {FAIL}::{RESET} ");
    let expected = format!("{RESTORE}{SEPARATOR}red{RESET}{sep}{SEPARATOR}green{RESET}\r\n");
    assert_eq!(w.seal(None), expected);
}

#[test]
fn lone_option_canceled_turns_the_failure_color() {
    let w = Options::new(labels(&["only"])).unwrap();
    let expected = format!("{RESTORE}{FAIL}only{RESET}\r\n");
    assert_eq!(w.seal(None), expected);
}

#[test]
fn marker_slider_live_frame_glides_one_tick() {
    let mut w = SliderPos::new(5).unwrap();
    w.step(Key::Right);
    w.step(Key::Right);
    let expected = format!(
        "{RESTORE}{SEPARATOR}::{RESET}{HIGHLIGHT};{RESET}{SEPARATOR}::{RESET}"
    );
    assert_eq!(w.render(), expected);
}

#[test]
fn marker_slider_sealed_frame_keeps_the_tick() {
    let w = SliderPos::new(4).unwrap();
    let expected = format!(
        "{RESTORE}{SEPARATOR}:{RESET}{SELECTED_FINAL};{RESET}{SEPARATOR}::{RESET}"
    );
    assert_eq!(w.seal(Some(1)), expected);
}

#[test]
fn marker_slider_canceled_draws_one_extra_separator() {
    let w = SliderPos::new(3).unwrap();
    let expected = format!("{RESTORE}{FAIL}::::{RESET}");
    assert_eq!(w.seal(None), expected);
}

#[test]
fn fill_slider_live_frame_accumulates() {
    let mut w = SliderFill::new(4).unwrap();
    w.step(Key::Right);
    let expected = format!("{RESTORE}{HIGHLIGHT};;{RESET}{SEPARATOR}::{RESET}");
    assert_eq!(w.render(), expected);
}

#[test]
fn fill_slider_sealed_frame_keeps_the_bar() {
    let w = SliderFill::new(4).unwrap();
    let mut w = w;
    w.step(Key::Right);
    w.step(Key::Right);
    let expected = format!("{RESTORE}{SELECTED_FINAL};;;{RESET}{SEPARATOR}:{RESET}");
    assert_eq!(w.seal(Some(2)), expected);
}

#[test]
fn fill_slider_canceled_draws_the_plain_row() {
    let w = SliderFill::new(3).unwrap();
    let expected = format!("{RESTORE}{FAIL}:::{RESET}");
    assert_eq!(w.seal(None), expected);
}

#[test]
fn text_live_frame_shows_label_and_buffer() {
    let mut t = Text::new("name");
    t.step(Key::Char('a'));
    t.step(Key::Char('b'));
    assert_eq!(t.render(), format!("{RESTORE}[name]: ab"));
}

#[test]
fn text_sealed_commit_colors_the_answer() {
    let mut t = Text::new("name");
    t.step(Key::Char('a'));
    t.step(Key::Char('b'));
    let expected = format!("{RESTORE}[name]: {SELECTED_FINAL}ab{RESET}\r\n");
    assert_eq!(t.seal(true), expected);
}

#[test]
fn text_sealed_empty_commit_shows_bare_label() {
    let t = Text::new("name");
    let expected = format!("{RESTORE}[name]{SELECTED_FINAL}:{RESET}\r\n");
    assert_eq!(t.seal(true), expected);
}

#[test]
fn text_sealed_cancel_fails_the_label() {
    let t = Text::new("name");
    let expected = format!("{RESTORE}[{FAIL}name{RESET}]{FAIL}:{RESET}\r\n");
    assert_eq!(t.seal(false), expected);
}

#[test]
fn erase_cell_is_backspace_space_backspace() {
    assert_eq!(erase_cell_str(), "\x08 \x08");
}

#[test]
fn batch_carousel_draws_the_same_anchored_frames() {
    let w = PromptOptions::new(labels(&["a", "b"])).unwrap();
    let anchored = Options::new(labels(&["a", "b"])).unwrap();
    assert_eq!(w.render(), anchored.render());
    let sep = format!(" {SEPARATOR}::{RESET} ");
    let expected = format!("{RESTORE}{HIGHLIGHT}a{RESET}{sep}{NORMAL}b{RESET}");
    assert_eq!(w.render(), expected);
}

#[test]
fn batch_carousel_sealed_frames() {
    let w = PromptOptions::new(labels(&["a", "b"])).unwrap();
    let sep = format!(" {SEPARATOR}::{RESET} ");
    let committed =
        format!("{RESTORE}{SELECTED_FINAL}a{RESET}{sep}{SEPARATOR}b{RESET}\r\n");
    assert_eq!(w.seal(Some(0)), committed);
    let fail_sep = format!(" {FAIL}::{RESET} ");
    let canceled =
        format!("{RESTORE}{SEPARATOR}a{RESET}{fail_sep}{SEPARATOR}b{RESET}\r\n");
    assert_eq!(w.seal(None), canceled);
}
