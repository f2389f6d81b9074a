//! Interaction scenarios: full key sequences fed to each widget machine.

use prompter::carousel::StepResult;
use prompter::key::Key;
use prompter::prompt::options::Options;
use prompter::prompt::slider::{SliderFill, SliderPos};
use prompter::prompt::text::{Text, TextStep};
use prompter::prompt_options::{prompt_options_multiple, PromptOptions};
use prompter::error::PromptErrorKind;

fn labels(names: &[&str]) -> Vec<String> {
    names.iter().map(|s| s.to_string()).collect()
}

#[test]
fn options_two_rights_then_enter_returns_two() {
    let mut w = Options::new(labels(&["red", "green", "blue"])).unwrap();
    assert_eq!(w.step(Key::Right), StepResult::Moved);
    assert_eq!(w.step(Key::Right), StepResult::Moved);
    assert_eq!(w.step(Key::Char('\n')), StepResult::Committed(2));
}

#[test]
fn options_left_wraps_to_last_then_enter() {
    let mut w = Options::new(labels(&["red", "green", "blue"])).unwrap();
    assert_eq!(w.step(Key::Left), StepResult::Moved);
    assert_eq!(w.selected(), 2);
    assert_eq!(w.step(Key::Char('\n')), StepResult::Committed(2));
}

#[test]
fn slider_five_rights_wrap_back_to_start() {
    let mut w = SliderPos::new(5).unwrap();
    for _ in 0..5 {
        assert_eq!(w.step(Key::Right), StepResult::Moved);
    }
    assert_eq!(w.selected(), 0);
    assert_eq!(w.step(Key::Char('\n')), StepResult::Committed(0));
}

#[test]
fn text_types_pops_then_commits_remainder() {
    let mut t = Text::new("name");
    assert_eq!(t.step(Key::Char('a')), TextStep::Edited);
    assert_eq!(t.step(Key::Char('b')), TextStep::Edited);
    assert_eq!(t.step(Key::Char('c')), TextStep::Edited);
    assert_eq!(t.step(Key::Backspace), TextStep::Erased);
    assert_eq!(t.step(Key::Char('\n')), TextStep::Committed);
    assert_eq!(t.into_buffer(), "ab");
}

#[test]
fn text_immediate_enter_is_empty_input() {
    let mut t = Text::new("name");
    assert_eq!(t.step(Key::Char('\n')), TextStep::EmptyCommit);
}

#[test]
fn empty_option_set_is_a_configuration_error() {
    let err = Options::new(Vec::new()).unwrap_err();
    assert_eq!(err.kind(), PromptErrorKind::PassedNoOptions);
    let err = PromptOptions::new(Vec::new()).unwrap_err();
    assert_eq!(err.kind(), PromptErrorKind::PassedNoOptions);
}

#[test]
fn zero_length_sliders_are_configuration_errors() {
    assert_eq!(
        SliderPos::new(0).unwrap_err().kind(),
        PromptErrorKind::PassedNoOptions
    );
    assert_eq!(
        SliderFill::new(0).unwrap_err().kind(),
        PromptErrorKind::PassedNoOptions
    );
}

#[test]
fn full_right_cycle_returns_to_start() {
    let mut w = Options::new(labels(&["a", "b", "c", "d"])).unwrap();
    assert_eq!(w.step(Key::Right), StepResult::Moved);
    let start = w.selected();
    for _ in 0..4 {
        w.step(Key::Right);
    }
    assert_eq!(w.selected(), start);
}

#[test]
fn wrap_at_both_ends() {
    let mut w = Options::new(labels(&["a", "b", "c"])).unwrap();
    assert_eq!(w.step(Key::Left), StepResult::Moved);
    assert_eq!(w.selected(), 2);
    assert_eq!(w.step(Key::Right), StepResult::Moved);
    assert_eq!(w.selected(), 0);
}

#[test]
fn immediate_commit_returns_first_index() {
    let mut w = Options::new(labels(&["only"])).unwrap();
    assert_eq!(w.step(Key::Char('j')), StepResult::Committed(0));
    let mut s = SliderFill::new(7).unwrap();
    assert_eq!(s.step(Key::Down), StepResult::Committed(0));
}

#[test]
fn cancel_never_commits() {
    let mut w = Options::new(labels(&["a", "b"])).unwrap();
    w.step(Key::Right);
    assert_eq!(w.step(Key::Esc), StepResult::Canceled);
    assert_eq!(w.selected(), 1);
    let mut w2 = Options::new(labels(&["a", "b"])).unwrap();
    assert_eq!(w2.step(Key::Char('q')), StepResult::Canceled);
    let mut w3 = Options::new(labels(&["a", "b"])).unwrap();
    assert_eq!(w3.step(Key::Char('e')), StepResult::Canceled);
    let mut t = Text::new("name");
    t.step(Key::Char('x'));
    assert_eq!(t.step(Key::Esc), TextStep::Canceled);
    assert_eq!(t.buffer().as_str(), "x");
}

#[test]
fn text_round_trip_leaves_buffer_empty() {
    let mut t = Text::new("q");
    for c in ['x', 'y', 'z'] {
        assert_eq!(t.step(Key::Char(c)), TextStep::Edited);
    }
    for _ in 0..3 {
        assert_eq!(t.step(Key::Backspace), TextStep::Erased);
    }
    assert_eq!(t.buffer().as_str(), "");
    assert_eq!(t.step(Key::Down), TextStep::EmptyCommit);
}

#[test]
fn text_pop_on_empty_buffer_is_a_no_op() {
    let mut t = Text::new("q");
    assert_eq!(t.step(Key::Backspace), TextStep::Erased);
    assert_eq!(t.buffer().as_str(), "");
    assert_eq!(t.step(Key::Left), TextStep::Erased);
    assert_eq!(t.buffer().as_str(), "");
}

#[test]
fn text_ignores_unknown_named_keys() {
    let mut t = Text::new("q");
    assert_eq!(t.step(Key::Right), TextStep::Ignored);
    assert_eq!(t.step(Key::Other), TextStep::Ignored);
    assert_eq!(t.buffer().as_str(), "");
}

#[test]
fn carousel_ignores_unrecognized_keys() {
    let mut w = Options::new(labels(&["a", "b"])).unwrap();
    assert_eq!(w.step(Key::Char('z')), StepResult::Ignored);
    assert_eq!(w.step(Key::Other), StepResult::Ignored);
    assert_eq!(w.step(Key::Backspace), StepResult::Ignored);
    assert_eq!(w.selected(), 0);
}

#[test]
fn vi_style_aliases_move_and_commit() {
    let mut w = Options::new(labels(&["a", "b", "c"])).unwrap();
    assert_eq!(w.step(Key::Char('l')), StepResult::Moved);
    assert_eq!(w.step(Key::Char('d')), StepResult::Moved);
    assert_eq!(w.step(Key::Char('h')), StepResult::Moved);
    assert_eq!(w.step(Key::Char('a')), StepResult::Moved);
    assert_eq!(w.selected(), 0);
    assert_eq!(w.step(Key::Char('s')), StepResult::Committed(0));
}

#[test]
fn batch_builds_one_widget_per_set() {
    let sets = vec![
        labels(&["a", "b"]),
        Vec::new(),
        labels(&["x"]),
    ];
    let built = prompt_options_multiple(sets).unwrap();
    assert_eq!(built.len(), 3);
    assert!(built[0].is_ok());
    assert_eq!(
        built[1].as_ref().unwrap_err().kind(),
        PromptErrorKind::PassedNoOptions
    );
    assert!(built[2].is_ok());
}
