use muxde::api::IdAlloc;
use muxde::command::{CommandProcessor, Effect, Key};
use muxde::config::ConfigValue;

fn leaf(name: &str, binding: &str) -> (String, ConfigValue) {
    (String::from(name), ConfigValue::Str(String::from(binding)))
}

fn key(c: char) -> Key {
    Key::Char { c, control: false, alt: false }
}

fn ctrl(c: char) -> Key {
    Key::Char { c, control: true, alt: false }
}

fn alt(c: char) -> Key {
    Key::Char { c, control: false, alt: true }
}

fn commands() -> Vec<(String, ConfigValue)> {
    vec![
        leaf("quit", "Q"),
        leaf("new-window", "nw"),
        leaf("edit-mode", "E"),
        leaf("command-mode", "C-c"),
    ]
}

#[test]
fn starts_in_command_mode_with_greeting() {
    let p = CommandProcessor::new();
    assert!(p.is_command_mode());
    assert_eq!(p.get_prompt().as_str(), "New workspace");
    assert_eq!(p.get_show().as_str(), "");
    assert_eq!(p.get_suggestion().as_str(), "");
    assert!(!p.unknown());
}

#[test]
fn plain_characters_accumulate_in_the_buffer() {
    let mut p = CommandProcessor::new();
    p.key_event(key('n'));
    assert_eq!(p.get_show().as_str(), "n");
    p.key_event(key('w'));
    assert_eq!(p.get_show().as_str(), "nw");
}

#[test]
fn backspace_after_insertion_restores_the_buffer() {
    let mut p = CommandProcessor::new();
    p.key_event(key('n'));
    p.key_event(key('e'));
    p.key_event(key('w'));
    let before = p.get_show().clone();
    p.key_event(key('x'));
    p.key_event(Key::Backspace);
    assert_eq!(p.get_show(), &before);
}

#[test]
fn enter_abandons_the_entry() {
    let mut p = CommandProcessor::new();
    p.key_event(key('n'));
    p.key_event(key('o'));
    p.key_event(Key::Enter);
    assert_eq!(p.get_show().as_str(), "");
}

#[test]
fn other_keys_are_ignored() {
    let mut p = CommandProcessor::new();
    p.key_event(key('n'));
    p.key_event(Key::Other);
    assert_eq!(p.get_show().as_str(), "n");
}

#[test]
fn control_chord_is_encoded_with_prefix_and_space() {
    let mut p = CommandProcessor::new();
    p.key_event(ctrl('c'));
    assert_eq!(p.get_show().as_str(), "C-c ");
}

#[test]
fn alt_chord_is_encoded_with_prefix_and_space() {
    let mut p = CommandProcessor::new();
    p.key_event(alt('x'));
    assert_eq!(p.get_show().as_str(), "A-x ");
}

#[test]
fn control_chord_in_pass_through_keeps_command_active() {
    let map = commands();
    let mut ids = IdAlloc::new();
    let mut p = CommandProcessor::new();
    // enter pass-through mode by committing "edit-mode"
    p.key_event(key('E'));
    let (quit, effects) = p.process(&map, (80, 24), &mut ids);
    assert!(!quit);
    assert!(effects.is_empty());
    assert!(!p.is_command_mode());
    // Ctrl+q in pass-through buffers the chord and stays with the dispatcher
    p.key_event(ctrl('q'));
    assert_eq!(p.get_show().as_str(), "C-q ");
    assert!(p.is_command_mode());
    // an unresolved chord keeps the dispatcher active after recomputation
    let (quit, _) = p.process(&map, (80, 24), &mut ids);
    assert!(!quit);
    assert!(p.is_command_mode());
}

#[test]
fn chord_resolving_to_full_match_commits() {
    let map = commands();
    let mut ids = IdAlloc::new();
    let mut p = CommandProcessor::new();
    p.key_event(key('E'));
    let _ = p.process(&map, (80, 24), &mut ids);
    assert!(!p.is_command_mode());
    p.key_event(ctrl('c'));
    assert!(p.is_command_mode());
    // "C-c " trims to "C-c" and matches command-mode's binding exactly
    let (quit, _) = p.process(&map, (80, 24), &mut ids);
    assert!(!quit);
    assert!(p.is_command_mode());
    assert_eq!(p.get_prompt().as_str(), "command-mode");
}

#[test]
fn partial_match_suggests_the_remainder() {
    let map = commands();
    let mut ids = IdAlloc::new();
    let mut p = CommandProcessor::new();
    p.key_event(key('n'));
    let (quit, _) = p.process(&map, (80, 24), &mut ids);
    assert!(!quit);
    assert_eq!(p.get_prompt().as_str(), "new-window");
    assert_eq!(p.get_suggestion().as_str(), "w");
    assert!(!p.unknown());
}

#[test]
fn unknown_input_is_flagged_not_fatal() {
    let map = commands();
    let mut ids = IdAlloc::new();
    let mut p = CommandProcessor::new();
    p.key_event(key('z'));
    let (quit, _) = p.process(&map, (80, 24), &mut ids);
    assert!(!quit);
    assert_eq!(p.get_prompt().as_str(), "Unknown command");
    assert_eq!(p.get_suggestion().as_str(), "");
    assert!(p.unknown());
    // the user may keep editing: backspace empties the buffer again
    p.key_event(Key::Backspace);
    let (quit, _) = p.process(&map, (80, 24), &mut ids);
    assert!(!quit);
    assert_eq!(p.get_prompt().as_str(), "");
    assert!(!p.unknown());
}

#[test]
fn quit_commit_reports_termination() {
    let map = commands();
    let mut ids = IdAlloc::new();
    let mut p = CommandProcessor::new();
    p.key_event(key('Q'));
    let (quit, effects) = p.process(&map, (80, 24), &mut ids);
    assert!(quit);
    assert!(effects.is_empty());
    assert_eq!(p.get_prompt().as_str(), "quit");
}

#[test]
fn new_window_commit_emits_one_effect_and_leaves_command_mode() {
    let map = commands();
    let mut ids = IdAlloc::new();
    let mut p = CommandProcessor::new();
    p.key_event(key('n'));
    p.key_event(key('w'));
    let (quit, effects) = p.process(&map, (80, 24), &mut ids);
    assert!(!quit);
    assert_eq!(effects.len(), 1);
    let Effect::NewWindow(w) = &effects[0];
    assert_eq!(w.get_id(), 0);
    assert_eq!(w.get_size(), (80, 24));
    assert_eq!(w.get_pos(), (0, 0));
    assert!(!p.is_command_mode());
}

#[test]
fn full_match_clears_the_buffer() {
    let map = commands();
    let mut ids = IdAlloc::new();
    let mut p = CommandProcessor::new();
    p.key_event(key('Q'));
    let _ = p.process(&map, (80, 24), &mut ids);
    // the buffer was consumed: nothing left to pop
    p.key_event(Key::Backspace);
    assert_eq!(p.get_show().as_str(), "");
}

#[test]
fn window_ids_increase_across_interleaved_commits() {
    let map = commands();
    let mut ids = IdAlloc::new();
    let mut p = CommandProcessor::new();
    let mut seen: Vec<usize> = Vec::new();
    for _ in 0..3 {
        // return to command mode first: windows leave it on creation
        p.key_event(ctrl('c'));
        let _ = p.process(&map, (80, 24), &mut ids);
        p.key_event(key('n'));
        p.key_event(key('w'));
        let (_, effects) = p.process(&map, (80, 24), &mut ids);
        assert_eq!(effects.len(), 1);
        let Effect::NewWindow(w) = &effects[0];
        seen.push(w.get_id());
    }
    assert_eq!(seen, vec![0, 1, 2]);
}
