use muxde::application::{Application, CursorAction, Event};
use muxde::buffer::Buffer;
use muxde::colortheme::{ColorTheme, Rgb};
use muxde::command::Key;
use muxde::config::ConfigValue;
use muxde::window::editor::Editor;

fn leaf(name: &str, binding: &str) -> (String, ConfigValue) {
    (String::from(name), ConfigValue::Str(String::from(binding)))
}

fn rgb(name: &str, r: i64, g: i64, b: i64) -> (String, ConfigValue) {
    (
        String::from(name),
        ConfigValue::Arr(vec![ConfigValue::Int(r), ConfigValue::Int(g), ConfigValue::Int(b)]),
    )
}

fn color_table() -> Vec<(String, ConfigValue)> {
    vec![
        rgb("background", 10, 20, 30),
        rgb("command-bar", 40, 50, 60),
        rgb("cmdbar-prompt", 70, 80, 90),
        rgb("cmdbar-cmdexist", 100, 110, 120),
        rgb("cmdbar-cmdunexist", 200, 0, 0),
    ]
}

fn sample_config() -> Vec<(String, ConfigValue)> {
    vec![
        (String::from("colortheme"), ConfigValue::Table(color_table())),
        (
            String::from("command"),
            ConfigValue::Table(vec![
                leaf("quit", "Q"),
                leaf("new-window", "nw"),
                leaf("command-mode", "C-c"),
            ]),
        ),
    ]
}

fn key(c: char) -> Key {
    Key::Char { c, control: false, alt: false }
}

#[test]
fn startup_resolves_the_theme() {
    let app = Application::new(sample_config(), (80, 24)).unwrap();
    let theme = app.theme();
    assert_eq!(theme.background, Rgb { r: 10, g: 20, b: 30 });
    assert_eq!(theme.cmdbar_cmdunexist, Rgb { r: 200, g: 0, b: 0 });
    assert_eq!(app.size(), (80, 24));
    assert!(app.windows().is_empty());
}

#[test]
fn startup_fails_without_a_color_table() {
    let config = vec![(
        String::from("command"),
        ConfigValue::Table(vec![leaf("quit", "Q")]),
    )];
    assert!(Application::new(config, (80, 24)).is_none());
}

#[test]
fn startup_fails_on_a_missing_color_slot() {
    let mut colors = color_table();
    colors.pop();
    let config = vec![
        (String::from("colortheme"), ConfigValue::Table(colors)),
        (String::from("command"), ConfigValue::Table(vec![leaf("quit", "Q")])),
    ];
    assert!(Application::new(config, (80, 24)).is_none());
}

#[test]
fn startup_fails_on_a_short_color_array() {
    let mut colors = color_table();
    colors[0] = (
        String::from("background"),
        ConfigValue::Arr(vec![ConfigValue::Int(1), ConfigValue::Int(2)]),
    );
    let config = vec![
        (String::from("colortheme"), ConfigValue::Table(colors)),
        (String::from("command"), ConfigValue::Table(vec![leaf("quit", "Q")])),
    ];
    assert!(Application::new(config, (80, 24)).is_none());
}

#[test]
fn startup_fails_without_a_command_table() {
    let config = vec![(String::from("colortheme"), ConfigValue::Table(color_table()))];
    assert!(Application::new(config, (80, 24)).is_none());
}

#[test]
fn startup_fails_on_a_malformed_command_tree() {
    let config = vec![
        (String::from("colortheme"), ConfigValue::Table(color_table())),
        (
            String::from("command"),
            ConfigValue::Table(vec![(String::from("quit"), ConfigValue::Int(7))]),
        ),
    ];
    assert!(Application::new(config, (80, 24)).is_none());
}

#[test]
fn focus_events_drive_the_cursor() {
    let mut app = Application::new(sample_config(), (80, 24)).unwrap();
    assert_eq!(app.handle_event(Event::FocusGained), CursorAction::Show);
    assert_eq!(app.handle_event(Event::FocusLost), CursorAction::Hide);
    assert_eq!(app.handle_event(Event::Mouse), CursorAction::Keep);
    assert_eq!(app.handle_event(Event::Paste), CursorAction::Keep);
}

#[test]
fn committing_new_window_registers_a_window() {
    let mut app = Application::new(sample_config(), (80, 24)).unwrap();
    app.handle_event(Event::Key(key('n')));
    app.handle_event(Event::Key(key('w')));
    let quit = app.command_process();
    assert!(!quit);
    assert_eq!(app.windows().len(), 1);
    assert_eq!(app.windows()[0].get_id(), 0);
    assert_eq!(app.windows()[0].get_size(), (80, 24));
}

#[test]
fn repeated_window_commits_never_reuse_identifiers() {
    let mut app = Application::new(sample_config(), (80, 24)).unwrap();
    let mut seen: Vec<usize> = Vec::new();
    for _ in 0..3 {
        // new-window leaves command mode; Ctrl+c returns to it
        app.handle_event(Event::Key(key('n')));
        app.handle_event(Event::Key(key('w')));
        assert!(!app.command_process());
        seen.push(app.windows().last().unwrap().get_id());
        app.handle_event(Event::Key(Key::Char { c: 'c', control: true, alt: false }));
        assert!(!app.command_process());
    }
    assert_eq!(seen, vec![0, 1, 2]);
    assert_eq!(app.windows().len(), 3);
}

#[test]
fn quit_commit_stops_the_loop() {
    let mut app = Application::new(sample_config(), (80, 24)).unwrap();
    app.handle_event(Event::Key(key('Q')));
    assert!(app.command_process());
}

#[test]
fn resize_applies_to_the_next_render() {
    let mut app = Application::new(sample_config(), (80, 24)).unwrap();
    app.handle_event(Event::Key(key('n')));
    assert!(!app.command_process());
    let wide = app.render();
    assert_eq!(wide.prompt.as_str(), " - new-window");
    // shrink the terminal: the very next render obeys the new width
    assert_eq!(app.handle_event(Event::Resize(8, 24)), CursorAction::Keep);
    assert_eq!(app.size(), (8, 24));
    let narrow = app.render();
    assert_eq!(narrow.show.as_str(), "n");
    assert_eq!(narrow.suggestion.as_str(), "w");
    assert_eq!(narrow.prompt.as_str(), " - ne");
    assert_eq!(narrow.pad, 1);
}

#[test]
fn render_flags_unknown_input() {
    let mut app = Application::new(sample_config(), (80, 24)).unwrap();
    app.handle_event(Event::Key(key('z')));
    assert!(!app.command_process());
    let line = app.render();
    assert!(line.unknown);
    assert_eq!(line.show.as_str(), "z");
    assert_eq!(line.prompt.as_str(), " - Unknown command");
}

#[test]
fn new_buffer_starts_focused_and_can_lose_focus() {
    let mut b = Buffer::new();
    assert!(b.is_focused());
    b.disfocuse();
    assert!(!b.is_focused());
    b.focuse();
    assert!(b.is_focused());
}

#[test]
fn new_editor_window_is_positioned_at_the_origin() {
    let mut e = Editor::new(7, (100, 40));
    assert_eq!(e.get_id(), 7);
    assert_eq!(e.get_pos(), (0, 0));
    assert_eq!(e.get_size(), (100, 40));
    e.set_pos((3, 4));
    e.set_size((50, 20));
    assert_eq!(e.get_pos(), (3, 4));
    assert_eq!(e.get_size(), (50, 20));
}

#[test]
fn theme_channels_are_truncated_to_bytes() {
    let mut colors = color_table();
    colors[0] = rgb("background", 256, -1, 300);
    let table = colors;
    let theme = ColorTheme::from_config(&table).unwrap();
    assert_eq!(theme.background, Rgb { r: 0, g: 255, b: 44 });
}
