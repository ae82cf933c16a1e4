use spotify_player::command::Command;
use spotify_player::config::{AppConfig, Keymap, KeymapConfig, Theme, ThemeConfig};
use spotify_player::key::{Key, KeyCode, KeySequence};

fn ch(c: char) -> Key {
    Key::Plain(KeyCode::Char(c))
}

fn seq(keys: &[Key]) -> KeySequence {
    KeySequence { keys: keys.to_vec() }
}

fn keymap() -> KeymapConfig {
    KeymapConfig {
        keymaps: vec![
            Keymap { key_sequence: seq(&[ch('n')]), command: Command::NextTrack },
            Keymap { key_sequence: seq(&[ch('g'), ch('g')]), command: Command::SelectNextOrScrollDown },
            Keymap { key_sequence: seq(&[ch('g'), ch('s')]), command: Command::SearchPage },
            Keymap { key_sequence: seq(&[Key::Ctrl(KeyCode::Char('c'))]), command: Command::Quit },
            Keymap { key_sequence: seq(&[ch('u'), ch('p')]), command: Command::BrowseUserPlaylists },
        ],
    }
}

#[test]
fn key_sequence_constructors() {
    assert_eq!(KeySequence::new().keys, Vec::<Key>::new());
    assert_eq!(KeySequence::single(ch('a')).keys, vec![ch('a')]);
    assert_eq!(seq(&[ch('a')]).pushed(ch('b')).keys, vec![ch('a'), ch('b')]);
}

#[test]
fn prefix_and_equality_of_sequences() {
    let g = seq(&[ch('g')]);
    let gg = seq(&[ch('g'), ch('g')]);
    assert!(g.is_prefix(&gg));
    assert!(!gg.is_prefix(&g));
    assert!(gg.is_prefix(&gg));
    assert!(KeySequence::new().is_prefix(&g));
    assert!(!seq(&[ch('s')]).is_prefix(&gg));
    assert!(gg.same_keys(&seq(&[ch('g'), ch('g')])));
    assert!(!gg.same_keys(&g));
    assert!(!seq(&[Key::Ctrl(KeyCode::Char('g'))]).same_keys(&g));
}

#[test]
fn matched_prefix_keymaps_are_listed_in_order() {
    let k = keymap();
    assert_eq!(k.find_matched_prefix_keymaps(&seq(&[ch('g')])), vec![1, 2]);
    assert_eq!(k.find_matched_prefix_keymaps(&seq(&[ch('g'), ch('s')])), vec![2]);
    assert_eq!(k.find_matched_prefix_keymaps(&KeySequence::new()), vec![0, 1, 2, 3, 4]);
    assert_eq!(k.find_matched_prefix_keymaps(&seq(&[ch('x')])), Vec::<usize>::new());
    assert_eq!(k.find_matched_prefix_keymaps(&seq(&[ch('n'), ch('n')])), Vec::<usize>::new());
}

#[test]
fn full_match_resolves_to_its_command() {
    let k = keymap();
    assert_eq!(k.find_command_from_key_sequence(&seq(&[ch('n')])), Some(Command::NextTrack));
    assert_eq!(k.find_command_from_key_sequence(&seq(&[ch('g'), ch('s')])), Some(Command::SearchPage));
    assert_eq!(
        k.find_command_from_key_sequence(&seq(&[Key::Ctrl(KeyCode::Char('c'))])),
        Some(Command::Quit)
    );
}

#[test]
fn prefix_alone_resolves_to_nothing() {
    let k = keymap();
    assert_eq!(k.find_command_from_key_sequence(&seq(&[ch('g')])), None);
    assert_eq!(k.find_command_from_key_sequence(&KeySequence::new()), None);
    assert_eq!(k.find_command_from_key_sequence(&seq(&[ch('g'), ch('g'), ch('g')])), None);
}

#[test]
fn first_entry_wins_among_equal_sequences() {
    let k = KeymapConfig {
        keymaps: vec![
            Keymap { key_sequence: seq(&[ch('q')]), command: Command::Quit },
            Keymap { key_sequence: seq(&[ch('q')]), command: Command::Shuffle },
        ],
    };
    assert_eq!(k.find_command_from_key_sequence(&seq(&[ch('q')])), Some(Command::Quit));
}

#[test]
fn active_theme_moves_to_front() {
    let names = ["default", "dracula", "nord", "gruvbox"];
    let config = ThemeConfig {
        themes: names.iter().map(|n| Theme { name: n.to_string() }).collect(),
    };
    let listed = config.themes_with_active_first(&Theme { name: "nord".to_string() });
    let got: Vec<&str> = listed.iter().map(|t| t.name.as_str()).collect();
    assert_eq!(got, vec!["nord", "default", "dracula", "gruvbox"]);
    let listed = config.themes_with_active_first(&Theme { name: "default".to_string() });
    let got: Vec<&str> = listed.iter().map(|t| t.name.as_str()).collect();
    assert_eq!(got, vec!["default", "dracula", "nord", "gruvbox"]);
}

#[test]
fn unknown_active_theme_keeps_the_order() {
    let config = ThemeConfig {
        themes: vec![Theme { name: "a".to_string() }, Theme { name: "b".to_string() }],
    };
    let listed = config.themes_with_active_first(&Theme { name: "zzz".to_string() });
    assert_eq!(listed, config.themes);
    let none = ThemeConfig { themes: vec![] };
    assert_eq!(none.themes_with_active_first(&Theme { name: "a".to_string() }), vec![]);
}

#[test]
fn first_of_two_themes_with_the_active_name_moves() {
    let config = ThemeConfig {
        themes: vec![
            Theme { name: "a".to_string() },
            Theme { name: "b".to_string() },
            Theme { name: "c".to_string() },
            Theme { name: "b".to_string() },
        ],
    };
    let listed = config.themes_with_active_first(&Theme { name: "b".to_string() });
    let got: Vec<&str> = listed.iter().map(|t| t.name.as_str()).collect();
    assert_eq!(got, vec!["b", "a", "c", "b"]);
}

#[test]
fn refresh_timer_runs_only_with_a_positive_period() {
    assert_eq!(AppConfig { playback_refresh_duration_in_ms: 0 }.refresh_timer_period(), None);
    assert_eq!(AppConfig { playback_refresh_duration_in_ms: 1 }.refresh_timer_period(), Some(1));
    assert_eq!(
        AppConfig { playback_refresh_duration_in_ms: 5000 }.refresh_timer_period(),
        Some(5000)
    );
}
