use tdlist::configuration::{
    key_from_lowercase, key_from_str, Color, Colors, DateFormats, Icons, Key, KeyBindings,
    KeyError, SettingsBuilder,
};

#[test]
fn default_date_formats() {
    let f = DateFormats::new();
    assert_eq!(f.display_date_format, "%Y-%m-%d");
    assert_eq!(f.display_datetime_format, "%Y-%m-%d %H:%M:%S");
    assert_eq!(f.input_date_format, "%Y-%m-%d");
    assert_eq!(f.input_date_hint, "YYYY-MM-DD");
    assert_eq!(f.input_datetime_format, "%Y-%m-%d %H:%M:%S");
    assert_eq!(f.input_datetime_hint, "YYYY-MM-DD HH:MM:SS");
}

#[test]
fn default_icons_and_padding() {
    let icons = Icons::default();
    assert_eq!(icons.complete, "[x]");
    assert_eq!(icons.incomplete, "[ ]");
    assert_eq!(icons.repeats, "[r]");
    assert_eq!(icons.get_complete_icon(true), " [x]");
    assert_eq!(icons.get_complete_icon(false), " [ ]");
    let custom = Icons { complete: "✔".to_string(), incomplete: "".to_string(), repeats: "r".to_string() };
    assert_eq!(custom.get_complete_icon(true), " ✔");
    assert_eq!(custom.get_complete_icon(false), " ");
}

#[test]
fn default_colors_and_bindings() {
    let c = Colors::default();
    assert_eq!(c.primary_color, Color::LightGreen);
    assert_eq!(c.secondary_color, Color::LightYellow);
    assert_eq!(c.accent_color, Color::LightBlue);
    let k = KeyBindings::default();
    assert_eq!(k.quit, Key::Char('q'));
    assert_eq!(k.down, Key::Down);
    assert_eq!(k.up, Key::Up);
    assert_eq!(k.complete_task, Key::Char(' '));
    assert_eq!(k.toggle_completed_tasks, Key::Char('h'));
    assert_eq!(k.delete_task, Key::Delete);
    assert_eq!(k.new_task, Key::Char('n'));
    assert_eq!(k.edit_task, Key::Char('e'));
    assert_eq!(k.save_changes, Key::Enter);
    assert_eq!(k.enter_insert_mode, Key::Char('i'));
    assert_eq!(k.enter_normal_mode, Key::Esc);
    assert_eq!(k.go_back, Key::Esc);
    assert_eq!(k.open_link, Key::Enter);
    assert_eq!(k.next_group, Key::Right);
    assert_eq!(k.prev_group, Key::Left);
}

#[test]
fn default_settings() {
    let b = SettingsBuilder::default();
    assert!(b.show_complete);
    assert_eq!(b.current_group, None);
    let s = b.build();
    assert!(s.show_complete);
    assert_eq!(s.current_group, None);
    assert_eq!(s.icons, Icons::default());
    assert_eq!(s.date_formats, DateFormats::new());
    assert_eq!(s.colors, Colors::default());
    assert_eq!(s.keybindings, KeyBindings::default());
}

#[test]
fn key_names_are_read_in_any_case() {
    assert_eq!(key_from_str("Esc"), Ok(Key::Esc));
    assert_eq!(key_from_str("ESC"), Ok(Key::Esc));
    assert_eq!(key_from_str("esc"), Ok(Key::Esc));
    assert_eq!(key_from_str("PageDown"), Ok(Key::PageDown));
    assert_eq!(key_from_str("F12"), Ok(Key::F(12)));
    assert_eq!(key_from_str("Space"), Ok(Key::Char(' ')));
    assert_eq!(key_from_str("Q"), Ok(Key::Char('q')));
    assert_eq!(key_from_str("q"), Ok(Key::Char('q')));
    assert_eq!(key_from_str(" "), Ok(Key::Char(' ')));
    assert_eq!(key_from_str("CapsLock"), Ok(Key::Null));
}

#[test]
fn every_lowercase_key_name() {
    let names = vec![
        ("esc", Key::Esc),
        ("backspace", Key::Backspace),
        ("left", Key::Left),
        ("right", Key::Right),
        ("up", Key::Up),
        ("down", Key::Down),
        ("home", Key::Home),
        ("end", Key::End),
        ("delete", Key::Delete),
        ("insert", Key::Insert),
        ("pageup", Key::PageUp),
        ("pagedown", Key::PageDown),
        ("f1", Key::F(1)),
        ("f2", Key::F(2)),
        ("f3", Key::F(3)),
        ("f4", Key::F(4)),
        ("f5", Key::F(5)),
        ("f6", Key::F(6)),
        ("f7", Key::F(7)),
        ("f8", Key::F(8)),
        ("f9", Key::F(9)),
        ("f10", Key::F(10)),
        ("f11", Key::F(11)),
        ("f12", Key::F(12)),
        ("space", Key::Char(' ')),
        ("tab", Key::Tab),
        ("backtab", Key::BackTab),
        ("null", Key::Null),
        ("capslock", Key::Null),
        ("scrolllock", Key::ScrollLock),
        ("numlock", Key::NumLock),
        ("printscreen", Key::PrintScreen),
        ("pause", Key::Pause),
        ("menu", Key::Menu),
        ("keypadbegin", Key::KeypadBegin),
        ("enter", Key::Enter),
        ("x", Key::Char('x')),
        ("7", Key::Char('7')),
    ];
    for (name, key) in names {
        assert_eq!(key_from_lowercase(name), Ok(key));
    }
}

#[test]
fn unknown_key_names_are_refused() {
    assert_eq!(key_from_str(""), Err(KeyError::InvalidKey));
    assert_eq!(key_from_str("f13"), Err(KeyError::InvalidKey));
    assert_eq!(key_from_str("escape"), Err(KeyError::InvalidKey));
    assert_eq!(key_from_str("é"), Err(KeyError::InvalidKey));
    assert_eq!(key_from_lowercase("Esc"), Err(KeyError::InvalidKey));
    assert_eq!(KeyError::InvalidKey.message(), "Invalid key");
}

#[test]
fn keys_are_written_by_name() {
    assert_eq!(KeyBindings::key_to_str(&Key::Esc), "Esc");
    assert_eq!(KeyBindings::key_to_str(&Key::Backspace), "Backspace");
    assert_eq!(KeyBindings::key_to_str(&Key::Left), "Left");
    assert_eq!(KeyBindings::key_to_str(&Key::Right), "Right");
    assert_eq!(KeyBindings::key_to_str(&Key::Up), "Up");
    assert_eq!(KeyBindings::key_to_str(&Key::Down), "Down");
    assert_eq!(KeyBindings::key_to_str(&Key::Home), "Home");
    assert_eq!(KeyBindings::key_to_str(&Key::End), "End");
    assert_eq!(KeyBindings::key_to_str(&Key::Delete), "Delete");
    assert_eq!(KeyBindings::key_to_str(&Key::Insert), "Insert");
    assert_eq!(KeyBindings::key_to_str(&Key::PageUp), "PageUp");
    assert_eq!(KeyBindings::key_to_str(&Key::PageDown), "PageDown");
    assert_eq!(KeyBindings::key_to_str(&Key::F(1)), "F1");
    assert_eq!(KeyBindings::key_to_str(&Key::F(9)), "F9");
    assert_eq!(KeyBindings::key_to_str(&Key::F(12)), "F12");
    assert_eq!(KeyBindings::key_to_str(&Key::F(13)), "Unknown");
    assert_eq!(KeyBindings::key_to_str(&Key::F(0)), "Unknown");
    assert_eq!(KeyBindings::key_to_str(&Key::Char(' ')), "Space");
    assert_eq!(KeyBindings::key_to_str(&Key::Char('q')), "q");
    assert_eq!(KeyBindings::key_to_str(&Key::Char('é')), "é");
    assert_eq!(KeyBindings::key_to_str(&Key::Tab), "Tab");
    assert_eq!(KeyBindings::key_to_str(&Key::Enter), "Enter");
    assert_eq!(KeyBindings::key_to_str(&Key::BackTab), "Unknown");
    assert_eq!(KeyBindings::key_to_str(&Key::Null), "Unknown");
    assert_eq!(KeyBindings::key_to_str(&Key::CapsLock), "Unknown");
    assert_eq!(KeyBindings::key_to_str(&Key::Other), "Unknown");
}

#[test]
fn default_bindings_read_back_from_their_names() {
    let k = KeyBindings::default();
    let keys = vec![
        k.quit, k.down, k.up, k.complete_task, k.toggle_completed_tasks, k.delete_task,
        k.new_task, k.edit_task, k.save_changes, k.enter_insert_mode, k.enter_normal_mode,
        k.go_back, k.open_link, k.next_group, k.prev_group,
    ];
    for key in keys {
        assert_eq!(key_from_str(&KeyBindings::key_to_str(&key)), Ok(key));
    }
}
