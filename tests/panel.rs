use message_client::config::{Config, ConfigField, DEFAULT_SERVER_URL, FIELD_COUNT};

#[test]
fn new_config_is_hidden_and_focused_on_username() {
    let c = Config::new();
    assert!(!c.is_visible());
    assert_eq!(c.focused_field(), ConfigField::Username);
    assert_eq!(c.field(ConfigField::Username).content(), "");
    assert_eq!(c.field(ConfigField::Password).content(), "");
    assert_eq!(c.field(ConfigField::ServerUrl).content(), DEFAULT_SERVER_URL);
}

#[test]
fn focus_next_cycles_through_all_fields() {
    let mut c = Config::new();
    c.open();
    for _ in 0..FIELD_COUNT {
        let before = c.focused_field();
        for _ in 0..FIELD_COUNT {
            c.next_field();
        }
        assert_eq!(c.focused_field(), before);
        c.next_field();
    }
}

#[test]
fn focus_order_forward_and_back() {
    let mut c = Config::new();
    c.next_field();
    assert_eq!(c.focused_field(), ConfigField::Password);
    c.next_field();
    assert_eq!(c.focused_field(), ConfigField::ServerUrl);
    c.next_field();
    assert_eq!(c.focused_field(), ConfigField::Username);
    c.previous_field();
    assert_eq!(c.focused_field(), ConfigField::ServerUrl);
    c.previous_field();
    assert_eq!(c.focused_field(), ConfigField::Password);
}

#[test]
fn focus_change_puts_cursor_at_end() {
    let mut c = Config::new();
    for ch in "bob".chars() {
        c.insert_char(ch);
    }
    c.move_cursor_left();
    c.move_cursor_left();
    c.next_field();
    c.insert_char('x');
    c.insert_char('y');
    c.move_cursor_left();
    c.previous_field();
    assert_eq!(c.focused_field(), ConfigField::Username);
    assert_eq!(c.current_field().cursor(), 3);
    c.previous_field();
    assert_eq!(c.focused_field(), ConfigField::ServerUrl);
    assert_eq!(c.current_field().cursor(), DEFAULT_SERVER_URL.chars().count());
    c.previous_field();
    assert_eq!(c.current_field().content(), "xy");
    assert_eq!(c.current_field().cursor(), 2);
}

#[test]
fn edits_reach_only_focused_field() {
    let mut c = Config::new();
    c.insert_char('a');
    c.insert_char('b');
    c.backspace();
    c.next_field();
    c.insert_char('p');
    c.insert_char('w');
    c.move_cursor_left();
    c.delete_char();
    c.move_cursor_right();
    assert_eq!(c.field(ConfigField::Username).content(), "a");
    assert_eq!(c.field(ConfigField::Password).content(), "p");
    assert_eq!(c.field(ConfigField::ServerUrl).content(), DEFAULT_SERVER_URL);
}

#[test]
fn hide_then_show_focuses_first_field() {
    let mut c = Config::new();
    c.open();
    c.next_field();
    c.next_field();
    assert_eq!(c.focused_field(), ConfigField::ServerUrl);
    c.close();
    assert!(!c.is_visible());
    c.open();
    assert!(c.is_visible());
    assert_eq!(c.focused_field(), ConfigField::Username);
}

#[test]
fn close_keeps_typed_values() {
    let mut c = Config::new();
    c.open();
    c.insert_char('u');
    c.next_field();
    c.insert_char('s');
    c.close();
    assert_eq!(c.field(ConfigField::Username).content(), "u");
    assert_eq!(c.field(ConfigField::Password).content(), "s");
}

#[test]
fn field_next_and_previous() {
    assert_eq!(ConfigField::Username.next(), ConfigField::Password);
    assert_eq!(ConfigField::ServerUrl.next(), ConfigField::Username);
    assert_eq!(ConfigField::Username.previous(), ConfigField::ServerUrl);
    assert_eq!(ConfigField::Password.previous(), ConfigField::Username);
}
