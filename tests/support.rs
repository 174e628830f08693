use message_client::config::ConfigField;
use message_client::directory::UserDirectory;
use message_client::display::{
    field_title, inner_area, input_title, message_count_text, popup_area, shown_chars, split_at_cursor,
    status_label, Area,
};
use message_client::input::InputEvent;
use message_client::keys::{event_for_key, Key};
use message_client::log_buffer::BufferedWriter;
use message_client::message::MessageSender;
use message_client::network::{ServerMessage, Token, User};
use message_client::poll::Poll;
use message_client::state::ConnectionStatus;
use message_client::text::{chars_of, has_visible_chars, push_decimal, push_two_digits};
use message_client::text_field::TextField;

#[test]
fn keys_map_to_events() {
    assert_eq!(event_for_key(Key::Char('c'), true), Some(InputEvent::Quit));
    assert_eq!(event_for_key(Key::Char('s'), true), Some(InputEvent::OpenConfig));
    assert_eq!(event_for_key(Key::Char('c'), false), Some(InputEvent::CharInput('c')));
    assert_eq!(event_for_key(Key::Enter, false), Some(InputEvent::Submit));
    assert_eq!(event_for_key(Key::Tab, false), Some(InputEvent::NextField));
    assert_eq!(event_for_key(Key::BackTab, false), Some(InputEvent::PrevField));
    assert_eq!(event_for_key(Key::Up, false), Some(InputEvent::ScrollUp));
    assert_eq!(event_for_key(Key::Other, true), None);
}

#[test]
fn poll_fires_after_interval() {
    let mut p = Poll::new(100, 1000);
    assert!(!p.poll(1050));
    assert!(p.poll(1100));
    assert!(!p.poll(1150));
    assert!(p.poll(1250));
    assert!(!p.poll(10));
}

#[test]
fn buffered_writer_collects_text() {
    let mut w = BufferedWriter::new();
    assert_eq!(w.get_contents(), "");
    assert_eq!(w.write(b"ab"), 2);
    assert_eq!(w.write("é!".as_bytes()), 3);
    assert_eq!(w.get_contents(), "abé!");
    w.write(&[0xff]);
    assert_eq!(w.get_contents(), "abé!\u{FFFD}");
}

#[test]
fn directory_names_users_and_messages() {
    let users = vec![
        User { id: 1, name: "ann".to_string() },
        User { id: 2, name: "bob".to_string() },
        User { id: 1, name: "amy".to_string() },
    ];
    let dir = UserDirectory::from_users(&users);
    assert!(!dir.is_empty());
    assert!(UserDirectory::new().is_empty());
    assert_eq!(dir.name_of(1), Some("amy".to_string()));
    assert_eq!(dir.name_of(3), None);
    let list = vec![
        ServerMessage { id: 9, body: "hi".to_string(), user_id: 2, in_reply_to: None, channel: "main".to_string(), created_at: 10 },
        ServerMessage { id: 10, body: "yo".to_string(), user_id: 5, in_reply_to: Some(9), channel: "main".to_string(), created_at: 11 },
    ];
    let msgs = dir.to_messages(&list);
    assert_eq!(msgs.len(), 2);
    assert_eq!(msgs[0].content, "hi");
    assert_eq!(msgs[0].username.as_deref(), Some("bob"));
    assert_eq!(msgs[0].sender, MessageSender::User(2));
    assert_eq!(msgs[1].timestamp, 11);
    assert_eq!(msgs[1].username, None);
    let mut t = Token { token: "t".to_string(), user_id: 2, expiry: 0, username: None };
    dir.label_token(&mut t);
    assert_eq!(t.username.as_deref(), Some("bob"));
}

#[test]
fn popup_geometry() {
    let a = popup_area(100, 40);
    assert_eq!(a, Area { x: 15, y: 12, width: 70, height: 15 });
    let b = popup_area(50, 10);
    assert_eq!(b, Area { x: 5, y: 0, width: 40, height: 15 });
    assert_eq!(popup_area(5, 5).width, 0);
    assert_eq!(inner_area(a), Area { x: 17, y: 14, width: 66, height: 11 });
}

#[test]
fn cursor_split_parts() {
    let text = vec!['a', 'b', 'c'];
    let s = split_at_cursor(&text, 1);
    assert_eq!((s.before.as_str(), s.at.as_str(), s.after.as_str()), ("a", "b", "c"));
    let s = split_at_cursor(&text, 3);
    assert_eq!((s.before.as_str(), s.at.as_str(), s.after.as_str()), ("abc", " ", ""));
    let s = split_at_cursor(&Vec::new(), 0);
    assert_eq!((s.before.as_str(), s.at.as_str(), s.after.as_str()), ("", " ", ""));
}

#[test]
fn display_texts() {
    let f = TextField::from_text("pw1");
    assert_eq!(shown_chars(&f, true), vec!['*', '*', '*']);
    assert_eq!(shown_chars(&f, false), vec!['p', 'w', '1']);
    assert_eq!(field_title(ConfigField::ServerUrl, true), " Server URL (editing) ");
    assert_eq!(field_title(ConfigField::Username, false), " Username ");
    assert_eq!(input_title(12, true), "Input (Active) 12/500 ");
    assert_eq!(input_title(0, false), "Input 0/500 ");
    assert_eq!(status_label(ConnectionStatus::Connecting), "Connecting...");
    assert_eq!(message_count_text(3), "3 messages");
}

#[test]
fn visible_chars_ignore_white_space() {
    assert!(!has_visible_chars(&vec![]));
    assert!(!has_visible_chars(&vec![' ', '\t', '\n', '\u{A0}']));
    assert!(has_visible_chars(&vec![' ', 'x', ' ']));
    assert!(!has_visible_chars(&vec!['\u{85}', '\u{1680}', '\u{2028}', '\u{202F}', '\u{3000}', '\r']));
    assert!(has_visible_chars(&vec!['\u{200B}']));
}

#[test]
fn decimal_and_chars_helpers() {
    let mut v = chars_of("n=");
    push_decimal(&mut v, 1234);
    assert_eq!(v.iter().collect::<String>(), "n=1234");
    let mut z = Vec::new();
    push_decimal(&mut z, 0);
    push_two_digits(&mut z, 7);
    assert_eq!(z.iter().collect::<String>(), "007");
}
