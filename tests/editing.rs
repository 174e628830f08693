use message_client::text_field::TextField;

fn field_of(s: &str) -> TextField {
    TextField::from_text(s)
}

#[test]
fn new_field_is_empty() {
    let f = TextField::new();
    assert_eq!(f.content(), "");
    assert_eq!(f.cursor(), 0);
    assert_eq!(f.len(), 0);
}

#[test]
fn from_text_puts_cursor_at_end() {
    let f = field_of("héllo");
    assert_eq!(f.content(), "héllo");
    assert_eq!(f.cursor(), 5);
    assert_eq!(f.chars(), &vec!['h', 'é', 'l', 'l', 'o']);
}

#[test]
fn insert_at_cursor_moves_cursor() {
    let mut f = field_of("ac");
    f.move_left();
    f.insert('b');
    assert_eq!(f.content(), "abc");
    assert_eq!(f.cursor(), 2);
}

#[test]
fn delete_forward_removes_under_cursor() {
    let mut f = field_of("abc");
    f.move_left();
    f.move_left();
    f.delete_forward();
    assert_eq!(f.content(), "ac");
    assert_eq!(f.cursor(), 1);
}

#[test]
fn delete_forward_at_end_is_noop() {
    let mut f = field_of("abc");
    f.delete_forward();
    assert_eq!(f.content(), "abc");
    assert_eq!(f.cursor(), 3);
}

#[test]
fn delete_backward_removes_before_cursor() {
    let mut f = field_of("abc");
    f.delete_backward();
    assert_eq!(f.content(), "ab");
    assert_eq!(f.cursor(), 2);
}

#[test]
fn delete_backward_at_start_is_noop() {
    let mut f = field_of("abc");
    f.move_left();
    f.move_left();
    f.move_left();
    f.delete_backward();
    assert_eq!(f.content(), "abc");
    assert_eq!(f.cursor(), 0);
}

#[test]
fn cursor_stays_in_range_over_edit_sequence() {
    let mut f = TextField::new();
    let steps: Vec<u8> = vec![0, 0, 2, 1, 2, 2, 2, 0, 1, 1, 0, 2, 0, 0];
    for (i, s) in steps.iter().enumerate() {
        match s {
            0 => f.insert(char::from(b'a' + (i as u8 % 26))),
            1 => f.delete_forward(),
            _ => f.delete_backward(),
        }
        assert!(f.cursor() <= f.len());
    }
    assert_eq!(f.content(), "hmn");
}

#[test]
fn move_left_then_right_restores_interior_cursor() {
    for start in 1..=4usize {
        let mut f = field_of("abcd");
        while f.cursor() > start {
            f.move_left();
        }
        f.move_left();
        f.move_right();
        assert_eq!(f.cursor(), start);
        assert_eq!(f.content(), "abcd");
    }
}

#[test]
fn move_left_clamps_at_start() {
    let mut f = field_of("ab");
    f.move_left();
    f.move_left();
    f.move_left();
    assert_eq!(f.cursor(), 0);
    f.move_right();
    assert_eq!(f.cursor(), 1);
}

#[test]
fn move_right_clamps_at_end() {
    let mut f = field_of("ab");
    f.move_right();
    assert_eq!(f.cursor(), 2);
}

#[test]
fn clear_and_set_cursor_to_end() {
    let mut f = field_of("abc");
    f.move_left();
    f.move_left();
    f.set_cursor_to_end();
    assert_eq!(f.cursor(), 3);
    f.clear();
    assert_eq!(f.content(), "");
    assert_eq!(f.cursor(), 0);
}
