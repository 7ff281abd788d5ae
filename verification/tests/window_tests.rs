use cli_chat::LineWindow;

fn push_all(w: &mut LineWindow, lines: &[&str]) {
    for l in lines {
        w.push(l.as_bytes().to_vec());
    }
}

#[test]
fn window_keeps_last_two_lines() {
    let mut w = LineWindow::new(2);
    push_all(&mut w, &["a", "b", "c", "d"]);
    assert_eq!(w.len(), 2);
    assert_eq!(w.line(0).as_slice(), b"c");
    assert_eq!(w.line(1).as_slice(), b"d");
}

#[test]
fn window_under_capacity_keeps_everything_in_order() {
    let mut w = LineWindow::new(100);
    push_all(&mut w, &["first", "second", "third"]);
    assert_eq!(w.len(), 3);
    assert_eq!(w.line(0).as_slice(), b"first");
    assert_eq!(w.line(1).as_slice(), b"second");
    assert_eq!(w.line(2).as_slice(), b"third");
}

#[test]
fn window_capacity_zero_holds_nothing() {
    let mut w = LineWindow::new(0);
    push_all(&mut w, &["a", "b"]);
    assert_eq!(w.len(), 0);
    assert_eq!(w.joined(), b"".to_vec());
}

#[test]
fn window_capacity_equal_to_input_length() {
    let mut w = LineWindow::new(4);
    push_all(&mut w, &["a", "b", "c", "d"]);
    assert_eq!(w.len(), 4);
    assert_eq!(w.line(0).as_slice(), b"a");
    assert_eq!(w.line(3).as_slice(), b"d");
}

#[test]
fn from_lines_matches_pushing_one_by_one() {
    let lines: Vec<Vec<u8>> = vec![b"a".to_vec(), b"b".to_vec(), b"c".to_vec(), b"d".to_vec()];
    let w = LineWindow::from_lines(lines, 2);
    assert_eq!(w.len(), 2);
    assert_eq!(w.line(0).as_slice(), b"c");
    assert_eq!(w.line(1).as_slice(), b"d");
}

#[test]
fn joined_empty_window_is_empty_string() {
    let w = LineWindow::new(3);
    assert_eq!(w.joined(), b"".to_vec());
}

#[test]
fn joined_uses_newlines_and_trims_ends() {
    let mut w = LineWindow::new(10);
    push_all(&mut w, &["  hello ", "world", " bye  "]);
    assert_eq!(w.joined(), b"hello \nworld\n bye".to_vec());
}

#[test]
fn joined_all_whitespace_becomes_empty() {
    let mut w = LineWindow::new(5);
    push_all(&mut w, &[" ", "\t"]);
    assert_eq!(w.joined(), b"".to_vec());
}
