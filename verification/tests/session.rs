use shy::session::{host_name, new_session, update, Event, InputMode, Outcome, Session};

fn chars(s: &str) -> Vec<char> {
    s.chars().collect()
}

fn hosts(names: &[&str]) -> Vec<Vec<char>> {
    names.iter().map(|n| chars(n)).collect()
}

fn string_of(name: &[char]) -> String {
    name.iter().collect()
}

#[test]
fn cursor_wraps_up_and_down() {
    let hs = hosts(&["alpha", "beta", "gamma"]);
    let mut s = new_session();
    assert_eq!(s.cursor, 0);
    assert_eq!(update(&hs, &mut s, Event::Up), Outcome::Continue);
    assert_eq!(s.cursor, 2);
    assert_eq!(update(&hs, &mut s, Event::Up), Outcome::Continue);
    assert_eq!(s.cursor, 1);
    assert_eq!(update(&hs, &mut s, Event::Down), Outcome::Continue);
    assert_eq!(s.cursor, 2);
    assert_eq!(update(&hs, &mut s, Event::Down), Outcome::Continue);
    assert_eq!(s.cursor, 0);
}

#[test]
fn ctrl_p_and_ctrl_n_navigate_too() {
    let hs = hosts(&["alpha", "beta"]);
    let mut s = new_session();
    update(&hs, &mut s, Event::Ctrl('n'));
    assert_eq!(s.cursor, 1);
    update(&hs, &mut s, Event::Ctrl('n'));
    assert_eq!(s.cursor, 0);
    update(&hs, &mut s, Event::Ctrl('p'));
    assert_eq!(s.cursor, 1);
}

#[test]
fn single_host_navigation_stays_put() {
    let hs = hosts(&["only"]);
    let mut s = new_session();
    update(&hs, &mut s, Event::Up);
    assert_eq!(s.cursor, 0);
    update(&hs, &mut s, Event::Down);
    assert_eq!(s.cursor, 0);
}

#[test]
fn quit_keys_cancel_from_navigate() {
    let hs = hosts(&["alpha"]);
    let mut s = new_session();
    assert_eq!(update(&hs, &mut s, Event::Char('q')), Outcome::Cancelled);
    let mut s = new_session();
    assert_eq!(update(&hs, &mut s, Event::Ctrl('c')), Outcome::Cancelled);
}

#[test]
fn unbound_keys_are_ignored() {
    let hs = hosts(&["alpha", "beta"]);
    let mut s = new_session();
    assert_eq!(update(&hs, &mut s, Event::Char('x')), Outcome::Continue);
    assert_eq!(s.mode, InputMode::Navigate);
    assert_eq!(s.cursor, 0);
    assert!(s.buffer.is_empty());
    assert_eq!(update(&hs, &mut s, Event::Other), Outcome::Continue);
    assert_eq!(update(&hs, &mut s, Event::Backspace), Outcome::Continue);
    assert_eq!(s.cursor, 0);
}

#[test]
fn enter_search_with_i_or_s() {
    let hs = hosts(&["alpha"]);
    let mut s = new_session();
    update(&hs, &mut s, Event::Char('i'));
    assert_eq!(s.mode, InputMode::Search);
    let mut s = new_session();
    update(&hs, &mut s, Event::Char('s'));
    assert_eq!(s.mode, InputMode::Search);
}

#[test]
fn escape_clears_buffer_and_returns_to_navigate() {
    let hs = hosts(&["alpha", "beta"]);
    let mut s = new_session();
    update(&hs, &mut s, Event::Char('i'));
    update(&hs, &mut s, Event::Char('b'));
    update(&hs, &mut s, Event::Char('e'));
    assert_eq!(s.buffer, chars("be"));
    update(&hs, &mut s, Event::Esc);
    assert!(s.buffer.is_empty());
    assert_eq!(s.mode, InputMode::Navigate);
}

#[test]
fn ctrl_c_in_search_clears_buffer_and_returns_to_navigate() {
    let hs = hosts(&["alpha", "beta"]);
    let mut s = new_session();
    update(&hs, &mut s, Event::Char('s'));
    update(&hs, &mut s, Event::Char('z'));
    assert_eq!(update(&hs, &mut s, Event::Ctrl('c')), Outcome::Continue);
    assert!(s.buffer.is_empty());
    assert_eq!(s.mode, InputMode::Navigate);
}

#[test]
fn backspace_removes_last_character_and_is_safe_on_empty() {
    let hs = hosts(&["alpha"]);
    let mut s = new_session();
    update(&hs, &mut s, Event::Char('i'));
    update(&hs, &mut s, Event::Backspace);
    assert!(s.buffer.is_empty());
    update(&hs, &mut s, Event::Char('a'));
    update(&hs, &mut s, Event::Char('l'));
    update(&hs, &mut s, Event::Backspace);
    assert_eq!(s.buffer, chars("a"));
}

#[test]
fn confirm_on_empty_visible_list_is_a_noop() {
    let hs = hosts(&["alpha", "beta"]);
    let mut s = new_session();
    update(&hs, &mut s, Event::Char('i'));
    update(&hs, &mut s, Event::Char('q'));
    update(&hs, &mut s, Event::Char('x'));
    let mode = s.mode;
    let cursor = s.cursor;
    let buffer = s.buffer.clone();
    assert_eq!(update(&hs, &mut s, Event::Enter), Outcome::Continue);
    assert_eq!(s.mode, mode);
    assert_eq!(s.cursor, cursor);
    assert_eq!(s.buffer, buffer);
}

#[test]
fn confirm_on_empty_host_list_is_a_noop() {
    let hs = hosts(&[]);
    let mut s = new_session();
    assert_eq!(update(&hs, &mut s, Event::Enter), Outcome::Continue);
    assert_eq!(s.cursor, 0);
}

#[test]
fn wrap_around_then_confirm_chooses_first() {
    let hs = hosts(&["alpha", "beta", "gamma"]);
    let mut s = new_session();
    assert_eq!(s.mode, InputMode::Navigate);
    assert_eq!(s.cursor, 0);
    update(&hs, &mut s, Event::Down);
    assert_eq!(s.cursor, 1);
    update(&hs, &mut s, Event::Down);
    assert_eq!(s.cursor, 2);
    update(&hs, &mut s, Event::Down);
    assert_eq!(s.cursor, 0);
    let out = update(&hs, &mut s, Event::Enter);
    assert_eq!(out, Outcome::Chosen(0));
    match out {
        Outcome::Chosen(i) => assert_eq!(string_of(&host_name(&hs, i)), "alpha"),
        _ => panic!("expected a chosen host"),
    }
}

#[test]
fn search_narrows_then_confirm_chooses_match() {
    let hs = hosts(&["alpha", "beta", "gamma"]);
    let mut s = new_session();
    update(&hs, &mut s, Event::Char('i'));
    assert_eq!(s.mode, InputMode::Search);
    update(&hs, &mut s, Event::Char('b'));
    assert_eq!(s.buffer, chars("b"));
    assert_eq!(s.cursor, 0);
    let out = update(&hs, &mut s, Event::Enter);
    assert_eq!(out, Outcome::Chosen(1));
    match out {
        Outcome::Chosen(i) => assert_eq!(string_of(&host_name(&hs, i)), "beta"),
        _ => panic!("expected a chosen host"),
    }
}

#[test]
fn unmatched_search_blocks_confirm_until_escape() {
    let hs = hosts(&["alpha", "beta"]);
    let mut s = new_session();
    update(&hs, &mut s, Event::Char('i'));
    update(&hs, &mut s, Event::Char('z'));
    assert_eq!(s.buffer, chars("z"));
    assert_eq!(update(&hs, &mut s, Event::Enter), Outcome::Continue);
    assert_eq!(s.buffer, chars("z"));
    assert_eq!(s.mode, InputMode::Search);
    update(&hs, &mut s, Event::Esc);
    assert!(s.buffer.is_empty());
    assert_eq!(s.mode, InputMode::Navigate);
    assert_eq!(s.cursor, 0);
    let out = update(&hs, &mut s, Event::Enter);
    assert_eq!(out, Outcome::Chosen(0));
}

#[test]
fn narrowing_clamps_cursor_to_last_visible() {
    let hs = hosts(&["node-a", "node-b", "other"]);
    let mut s = new_session();
    update(&hs, &mut s, Event::Down);
    update(&hs, &mut s, Event::Down);
    assert_eq!(s.cursor, 2);
    update(&hs, &mut s, Event::Char('i'));
    update(&hs, &mut s, Event::Char('n'));
    assert_eq!(s.buffer, chars("n"));
    assert_eq!(s.cursor, 1);
}

#[test]
fn confirm_in_search_uses_filtered_positions() {
    let hs = hosts(&["web-1", "db-1", "web-2"]);
    let mut s = new_session();
    update(&hs, &mut s, Event::Char('i'));
    update(&hs, &mut s, Event::Char('w'));
    update(&hs, &mut s, Event::Char('e'));
    update(&hs, &mut s, Event::Char('b'));
    update(&hs, &mut s, Event::Down);
    assert_eq!(s.cursor, 0);
    let out = update(&hs, &mut s, Event::Enter);
    assert_eq!(out, Outcome::Chosen(0));
    match out {
        Outcome::Chosen(i) => assert_eq!(string_of(&host_name(&hs, i)), "web-1"),
        _ => panic!("expected a chosen host"),
    }
}
