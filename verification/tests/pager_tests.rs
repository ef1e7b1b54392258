use pcsv::config::PagerConfig;
use pcsv::pager::{EventOutcome, Key, KeyInput, Pager, PagerEvent, PagerState};

fn key(code: Key) -> KeyInput {
    KeyInput { code, ctrl: false }
}

fn cfg() -> PagerConfig {
    PagerConfig { scroll_single_line: 1, scroll_multi_line: 10 }
}

fn lines(n: usize) -> Vec<String> {
    (0..n).map(|i| format!("line {}", i)).collect()
}

#[test]
fn total_pages_is_ceiling() {
    assert_eq!(PagerState::new(100, 80, 20).total_pages, 5);
    assert_eq!(PagerState::new(57, 80, 20).total_pages, 3);
    assert_eq!(PagerState::new(1, 80, 20).total_pages, 1);
    assert_eq!(PagerState::new(20, 80, 20).total_pages, 1);
    assert_eq!(PagerState::new(21, 80, 20).total_pages, 2);
    assert_eq!(PagerState::new(7, 80, 1).total_pages, 7);
}

#[test]
fn zero_height_gives_one_page() {
    let s = PagerState::new(100, 80, 0);
    assert_eq!(s.total_pages, 1);
    assert_eq!(s.rows_per_page, 0);
}

#[test]
fn zero_height_navigation_does_not_divide() {
    let mut s = PagerState::new(10, 80, 0);
    s.next_row();
    assert_eq!(s.current_row, 1);
    assert_eq!(s.current_page, 0);
    s.scroll_down(5);
    assert_eq!(s.current_row, 6);
    assert_eq!(s.current_page, 0);
    s.prev_row();
    s.scroll_up(100);
    assert_eq!(s.current_row, 0);
    assert_eq!(s.get_page_start(), 0);
    assert_eq!(s.get_page_end(), 0);
    assert_eq!(s.get_viewport_start(), 0);
    assert_eq!(s.get_viewport_end(), 0);
}

#[test]
fn goto_page_clamps_far_input() {
    let mut s = PagerState::new(100, 80, 20);
    s.go_to_page(10);
    assert_eq!(s.current_page, 4);
    assert_eq!(s.current_row, 80);
    s.go_to_page(usize::MAX);
    assert_eq!(s.current_page, 4);
    s.go_to_page(2);
    assert_eq!(s.current_page, 2);
    assert_eq!(s.current_row, 40);
}

#[test]
fn scroll_down_clamps_to_last_row() {
    let mut s = PagerState::new(100, 80, 20);
    s.scroll_down(250);
    assert_eq!(s.current_row, 99);
    assert_eq!(s.current_page, 4);
}

#[test]
fn scroll_up_saturates_at_zero() {
    let mut s = PagerState::new(100, 80, 20);
    s.scroll_down(50);
    assert_eq!(s.current_row, 50);
    s.scroll_up(usize::MAX);
    assert_eq!(s.current_row, 0);
    assert_eq!(s.current_page, 0);
}

#[test]
fn row_stepping_stays_in_bounds() {
    let mut s = PagerState::new(2, 80, 20);
    s.prev_row();
    assert_eq!(s.current_row, 0);
    s.next_row();
    assert_eq!(s.current_row, 1);
    s.next_row();
    assert_eq!(s.current_row, 1);
    s.prev_row();
    assert_eq!(s.current_row, 0);
}

#[test]
fn page_stepping_stops_at_ends() {
    let mut s = PagerState::new(57, 80, 20);
    s.prev_page();
    assert_eq!(s.current_page, 0);
    s.next_page();
    assert_eq!(s.current_page, 1);
    assert_eq!(s.current_row, 20);
    s.next_page();
    s.next_page();
    assert_eq!(s.current_page, 2);
    assert_eq!(s.current_row, 40);
}

#[test]
fn go_to_last_on_57_rows() {
    let mut s = PagerState::new(57, 80, 20);
    s.go_to_last();
    assert_eq!(s.current_page, 2);
    assert_eq!(s.current_row, 40);
}

#[test]
fn go_to_first_and_last_are_idempotent() {
    let mut a = PagerState::new(57, 80, 20);
    a.go_to_last();
    let once = (a.current_page, a.current_row);
    a.go_to_last();
    assert_eq!((a.current_page, a.current_row), once);
    a.go_to_first();
    let first_once = (a.current_page, a.current_row);
    a.go_to_first();
    assert_eq!((a.current_page, a.current_row), first_once);
    assert_eq!(first_once, (0, 0));
}

#[test]
fn viewport_bounds_hold() {
    let mut s = PagerState::new(57, 80, 20);
    s.scroll_down(50);
    let start = s.get_viewport_start();
    let end = s.get_viewport_end();
    assert!(start <= end);
    assert!(end - start <= s.rows_per_page);
    assert!(end <= s.total_rows);
    assert_eq!(start, 50);
    assert_eq!(end, 57);
}

#[test]
fn page_bounds_hold() {
    let mut s = PagerState::new(57, 80, 20);
    s.go_to_page(2);
    assert_eq!(s.get_page_start(), 40);
    assert_eq!(s.get_page_end(), 57);
    s.go_to_page(0);
    assert_eq!(s.get_page_start(), 0);
    assert_eq!(s.get_page_end(), 20);
}

#[test]
fn resize_keeps_cursor_and_recomputes_pages() {
    let mut s = PagerState::new(57, 80, 20);
    s.scroll_down(45);
    assert_eq!(s.current_row, 45);
    assert_eq!(s.current_page, 2);
    s.resize(80, 10);
    assert_eq!(s.current_row, 45);
    assert_eq!(s.current_page, 4);
    assert_eq!(s.rows_per_page, 10);
    assert_eq!(s.total_pages, 6);
    assert_eq!(s.terminal_width, 80);
    assert_eq!(s.terminal_height, 10);
}

#[test]
fn resize_then_navigation_stays_in_bounds() {
    let mut s = PagerState::new(57, 80, 20);
    s.scroll_down(45);
    s.resize(80, 10);
    s.scroll_down(1000);
    assert_eq!(s.current_row, 56);
    assert_eq!(s.current_page, 5);
    s.next_row();
    assert_eq!(s.current_row, 56);
    s.resize(80, 0);
    assert_eq!(s.total_pages, 1);
    assert_eq!(s.current_row, 56);
    assert_eq!(s.current_page, 0);
}

#[test]
fn empty_content_is_inert() {
    let mut s = PagerState::new(0, 80, 20);
    assert_eq!(s.total_pages, 1);
    assert_eq!(s.get_viewport_start(), 0);
    assert_eq!(s.get_viewport_end(), 0);
    s.next_row();
    s.prev_row();
    s.next_page();
    s.prev_page();
    s.go_to_last();
    s.scroll_down(100);
    s.scroll_up(100);
    s.go_to_page(5);
    assert_eq!(s.current_row, 0);
    assert_eq!(s.current_page, 0);
    assert_eq!(s.get_viewport_start(), 0);
    assert_eq!(s.get_viewport_end(), 0);
}

#[test]
fn page_steps_realign_to_page_starts() {
    let mut s = PagerState::new(100, 80, 20);
    s.scroll_down(25);
    assert_eq!(s.current_row, 25);
    assert_eq!(s.current_page, 1);
    s.next_page();
    assert_eq!(s.current_page, 2);
    assert_eq!(s.current_row, 40);
    s.prev_page();
    assert_eq!(s.current_page, 1);
    assert_eq!(s.current_row, 20);
}

#[test]
fn half_page_rounds_down_on_odd_heights() {
    let mut p = Pager::new(lines(100), None, 100, cfg(), 80, 5);
    p.handle_key_event(key(Key::Char('d')));
    assert_eq!(p.state.current_row, 2);
    p.handle_key_event(key(Key::Char('u')));
    assert_eq!(p.state.current_row, 0);
}

#[test]
fn pager_new_wires_the_state() {
    let p = Pager::new(lines(100), None, 100, cfg(), 80, 20);
    assert_eq!(p.state.total_rows, 100);
    assert_eq!(p.state.total_pages, 5);
    assert_eq!(p.state.current_row, 0);
    assert_eq!(p.content.len(), 100);
    assert!(p.header.is_none());
}

#[test]
fn quit_keys_quit_and_change_nothing() {
    let mut p = Pager::new(lines(100), None, 100, cfg(), 80, 20);
    assert!(p.handle_key_event(key(Key::Char('q'))));
    assert_eq!(p.state.current_row, 0);
    assert!(p.handle_key_event(key(Key::Esc)));
    assert_eq!(p.state.current_row, 0);
}

#[test]
fn space_and_page_keys_scroll_a_page() {
    let mut p = Pager::new(lines(100), None, 100, cfg(), 80, 20);
    assert!(!p.handle_key_event(key(Key::Char(' '))));
    assert_eq!(p.state.current_row, 20);
    assert!(!p.handle_key_event(key(Key::PageDown)));
    assert_eq!(p.state.current_row, 40);
    assert!(!p.handle_key_event(key(Key::Char('b'))));
    assert_eq!(p.state.current_row, 20);
    assert!(!p.handle_key_event(key(Key::PageUp)));
    assert_eq!(p.state.current_row, 0);
}

#[test]
fn line_keys_scroll_configured_steps() {
    let mut p = Pager::new(lines(100), None, 100, cfg(), 80, 20);
    p.handle_key_event(key(Key::Char('j')));
    assert_eq!(p.state.current_row, 1);
    p.handle_key_event(key(Key::Down));
    assert_eq!(p.state.current_row, 2);
    p.handle_key_event(key(Key::Char('J')));
    assert_eq!(p.state.current_row, 12);
    p.handle_key_event(key(Key::Char('k')));
    assert_eq!(p.state.current_row, 11);
    p.handle_key_event(key(Key::Up));
    assert_eq!(p.state.current_row, 10);
    p.handle_key_event(key(Key::Char('K')));
    assert_eq!(p.state.current_row, 0);
}

#[test]
fn custom_steps_are_respected() {
    let c = PagerConfig { scroll_single_line: 3, scroll_multi_line: 25 };
    let mut p = Pager::new(lines(100), None, 100, c, 80, 20);
    p.handle_key_event(key(Key::Char('j')));
    assert_eq!(p.state.current_row, 3);
    p.handle_key_event(key(Key::Char('J')));
    assert_eq!(p.state.current_row, 28);
}

#[test]
fn half_page_keys_scroll_half_a_page() {
    let mut p = Pager::new(lines(100), None, 100, cfg(), 80, 20);
    p.handle_key_event(key(Key::Char('d')));
    assert_eq!(p.state.current_row, 10);
    p.handle_key_event(key(Key::Char('u')));
    assert_eq!(p.state.current_row, 0);
}

#[test]
fn jump_keys_hit_first_and_last() {
    let mut p = Pager::new(lines(100), None, 100, cfg(), 80, 20);
    p.handle_key_event(key(Key::Char('G')));
    assert_eq!(p.state.current_page, 4);
    assert_eq!(p.state.current_row, 80);
    p.handle_key_event(key(Key::Char('g')));
    assert_eq!(p.state.current_row, 0);
    p.handle_key_event(key(Key::End));
    assert_eq!(p.state.current_row, 80);
    p.handle_key_event(key(Key::Home));
    assert_eq!(p.state.current_row, 0);
    p.handle_key_event(key(Key::End));
    let mut ctrl_g = key(Key::Char('g'));
    ctrl_g.ctrl = true;
    p.handle_key_event(ctrl_g);
    assert_eq!(p.state.current_row, 0);
}

#[test]
fn reserved_and_unknown_keys_do_nothing() {
    let mut p = Pager::new(lines(100), None, 100, cfg(), 80, 20);
    p.handle_key_event(key(Key::Char(' ')));
    let before = (p.state.current_row, p.state.current_page);
    for k in ['/', 'n', 'N', 'x', 'Q'] {
        assert!(!p.handle_key_event(key(Key::Char(k))));
        assert_eq!((p.state.current_row, p.state.current_page), before);
    }
    assert!(!p.handle_key_event(key(Key::Other)));
    assert_eq!((p.state.current_row, p.state.current_page), before);
}

#[test]
fn events_drive_the_session() {
    let mut p = Pager::new(lines(100), None, 100, cfg(), 80, 20);
    assert_eq!(p.handle_event(PagerEvent::Key(key(Key::Char(' ')))), EventOutcome::Render);
    assert_eq!(p.state.current_row, 20);
    assert_eq!(p.handle_event(PagerEvent::Resize(120, 10)), EventOutcome::Render);
    assert_eq!(p.state.rows_per_page, 10);
    assert_eq!(p.state.total_pages, 10);
    assert_eq!(p.state.current_row, 20);
    assert_eq!(p.handle_event(PagerEvent::Other), EventOutcome::Idle);
    assert_eq!(p.handle_event(PagerEvent::Key(key(Key::Esc))), EventOutcome::Quit);
    assert_eq!(p.state.current_row, 20);
}

#[test]
fn render_shows_the_viewport_slice() {
    let mut p = Pager::new(lines(10), None, 10, cfg(), 80, 3);
    p.state.scroll_down(4);
    let out = p.render_lines();
    assert_eq!(out, vec!["line 4", "line 5", "line 6"]);
}

#[test]
fn render_clips_at_the_end_of_content() {
    let mut p = Pager::new(lines(10), None, 10, cfg(), 80, 3);
    p.state.go_to_last();
    let out = p.render_lines();
    assert_eq!(out, vec!["line 9"]);
}

#[test]
fn render_puts_the_header_first() {
    let p = Pager::new(lines(10), Some("HDR".to_string()), 10, cfg(), 80, 3);
    let out = p.render_lines();
    assert_eq!(out, vec!["HDR", "line 0", "line 1"]);
}

#[test]
fn render_on_a_zero_height_terminal() {
    let p = Pager::new(lines(10), Some("HDR".to_string()), 10, cfg(), 80, 0);
    assert_eq!(p.render_lines(), vec!["HDR"]);
    let q = Pager::new(lines(10), None, 10, cfg(), 80, 0);
    assert!(q.render_lines().is_empty());
}

#[test]
fn render_of_empty_content() {
    let p = Pager::new(Vec::new(), None, 0, cfg(), 80, 5);
    assert!(p.render_lines().is_empty());
}
