use life_sandbox::session::{Action, Confirm, Input, Mode, Session};

/// A session past its opening help screen.
fn viewing(cols: u16, rows: u16) -> Session {
    let mut s = Session::new(cols, rows);
    assert_eq!(s.mode(), Mode::Help);
    assert_eq!(s.handle(Input::Char('h')), Action::Repaint);
    assert_eq!(s.mode(), Mode::Viewing);
    s
}

fn press(s: &mut Session, keys: &str) -> Vec<Action> {
    keys.chars().map(|c| s.handle(Input::Char(c))).collect()
}

fn live_cells(s: &Session) -> Vec<(usize, usize)> {
    let g = s.grid();
    let mut out = Vec::new();
    for row in 0..g.rows() {
        for col in 0..g.cols() {
            if g.get(col, row) {
                out.push((col, row));
            }
        }
    }
    out
}

#[test]
fn starts_with_defaults() {
    let s = Session::new(20, 10);
    assert_eq!(s.grid().cols(), 20);
    assert_eq!(s.grid().rows(), 9);
    assert_eq!(s.cursor(), (10, 5));
    assert_eq!((s.live(), s.birth()), (2, 3));
    assert_eq!((s.fg(), s.bg()), ('O', ' '));
    assert_eq!(s.rate_index(), 5);
    assert_eq!(s.terminal_size(), (20, 10));
}

#[test]
fn tiny_terminal_still_has_a_cell() {
    let s = Session::new(0, 1);
    assert_eq!(s.grid().cols(), 1);
    assert_eq!(s.grid().rows(), 1);
    assert_eq!(s.cursor(), (0, 0));
}

#[test]
fn quit_twice_ends() {
    let mut s = viewing(10, 6);
    assert_eq!(s.handle(Input::Char('q')), Action::Stay);
    assert_eq!(s.mode(), Mode::Pending(Confirm::Quit));
    assert_eq!(s.handle(Input::Char('q')), Action::Quit);
    assert_eq!(s.mode(), Mode::Finished);
    assert_eq!(s.handle(Input::Char('e')), Action::Stay);
}

#[test]
fn quit_interrupted_does_not_end() {
    let mut s = viewing(10, 6);
    s.handle(Input::Char('q'));
    assert_eq!(s.handle(Input::Char('w')), Action::Stay);
    assert_eq!(s.mode(), Mode::Viewing);
    assert_eq!(s.handle(Input::Char('q')), Action::Stay);
    assert_eq!(s.mode(), Mode::Pending(Confirm::Quit));
    s.handle(Input::OtherKey);
    assert_eq!(s.mode(), Mode::Viewing);
}

#[test]
fn confirm_consumes_one_event() {
    let mut s = viewing(10, 6);
    let before = s.cursor();
    s.handle(Input::Char('q'));
    // the 'w' only cancels; it does not move the cursor
    s.handle(Input::Char('w'));
    assert_eq!(s.cursor(), before);
}

#[test]
fn clear_twice_empties() {
    let mut s = viewing(10, 6);
    press(&mut s, " d ");
    assert_eq!(live_cells(&s).len(), 2);
    press(&mut s, "x");
    assert_eq!(s.mode(), Mode::Pending(Confirm::Clear));
    assert_eq!(s.handle(Input::Char('x')), Action::Redraw);
    assert!(live_cells(&s).is_empty());
    assert_eq!(s.grid().cols(), 10);
    assert_eq!(s.grid().rows(), 5);
}

#[test]
fn clear_interrupted_keeps_cells() {
    let mut s = viewing(10, 6);
    press(&mut s, " xqx");
    assert_eq!(live_cells(&s).len(), 1);
    assert_eq!(s.mode(), Mode::Pending(Confirm::Clear));
}

#[test]
fn cursor_stays_on_grid() {
    let mut s = viewing(4, 4);
    press(&mut s, "wwwwwaaaaa");
    assert_eq!(s.cursor(), (0, 0));
    press(&mut s, "sssssddddd");
    // bottom row of the terminal is the status line
    assert_eq!(s.cursor(), (3, 2));
}

#[test]
fn toggle_under_cursor() {
    let mut s = viewing(5, 5);
    let (c, r) = s.cursor();
    assert_eq!(s.handle(Input::Char(' ')), Action::Redraw);
    assert!(s.grid().get(c, r));
    s.handle(Input::Char(' '));
    assert!(!s.grid().get(c, r));
}

#[test]
fn rule_keys_clamp() {
    let mut s = viewing(5, 5);
    press(&mut s, "---");
    assert_eq!(s.live(), 0);
    press(&mut s, "==========");
    assert_eq!(s.live(), 9);
    press(&mut s, "[[[[");
    assert_eq!(s.birth(), 0);
    assert_eq!(press(&mut s, "]"), vec![Action::Redraw]);
    assert_eq!(s.birth(), 1);
    press(&mut s, "]]]]]]]]]]]");
    assert_eq!(s.birth(), 9);
}

#[test]
fn rate_keys_clamp() {
    let mut s = viewing(5, 5);
    press(&mut s, ",,,,,,,");
    assert_eq!(s.rate_index(), 0);
    press(&mut s, "..............");
    assert_eq!(s.rate_index(), 12);
}

#[test]
fn single_step_key() {
    let mut s = viewing(3, 4);
    // cursor starts at (1, 2); make a vertical bar in the middle column
    press(&mut s, " w w ");
    assert_eq!(live_cells(&s), vec![(1, 0), (1, 1), (1, 2)]);
    assert_eq!(s.handle(Input::Char('e')), Action::Redraw);
    assert_eq!(live_cells(&s), vec![(0, 1), (1, 1), (2, 1)]);
}

#[test]
fn glyph_capture() {
    let mut s = viewing(8, 4);
    assert_eq!(s.handle(Input::Char('c')), Action::Stay);
    assert_eq!(s.mode(), Mode::CaptureFg);
    assert_eq!(s.screen_cursor(), (4, 3));
    assert_eq!(s.handle(Input::Char('#')), Action::Redraw);
    assert_eq!(s.mode(), Mode::CaptureBg);
    assert_eq!(s.screen_cursor(), (11, 3));
    assert_eq!(s.handle(Input::Char('.')), Action::Redraw);
    assert_eq!(s.mode(), Mode::Viewing);
    assert_eq!((s.fg(), s.bg()), ('#', '.'));
}

#[test]
fn glyph_capture_rejects_equal() {
    let mut s = viewing(8, 4);
    assert_eq!(s.fg(), 'O');
    press(&mut s, "c");
    s.handle(Input::OtherKey);
    assert_eq!(s.fg(), 'O');
    press(&mut s, "O");
    assert_eq!(s.bg(), ' ');
    assert_eq!(s.mode(), Mode::Viewing);
}

#[test]
fn glyph_capture_rejects_invalid() {
    let mut s = viewing(8, 4);
    press(&mut s, "c\u{1}");
    assert_eq!(s.fg(), 'O');
    press(&mut s, "\u{7f}");
    assert_eq!(s.bg(), ' ');
}

#[test]
fn help_toggles() {
    let mut s = viewing(8, 4);
    assert_eq!(s.handle(Input::Char('h')), Action::ShowHelp);
    assert_eq!(s.handle(Input::Char(' ')), Action::Stay);
    assert!(live_cells(&s).is_empty());
    assert_eq!(s.handle(Input::Resize(12, 7)), Action::ShowHelp);
    assert_eq!(s.mode(), Mode::Help);
    assert_eq!(s.handle(Input::Char('h')), Action::Repaint);
    assert_eq!(s.grid().cols(), 12);
    assert_eq!(s.grid().rows(), 6);
}

#[test]
fn resize_keeps_cells_and_clamps_cursor() {
    let mut s = viewing(10, 8);
    press(&mut s, " ");
    let (c, r) = s.cursor();
    assert_eq!((c, r), (5, 4));
    assert_eq!(s.handle(Input::Resize(3, 3)), Action::Repaint);
    assert_eq!(s.cursor(), (2, 1));
    assert!(live_cells(&s).is_empty());
    s.handle(Input::Resize(10, 8));
    assert!(live_cells(&s).is_empty());
    press(&mut s, " ");
    s.handle(Input::Resize(20, 20));
    assert_eq!(live_cells(&s), vec![(2, 1)]);
    assert_eq!(s.terminal_size(), (20, 20));
}

#[test]
fn resize_drops_pending_confirm() {
    let mut s = viewing(10, 8);
    press(&mut s, "q");
    s.handle(Input::Resize(11, 9));
    assert_eq!(s.mode(), Mode::Viewing);
    assert_eq!(s.handle(Input::Char('q')), Action::Stay);
}

#[test]
fn playback_steps_until_f() {
    let mut s = viewing(5, 6);
    // horizontal bar through the cursor at (2, 3)
    press(&mut s, " a dd ");
    assert_eq!(live_cells(&s), vec![(1, 3), (2, 3), (3, 3)]);
    assert_eq!(s.handle(Input::Char('f')), Action::Stay);
    assert_eq!(s.mode(), Mode::Playback);
    assert_eq!(s.handle(Input::Idle), Action::Redraw);
    assert_eq!(live_cells(&s), vec![(2, 2), (2, 3), (2, 4)]);
    assert_eq!(s.handle(Input::Char('z')), Action::Redraw);
    assert_eq!(live_cells(&s), vec![(1, 3), (2, 3), (3, 3)]);
    assert_eq!(s.handle(Input::Resize(5, 6)), Action::Repaint);
    assert_eq!(s.mode(), Mode::Playback);
    assert_eq!(s.handle(Input::Char('f')), Action::Stay);
    assert_eq!(s.mode(), Mode::Viewing);
    assert_eq!(s.handle(Input::Idle), Action::Stay);
    assert_eq!(live_cells(&s), vec![(1, 3), (2, 3), (3, 3)]);
}

#[test]
fn frame_wait_follows_rate() {
    let mut s = viewing(5, 5);
    assert_eq!(s.frame_wait(0), 66_666);
    assert_eq!(s.frame_wait(6_666), 60_000);
    assert_eq!(s.frame_wait(100_000), 0);
    press(&mut s, ",,,,,");
    assert_eq!(s.frame_wait(500_000), 1_500_000);
}

#[test]
fn frame_text_has_grid_and_status() {
    let mut s = viewing(3, 3);
    press(&mut s, " ");
    assert_eq!(s.frame_text(), "   \n O \nFG:'O' BG:' ' Live:2 Birth:3 FPS:15.0");
}

#[test]
fn unknown_keys_do_nothing() {
    let mut s = viewing(5, 5);
    let before = s.cursor();
    assert_eq!(s.handle(Input::Char('z')), Action::Stay);
    assert_eq!(s.handle(Input::OtherKey), Action::Stay);
    assert_eq!(s.cursor(), before);
    assert_eq!(s.mode(), Mode::Viewing);
}
