use ssh_portfolio::app::{App, IntroPhase, Tab, PAUSE_TICKS, TAB_COUNT};
use ssh_portfolio::input::{content_area_height, decode_key, handle_input, InputEffect, Key};

fn ready() -> App {
    let mut app = App::new();
    app.skip_intro();
    app
}

#[test]
fn tab_labels_and_indices() {
    assert_eq!(Tab::About.label(), "About");
    assert_eq!(Tab::Projects.label(), "Projects");
    assert_eq!(Tab::Skills.label(), "Skills");
    assert_eq!(Tab::Contact.label(), "Contact");
    assert_eq!(Tab::Contact.index(), 3);
    assert_eq!(Tab::from_index(1), Some(Tab::Projects));
    assert_eq!(Tab::from_index(TAB_COUNT), None);
}

#[test]
fn new_app_state() {
    let app = App::new();
    assert_eq!(app.tab, Tab::About);
    assert_eq!(app.scroll_offset, 0);
    assert!(!app.should_quit);
    assert_eq!(app.intro, IntroPhase::Typing { chars_shown: 0 });
    assert!(!app.intro_done());
}

#[test]
fn tabs_cycle_both_ways() {
    let mut app = ready();
    for expected in [Tab::Projects, Tab::Skills, Tab::Contact, Tab::About] {
        app.scroll_offset = 5;
        app.next_tab();
        assert_eq!(app.tab, expected);
        assert_eq!(app.scroll_offset, 0);
    }
    for expected in [Tab::Contact, Tab::Skills, Tab::Projects, Tab::About] {
        app.scroll_offset = 2;
        app.prev_tab();
        assert_eq!(app.tab, expected);
        assert_eq!(app.scroll_offset, 0);
    }
    app.next_tab();
    app.prev_tab();
    assert_eq!(app.tab, Tab::About);
}

#[test]
fn go_to_tab_ignores_out_of_range() {
    let mut app = ready();
    app.scroll_offset = 4;
    app.go_to_tab(4);
    assert_eq!(app.tab, Tab::About);
    assert_eq!(app.scroll_offset, 4);
    app.go_to_tab(2);
    assert_eq!(app.tab, Tab::Skills);
    assert_eq!(app.scroll_offset, 0);
}

#[test]
fn quit_sets_flag() {
    let mut app = ready();
    app.quit();
    assert!(app.should_quit);
}

#[test]
fn three_right_arrows_reach_contact() {
    let mut app = ready();
    for _ in 0..3 {
        assert_eq!(handle_input(&mut app, b"\x1b[C", 40), InputEffect::Changed);
    }
    assert_eq!(app.tab, Tab::Contact);
    assert_eq!(app.tab.index(), 3);
    assert_eq!(app.scroll_offset, 0);
}

#[test]
fn typing_near_the_end_goes_to_pause() {
    let mut app = App::new();
    app.intro = IntroPhase::Typing { chars_shown: 181 };
    assert!(app.advance_intro(10));
    assert_eq!(app.intro, IntroPhase::Pause { ticks_remaining: 8 });
    assert_eq!(PAUSE_TICKS, 8);
    let mut app = App::new();
    app.intro = IntroPhase::Typing { chars_shown: 96 };
    assert!(app.advance_intro(10));
    assert_eq!(app.intro, IntroPhase::Typing { chars_shown: 106 });
    app.intro = IntroPhase::Typing { chars_shown: 175 };
    assert!(app.advance_intro(10));
    assert_eq!(app.intro, IntroPhase::Pause { ticks_remaining: 8 });
    app.intro = IntroPhase::Typing { chars_shown: 100 };
    assert!(app.advance_intro(usize::MAX));
    assert_eq!(app.intro, IntroPhase::Pause { ticks_remaining: 8 });
}

#[test]
fn intro_runs_to_done_then_stays() {
    let mut app = App::new();
    let mut ticks = 0;
    while !app.intro_done() {
        let before = app.intro;
        assert!(app.advance_intro(4));
        assert_ne!(app.intro, before);
        ticks += 1;
    }
    // 47 ticks of typing, then 8 of pause.
    assert_eq!(ticks, 55);
    assert!(!app.advance_intro(4));
    assert_eq!(app.intro, IntroPhase::Done);
}

#[test]
fn pause_counts_down() {
    let mut app = App::new();
    app.intro = IntroPhase::Pause { ticks_remaining: 2 };
    assert!(app.advance_intro(4));
    assert_eq!(app.intro, IntroPhase::Pause { ticks_remaining: 1 });
    assert!(app.advance_intro(4));
    assert_eq!(app.intro, IntroPhase::Done);
}

#[test]
fn skip_intro_from_each_phase() {
    for phase in [
        IntroPhase::Typing { chars_shown: 0 },
        IntroPhase::Typing { chars_shown: 90 },
        IntroPhase::Pause { ticks_remaining: 8 },
        IntroPhase::Done,
    ] {
        let mut app = App::new();
        app.intro = phase;
        app.skip_intro();
        assert_eq!(app.intro, IntroPhase::Done);
        assert!(app.intro_done());
    }
}

#[test]
fn forty_scrolls_saturate_at_thirty() {
    let mut app = ready();
    for _ in 0..40 {
        app.scroll_down(50, 20);
        assert!(app.scroll_offset <= 30);
    }
    assert_eq!(app.scroll_offset, 30);
}

#[test]
fn scroll_up_stops_at_top() {
    let mut app = ready();
    app.scroll_up();
    assert_eq!(app.scroll_offset, 0);
    app.scroll_offset = 2;
    app.scroll_up();
    assert_eq!(app.scroll_offset, 1);
}

#[test]
fn scroll_down_when_content_fits_does_nothing() {
    let mut app = ready();
    app.scroll_down(10, 20);
    assert_eq!(app.scroll_offset, 0);
    app.scroll_down(20, 20);
    assert_eq!(app.scroll_offset, 0);
}

#[test]
fn content_line_counts_per_tab() {
    let mut app = ready();
    assert_eq!(app.content_line_count(), 20);
    app.go_to_tab(1);
    assert_eq!(app.content_line_count(), 84);
    app.go_to_tab(2);
    assert_eq!(app.content_line_count(), 17);
    app.go_to_tab(3);
    assert_eq!(app.content_line_count(), 8);
}

#[test]
fn key_table() {
    assert_eq!(decode_key(b"q"), Key::Quit);
    assert_eq!(decode_key(b"Q"), Key::Quit);
    assert_eq!(decode_key(b"\x03"), Key::Quit);
    assert_eq!(decode_key(b"\x1b[C"), Key::NextTab);
    assert_eq!(decode_key(b"\t"), Key::NextTab);
    assert_eq!(decode_key(b"\x1b[D"), Key::PrevTab);
    assert_eq!(decode_key(b"\x1b[Z"), Key::PrevTab);
    assert_eq!(decode_key(b"\x1b[A"), Key::ScrollUp);
    assert_eq!(decode_key(b"\x1b[B"), Key::ScrollDown);
    assert_eq!(decode_key(b"1"), Key::Jump(0));
    assert_eq!(decode_key(b"4"), Key::Jump(3));
    assert_eq!(decode_key(b"5"), Key::Unmapped);
    assert_eq!(decode_key(b"0"), Key::Unmapped);
    assert_eq!(decode_key(b"qq"), Key::Unmapped);
    assert_eq!(decode_key(b""), Key::Unmapped);
    assert_eq!(decode_key(b"\x1b[E"), Key::Unmapped);
    assert_eq!(decode_key(b"\x1bOC"), Key::Unmapped);
}

#[test]
fn content_area_subtracts_chrome() {
    assert_eq!(content_area_height(40), 26);
    assert_eq!(content_area_height(14), 0);
    assert_eq!(content_area_height(3), 0);
}

#[test]
fn quit_during_intro_only_skips_it() {
    let mut app = App::new();
    app.intro = IntroPhase::Typing { chars_shown: 5 };
    assert_eq!(handle_input(&mut app, b"q", 40), InputEffect::SkippedIntro);
    assert_eq!(app.intro, IntroPhase::Done);
    assert!(!app.should_quit);
    assert_eq!(app.tab, Tab::About);
    assert_eq!(handle_input(&mut app, b"q", 40), InputEffect::Quit);
    assert!(app.should_quit);
}

#[test]
fn input_reports_unchanged_state() {
    let mut app = ready();
    assert_eq!(handle_input(&mut app, b"\x1b[A", 40), InputEffect::Unchanged);
    assert_eq!(handle_input(&mut app, b"x", 40), InputEffect::Unchanged);
    assert_eq!(handle_input(&mut app, b"1", 40), InputEffect::Unchanged);
    assert_eq!(handle_input(&mut app, b"2", 40), InputEffect::Changed);
    assert_eq!(app.tab, Tab::Projects);
    assert_eq!(handle_input(&mut app, b"\x1b[B", 40), InputEffect::Changed);
    assert_eq!(app.scroll_offset, 1);
    assert_eq!(handle_input(&mut app, b"\x1b[D", 40), InputEffect::Changed);
    assert_eq!(app.tab, Tab::About);
    assert_eq!(app.scroll_offset, 0);
}

#[test]
fn scroll_down_uses_content_area() {
    // About has 20 lines; a 30-line screen leaves 16 for content.
    let mut app = ready();
    for _ in 0..10 {
        handle_input(&mut app, b"\x1b[B", 30);
    }
    assert_eq!(app.scroll_offset, 4);
    assert_eq!(handle_input(&mut app, b"\x1b[B", 30), InputEffect::Unchanged);
}
