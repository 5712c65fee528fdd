//! Keyboard input: the fixed byte table and what one input does to a
//! session's navigation state.
use vstd::prelude::*;
use crate::app::{
    content_height, lemma_tab_cycle, net_moves, scroll_down_step, scroll_up_step, tab_after, App,
    IntroPhase, Tab, TAB_COUNT,
};

verus! {

/// Lines of the screen taken by the banner, tab bar, footer and borders
/// rather than by section content.
pub const CHROME_LINES: u16 = 14;

/// What an input means for navigation.
#[derive(Debug, Clone, Copy, PartialEq, Eq, Structural)]
pub enum Key {
    Quit,
    NextTab,
    PrevTab,
    ScrollUp,
    ScrollDown,
    /// Jump to the section at this position.
    Jump(usize),
    /// Anything else; ignored.
    Unmapped,
}

/// How an input was handled.
#[derive(Debug, Clone, Copy, PartialEq, Eq, Structural)]
pub enum InputEffect {
    /// The intro was still running: it was skipped and the input dropped.
    SkippedIntro,
    /// The navigation state changed.
    Changed,
    /// Nothing changed.
    Unchanged,
    /// A quit key: the session is to be closed.
    Quit,
}

/// `data` is the single byte `b`.
pub open spec fn is_byte(data: Seq<u8>, b: u8) -> bool {
    data.len() == 1 && data[0] == b
}

/// `data` is the control sequence ESC `[` followed by `c`.
pub open spec fn is_csi(data: Seq<u8>, c: u8) -> bool {
    data.len() == 3 && data[0] == 0x1b && data[1] == 0x5b && data[2] == c
}

/// The meaning of one input: `q`, `Q` or Ctrl-C quit; right arrow or Tab go
/// to the next section; left arrow or Shift-Tab to the previous one; up and
/// down arrows scroll; digits `1` to the number of sections jump to a
/// section; anything else is unmapped.
pub open spec fn key_of(data: Seq<u8>) -> Key {
    if is_byte(data, 0x71) || is_byte(data, 0x51) || is_byte(data, 0x03) {
        Key::Quit
    } else if is_csi(data, 0x43) || is_byte(data, 0x09) {
        Key::NextTab
    } else if is_csi(data, 0x44) || is_csi(data, 0x5a) {
        Key::PrevTab
    } else if is_csi(data, 0x41) {
        Key::ScrollUp
    } else if is_csi(data, 0x42) {
        Key::ScrollDown
    } else if data.len() == 1 && 0x31 <= data[0] < 0x31 + TAB_COUNT {
        Key::Jump((data[0] - 0x31) as usize)
    } else {
        Key::Unmapped
    }
}

/// Decodes one input into its meaning for navigation.
pub fn decode_key(data: &[u8]) -> (r: Key)
    ensures
        r == key_of(data@),
{
    if data.len() == 1 {
        let b = data[0];
        if b == 0x71 || b == 0x51 || b == 0x03 {
            Key::Quit
        } else if b == 0x09 {
            Key::NextTab
        } else if 0x31 <= b && b < 0x35 {
            Key::Jump((b - 0x31) as usize)
        } else {
            Key::Unmapped
        }
    } else if data.len() == 3 && data[0] == 0x1b && data[1] == 0x5b {
        let c = data[2];
        if c == 0x43 {
            Key::NextTab
        } else if c == 0x44 || c == 0x5a {
            Key::PrevTab
        } else if c == 0x41 {
            Key::ScrollUp
        } else if c == 0x42 {
            Key::ScrollDown
        } else {
            Key::Unmapped
        }
    } else {
        Key::Unmapped
    }
}

/// Lines left for section content on a screen `height` lines high.
pub open spec fn content_area(height: nat) -> nat {
    if height > CHROME_LINES {
        (height - CHROME_LINES) as nat
    } else {
        0
    }
}

/// Lines left for section content on a screen `height` lines high.
pub fn content_area_height(height: u16) -> (r: usize)
    ensures
        r == content_area(height as nat),
{
    height.saturating_sub(CHROME_LINES) as usize
}

/// Navigation state after a key, once the intro is over.
pub open spec fn apply_key(a: App, key: Key, height: nat) -> App {
    match key {
        Key::Quit => App { should_quit: true, ..a },
        Key::NextTab => App { tab: a.tab.spec_next(), scroll_offset: 0, ..a },
        Key::PrevTab => App { tab: a.tab.spec_prev(), scroll_offset: 0, ..a },
        Key::ScrollUp => App { scroll_offset: scroll_up_step(a.scroll_offset as nat) as usize, ..a },
        Key::ScrollDown => App {
            scroll_offset: scroll_down_step(
                a.scroll_offset as nat,
                content_height(a.tab),
                content_area(height),
            ) as usize,
            ..a
        },
        Key::Jump(i) => match Tab::spec_from_index(i as nat) {
            Some(t) => App { tab: t, scroll_offset: 0, ..a },
            None => a,
        },
        Key::Unmapped => a,
    }
}

/// Navigation state after an input, on a screen `height` lines high: while
/// the intro runs any input only skips it; after that the key is applied.
pub open spec fn input_state(a: App, key: Key, height: nat) -> App {
    if !(a.intro is Done) {
        App { intro: IntroPhase::Done, ..a }
    } else {
        apply_key(a, key, height)
    }
}

/// How an input is reported.
pub open spec fn input_effect(a: App, key: Key, height: nat) -> InputEffect {
    if !(a.intro is Done) {
        InputEffect::SkippedIntro
    } else if key is Quit {
        InputEffect::Quit
    } else if apply_key(a, key, height) != a {
        InputEffect::Changed
    } else {
        InputEffect::Unchanged
    }
}

/// Applies one input to a session's navigation state, on a screen `height`
/// lines high, and says how it was handled.
pub fn handle_input(app: &mut App, data: &[u8], height: u16) -> (r: InputEffect)
    ensures
        *final(app) == input_state(*old(app), key_of(data@), height as nat),
        r == input_effect(*old(app), key_of(data@), height as nat),
{
    if !app.intro_done() {
        app.skip_intro();
        return InputEffect::SkippedIntro;
    }
    let before = *app;
    match decode_key(data) {
        Key::Quit => {
            app.quit();
            return InputEffect::Quit;
        },
        Key::NextTab => app.next_tab(),
        Key::PrevTab => app.prev_tab(),
        Key::ScrollUp => app.scroll_up(),
        Key::ScrollDown => {
            let total = app.content_line_count();
            app.scroll_down(total, content_area_height(height));
        },
        Key::Jump(i) => app.go_to_tab(i),
        Key::Unmapped => {},
    }
    if *app == before {
        InputEffect::Unchanged
    } else {
        InputEffect::Changed
    }
}

/// Navigation state after a sequence of section moves, where `true` is the
/// next-section key and `false` the previous-section key.
pub open spec fn after_section_moves(a: App, moves: Seq<bool>, height: nat) -> App
    decreases moves.len(),
{
    if moves.len() == 0 {
        a
    } else {
        let b = after_section_moves(a, moves.drop_last(), height);
        apply_key(
            b,
            if moves.last() {
                Key::NextTab
            } else {
                Key::PrevTab
            },
            height,
        )
    }
}

/// Any sequence of next- and previous-section keys cycles through the
/// sections with wrap-around in both directions, and after any such key
/// the session is back at the top of the section.
pub proof fn lemma_section_keys_cycle(a: App, moves: Seq<bool>, height: nat)
    ensures
        after_section_moves(a, moves, height).tab == tab_after(a.tab, moves),
        after_section_moves(a, moves, height).tab.spec_index() == (a.tab.spec_index() + net_moves(
            moves,
        )) % 4,
        moves.len() > 0 ==> after_section_moves(a, moves, height).scroll_offset == 0,
        after_section_moves(a, moves, height).intro == a.intro,
        after_section_moves(a, moves, height).should_quit == a.should_quit,
    decreases moves.len(),
{
    lemma_tab_cycle(a.tab, moves);
    if moves.len() > 0 {
        lemma_section_keys_cycle(a, moves.drop_last(), height);
    }
}

} // verus!
