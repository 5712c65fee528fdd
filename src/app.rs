//! Navigation state of one session: active section, scroll position and
//! the intro animation.
use vstd::prelude::*;
use crate::content::{
    about_line_count, banner_char_count, banner_total, category_sizes, contact_entries,
    contact_entry_count, contact_lines, lemma_banner_total, project_lines, skill_group_count,
    skill_groups, skill_lines, total_project_lines,
};

verus! {

/// A section of the portfolio, in display order.
#[derive(Debug, Clone, Copy, PartialEq, Eq, Structural)]
pub enum Tab {
    About,
    Projects,
    Skills,
    Contact,
}

/// Number of sections.
pub const TAB_COUNT: usize = 4;

/// Ticks that the finished banner stays on screen before the full UI.
pub const PAUSE_TICKS: u8 = 8;

impl Tab {
    /// Position of the section in display order.
    pub open spec fn spec_index(self) -> nat {
        match self {
            Tab::About => 0,
            Tab::Projects => 1,
            Tab::Skills => 2,
            Tab::Contact => 3,
        }
    }

    /// The section at position `i`, if there is one.
    pub open spec fn spec_from_index(i: nat) -> Option<Tab> {
        if i == 0 {
            Some(Tab::About)
        } else if i == 1 {
            Some(Tab::Projects)
        } else if i == 2 {
            Some(Tab::Skills)
        } else if i == 3 {
            Some(Tab::Contact)
        } else {
            None
        }
    }

    /// The section after this one, wrapping from the last to the first.
    pub open spec fn spec_next(self) -> Tab {
        Tab::spec_from_index(((self.spec_index() + 1) % 4) as nat).unwrap()
    }

    /// The section before this one, wrapping from the first to the last.
    pub open spec fn spec_prev(self) -> Tab {
        Tab::spec_from_index(((self.spec_index() + 3) % 4) as nat).unwrap()
    }

    pub open spec fn spec_label(self) -> Seq<char> {
        match self {
            Tab::About => "About"@,
            Tab::Projects => "Projects"@,
            Tab::Skills => "Skills"@,
            Tab::Contact => "Contact"@,
        }
    }

    /// Title shown in the tab bar.
    pub fn label(&self) -> (r: &'static str)
        ensures
            r@ == self.spec_label(),
    {
        match self {
            Tab::About => "About",
            Tab::Projects => "Projects",
            Tab::Skills => "Skills",
            Tab::Contact => "Contact",
        }
    }

    /// Position of the section in display order.
    pub fn index(&self) -> (r: usize)
        ensures
            r == self.spec_index(),
    {
        match self {
            Tab::About => 0,
            Tab::Projects => 1,
            Tab::Skills => 2,
            Tab::Contact => 3,
        }
    }

    /// The section at position `i`; `None` past the last section.
    pub fn from_index(i: usize) -> (r: Option<Tab>)
        ensures
            r == Tab::spec_from_index(i as nat),
            r matches Some(t) ==> t.spec_index() == i,
            r is Some <==> i < TAB_COUNT,
    {
        match i {
            0 => Some(Tab::About),
            1 => Some(Tab::Projects),
            2 => Some(Tab::Skills),
            3 => Some(Tab::Contact),
            _ => None,
        }
    }
}

/// Progress of the intro animation.
#[derive(Debug, Clone, Copy, PartialEq, Eq, Structural)]
pub enum IntroPhase {
    /// The banner is being typed out; `chars_shown` characters are visible.
    Typing { chars_shown: usize },
    /// The banner is complete and stays for `ticks_remaining` more ticks.
    Pause { ticks_remaining: u8 },
    /// The animation is over and the full UI is shown.
    Done,
}

/// The phase after one animation tick that reveals `chars` more characters
/// of a banner of `total` characters.
pub open spec fn intro_step(p: IntroPhase, chars: nat, total: nat) -> IntroPhase {
    match p {
        IntroPhase::Typing { chars_shown } => {
            let next: int = if chars_shown + chars >= total {
                total as int
            } else {
                chars_shown + chars
            };
            if next >= total {
                IntroPhase::Pause { ticks_remaining: PAUSE_TICKS }
            } else {
                IntroPhase::Typing { chars_shown: next as usize }
            }
        },
        IntroPhase::Pause { ticks_remaining } => {
            if ticks_remaining <= 1 {
                IntroPhase::Done
            } else {
                IntroPhase::Pause { ticks_remaining: (ticks_remaining - 1) as u8 }
            }
        },
        IntroPhase::Done => IntroPhase::Done,
    }
}

/// A phase that the animation can be in, for a banner of `total` characters.
pub open spec fn intro_wf(p: IntroPhase, total: nat) -> bool {
    match p {
        IntroPhase::Typing { chars_shown } => chars_shown < total,
        IntroPhase::Pause { ticks_remaining } => 1 <= ticks_remaining <= PAUSE_TICKS,
        IntroPhase::Done => true,
    }
}

/// Number of lines that a section's content takes.
pub open spec fn content_height(tab: Tab) -> nat {
    match tab {
        Tab::About => about_line_count(),
        Tab::Projects => project_lines(category_sizes()),
        Tab::Skills => skill_lines(skill_group_count()),
        Tab::Contact => contact_lines(contact_entry_count()),
    }
}

/// Largest scroll offset for content of `content` lines in a viewport of
/// `viewport` lines.
pub open spec fn scroll_limit(content: nat, viewport: nat) -> nat {
    if content > viewport {
        (content - viewport) as nat
    } else {
        0
    }
}

/// Scroll offset after one step down.
pub open spec fn scroll_down_step(offset: nat, content: nat, viewport: nat) -> nat {
    if content > viewport {
        if offset + 1 <= scroll_limit(content, viewport) {
            offset + 1
        } else {
            scroll_limit(content, viewport)
        }
    } else {
        offset
    }
}

/// Scroll offset after one step up.
pub open spec fn scroll_up_step(offset: nat) -> nat {
    if offset > 0 {
        (offset - 1) as nat
    } else {
        0
    }
}

/// Navigation state of one client session.
#[derive(Debug, Clone, Copy, PartialEq, Eq, Structural)]
pub struct App {
    pub tab: Tab,
    pub should_quit: bool,
    pub scroll_offset: usize,
    pub intro: IntroPhase,
}

impl App {
    /// The state invariant: the intro phase is one the animation can reach.
    pub open spec fn wf(self) -> bool {
        intro_wf(self.intro, banner_total())
    }

    /// Fresh state: first section, top of the page, intro not started.
    pub fn new() -> (r: Self)
        ensures
            r.tab == Tab::About,
            !r.should_quit,
            r.scroll_offset == 0,
            r.intro == (IntroPhase::Typing { chars_shown: 0 }),
            r.wf(),
    {
        proof {
            lemma_banner_total();
        }
        Self { tab: Tab::About, should_quit: false, scroll_offset: 0, intro: IntroPhase::Typing { chars_shown: 0 } }
    }

    /// Moves to the next section, wrapping around, and back to the top.
    pub fn next_tab(&mut self)
        ensures
            final(self).tab == old(self).tab.spec_next(),
            final(self).tab.spec_index() == (old(self).tab.spec_index() + 1) % 4,
            final(self).scroll_offset == 0,
            final(self).intro == old(self).intro,
            final(self).should_quit == old(self).should_quit,
    {
        let idx = self.tab.index();
        let next = (idx + 1) % TAB_COUNT;
        self.tab = Tab::from_index(next).unwrap();
        self.scroll_offset = 0;
    }

    /// Moves to the previous section, wrapping around, and back to the top.
    pub fn prev_tab(&mut self)
        ensures
            final(self).tab == old(self).tab.spec_prev(),
            final(self).tab.spec_index() == (old(self).tab.spec_index() + 3) % 4,
            final(self).scroll_offset == 0,
            final(self).intro == old(self).intro,
            final(self).should_quit == old(self).should_quit,
    {
        let idx = self.tab.index();
        let prev = if idx == 0 {
            TAB_COUNT - 1
        } else {
            idx - 1
        };
        self.tab = Tab::from_index(prev).unwrap();
        self.scroll_offset = 0;
    }

    /// Jumps to the section at `idx` and back to the top; does nothing when
    /// there is no such section.
    pub fn go_to_tab(&mut self, idx: usize)
        ensures
            idx < TAB_COUNT ==> final(self).tab == Tab::spec_from_index(idx as nat).unwrap()
                && final(self).tab.spec_index() == idx && final(self).scroll_offset == 0,
            idx >= TAB_COUNT ==> *final(self) == *old(self),
            final(self).intro == old(self).intro,
            final(self).should_quit == old(self).should_quit,
    {
        if let Some(tab) = Tab::from_index(idx) {
            self.tab = tab;
            self.scroll_offset = 0;
        }
    }

    /// Marks the session as finished.
    pub fn quit(&mut self)
        ensures
            *final(self) == (App { should_quit: true, ..*old(self) }),
    {
        self.should_quit = true;
    }

    /// Scrolls one line up, stopping at the top.
    pub fn scroll_up(&mut self)
        ensures
            final(self).scroll_offset == scroll_up_step(old(self).scroll_offset as nat),
            *final(self) == (App { scroll_offset: final(self).scroll_offset, ..*old(self) }),
    {
        self.scroll_offset = self.scroll_offset.saturating_sub(1);
    }

    /// Scrolls one line down, stopping where the last line of content meets
    /// the bottom of the viewport; does nothing when the content fits.
    pub fn scroll_down(&mut self, content_height: usize, viewport_height: usize)
        ensures
            final(self).scroll_offset == scroll_down_step(
                old(self).scroll_offset as nat,
                content_height as nat,
                viewport_height as nat,
            ),
            *final(self) == (App { scroll_offset: final(self).scroll_offset, ..*old(self) }),
    {
        if content_height > viewport_height {
            let max = content_height - viewport_height;
            if self.scroll_offset < max {
                self.scroll_offset = self.scroll_offset + 1;
            } else {
                self.scroll_offset = max;
            }
        }
    }

    /// Number of content lines of the active section.
    pub fn content_line_count(&self) -> (r: usize)
        ensures
            r == content_height(self.tab),
    {
        match self.tab {
            Tab::About => crate::content::about_lines().len(),
            Tab::Projects => total_project_lines(),
            Tab::Skills => {
                let groups = skill_groups();
                let mut lines: usize = 0;
                let mut i: usize = 0;
                while i < groups.len()
                    invariant
                        i <= groups@.len(),
                        groups@.len() == skill_group_count(),
                        lines == skill_lines(i as nat),
                    decreases groups.len() - i,
                {
                    if i > 0 {
                        lines += 1;
                    }
                    lines += 2;
                    i += 1;
                }
                lines
            },
            Tab::Contact => 1 + 1 + contact_entries().len() + 1 + 1,
        }
    }

    /// Advances the intro animation by `chars` characters, or counts down the
    /// pause after it. Returns whether the state changed; once the intro is
    /// done nothing changes.
    pub fn advance_intro(&mut self, chars: usize) -> (r: bool)
        ensures
            final(self).intro == intro_step(old(self).intro, chars as nat, banner_total()),
            r == !(old(self).intro is Done),
            old(self).intro is Done ==> *final(self) == *old(self),
            *final(self) == (App { intro: final(self).intro, ..*old(self) }),
            old(self).wf() ==> final(self).wf(),
    {
        match self.intro {
            IntroPhase::Typing { chars_shown } => {
                let total = banner_char_count();
                let next = if chars_shown >= total || chars >= total - chars_shown {
                    total
                } else {
                    chars_shown + chars
                };
                if next >= total {
                    self.intro = IntroPhase::Pause { ticks_remaining: PAUSE_TICKS };
                } else {
                    self.intro = IntroPhase::Typing { chars_shown: next };
                }
                true
            },
            IntroPhase::Pause { ticks_remaining } => {
                if ticks_remaining <= 1 {
                    self.intro = IntroPhase::Done;
                } else {
                    self.intro = IntroPhase::Pause { ticks_remaining: ticks_remaining - 1 };
                }
                true
            },
            IntroPhase::Done => false,
        }
    }

    /// Ends the intro animation at once, whatever its phase.
    pub fn skip_intro(&mut self)
        ensures
            *final(self) == (App { intro: IntroPhase::Done, ..*old(self) }),
    {
        self.intro = IntroPhase::Done;
    }

    /// Whether the intro animation is over.
    pub fn intro_done(&self) -> (r: bool)
        ensures
            r == (self.intro is Done),
    {
        match self.intro {
            IntroPhase::Done => true,
            _ => false,
        }
    }
}

// ── Laws of the state machine ──────────────────────────────────

/// The section reached from `t` by a sequence of moves, where `true` steps
/// to the next section and `false` to the previous one.
pub open spec fn tab_after(t: Tab, moves: Seq<bool>) -> Tab
    decreases moves.len(),
{
    if moves.len() == 0 {
        t
    } else {
        let u = tab_after(t, moves.drop_last());
        if moves.last() {
            u.spec_next()
        } else {
            u.spec_prev()
        }
    }
}

/// Forward moves minus backward moves.
pub open spec fn net_moves(moves: Seq<bool>) -> int
    decreases moves.len(),
{
    if moves.len() == 0 {
        0
    } else {
        net_moves(moves.drop_last()) + if moves.last() {
            1int
        } else {
            -1int
        }
    }
}

/// Any sequence of next and previous moves walks the sections as a cycle,
/// wrapping around in both directions: the section reached is the start
/// shifted by the net number of moves, modulo the number of sections.
pub proof fn lemma_tab_cycle(t: Tab, moves: Seq<bool>)
    ensures
        tab_after(t, moves).spec_index() == (t.spec_index() + net_moves(moves)) % 4,
    decreases moves.len(),
{
    if moves.len() > 0 {
        lemma_tab_cycle(t, moves.drop_last());
        let a = t.spec_index() + net_moves(moves.drop_last());
        if moves.last() {
            assert(((a % 4) + 1) % 4 == (a + 1) % 4);
        } else {
            assert(((a % 4) + 3) % 4 == (a - 1) % 4);
        }
    }
}

/// Scrolling stays within the content: one step down never passes the
/// largest offset that content and viewport heights allow, from any offset
/// when the content is taller than the viewport and from the top otherwise;
/// one step up never passes the top and keeps an offset within that limit.
pub proof fn lemma_scroll_bounds(offset: nat, content: nat, viewport: nat)
    ensures
        (content > viewport || offset == 0) ==> scroll_down_step(offset, content, viewport)
            <= scroll_limit(content, viewport),
        scroll_up_step(offset) >= 0,
        offset <= scroll_limit(content, viewport) ==> scroll_up_step(offset) <= scroll_limit(
            content,
            viewport,
        ),
{
}

/// Order of the intro phases: typing with more characters shown, then the
/// pause with fewer ticks left, then done.
pub open spec fn phase_le(a: IntroPhase, b: IntroPhase) -> bool {
    match a {
        IntroPhase::Typing { chars_shown: c1 } => match b {
            IntroPhase::Typing { chars_shown: c2 } => c1 <= c2,
            _ => true,
        },
        IntroPhase::Pause { ticks_remaining: t1 } => match b {
            IntroPhase::Typing { .. } => false,
            IntroPhase::Pause { ticks_remaining: t2 } => t2 <= t1,
            IntroPhase::Done => true,
        },
        IntroPhase::Done => b is Done,
    }
}

/// An animation tick never moves the intro backward, and nothing leaves
/// `Done`.
pub proof fn lemma_intro_monotonic(p: IntroPhase, chars: nat, total: nat)
    requires
        total <= usize::MAX,
    ensures
        phase_le(p, intro_step(p, chars, total)),
        p is Done ==> intro_step(p, chars, total) is Done,
{
}

/// The phase after `k` ticks of `chars` characters each.
pub open spec fn intro_run(p: IntroPhase, chars: nat, total: nat, k: nat) -> IntroPhase
    decreases k,
{
    if k == 0 {
        p
    } else {
        intro_run(intro_step(p, chars, total), chars, total, (k - 1) as nat)
    }
}

/// An upper bound on the ticks that the intro still takes.
pub open spec fn intro_ticks_left(p: IntroPhase, total: nat) -> nat {
    match p {
        IntroPhase::Typing { chars_shown } => ((if chars_shown < total {
            (total - chars_shown) as nat
        } else {
            0nat
        }) + PAUSE_TICKS + 1) as nat,
        IntroPhase::Pause { ticks_remaining } => if ticks_remaining <= 1 {
            1
        } else {
            ticks_remaining as nat
        },
        IntroPhase::Done => 0,
    }
}

/// Ticks that reveal at least one character each bring any phase, and so
/// the fresh `Typing` at zero characters, to `Done` within
/// `intro_ticks_left` ticks, and it stays there.
pub proof fn lemma_intro_finishes(p: IntroPhase, chars: nat, total: nat, k: nat)
    requires
        chars >= 1,
        total <= usize::MAX,
        k >= intro_ticks_left(p, total),
    ensures
        intro_run(p, chars, total, k) is Done,
    decreases k,
{
    if k > 0 {
        if p is Done {
            lemma_intro_finishes(p, chars, total, (k - 1) as nat);
        } else {
            lemma_intro_finishes(intro_step(p, chars, total), chars, total, (k - 1) as nat);
        }
    }
}

} // verus!
