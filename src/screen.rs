//! What the renderer shows of the banner during the intro, and where the
//! scroll indicator stands.
use vstd::prelude::*;
use crate::app::{IntroPhase, App};
use crate::content::{banner, banner_char_count, banner_total, banner_view};

verus! {

/// Characters of the banner shown in phase `p`: all of them once typing is
/// over.
pub open spec fn shown_chars(p: IntroPhase) -> nat {
    match p {
        IntroPhase::Typing { chars_shown } => chars_shown as nat,
        _ => banner_total(),
    }
}

/// Characters of the banner shown in the intro phase of `app`.
pub fn intro_chars_shown(app: &App) -> (r: usize)
    ensures
        r == shown_chars(app.intro),
{
    match app.intro {
        IntroPhase::Typing { chars_shown } => chars_shown,
        _ => banner_char_count(),
    }
}

/// Lengths of the lines of `lines`.
pub open spec fn line_lengths(lines: Seq<Seq<char>>) -> Seq<nat> {
    lines.map_values(|l: Seq<char>| l.len())
}

/// How many characters of each line are visible when `remaining`
/// characters have been typed, each line followed by one line break; lines
/// not yet reached are left out.
pub open spec fn reveal_counts(lens: Seq<nat>, remaining: nat) -> Seq<nat>
    decreases lens.len(),
{
    if lens.len() == 0 || remaining == 0 {
        Seq::empty()
    } else {
        let show = if remaining < lens[0] {
            remaining
        } else {
            lens[0]
        };
        let rest = if remaining > lens[0] + 1 {
            (remaining - lens[0] - 1) as nat
        } else {
            0nat
        };
        seq![show].add(reveal_counts(lens.drop_first(), rest))
    }
}

/// Number of visible characters of each banner line after `chars_shown`
/// characters have been typed, for the lines reached so far.
pub fn banner_reveal(chars_shown: usize) -> (r: Vec<usize>)
    ensures
        r@.map_values(|n: usize| n as nat) == reveal_counts(line_lengths(banner_view()), chars_shown as nat),
        r@.len() <= banner_view().len(),
        forall|i: int| 0 <= i < r@.len() ==> r@[i] <= banner_view()[i].len(),
{
    let lines = banner();
    let ghost lens = line_lengths(banner_view());
    let mut out: Vec<usize> = Vec::new();
    let mut remaining: usize = chars_shown;
    let mut i: usize = 0;
    assert(lens.skip(0) =~= lens);
    assert(out@.map_values(|n: usize| n as nat) + reveal_counts(lens, remaining as nat)
        =~= reveal_counts(lens, remaining as nat));
    while i < lines.len() && remaining > 0
        invariant
            i <= lines@.len(),
            lens.len() == lines@.len(),
            lines@.len() == banner_view().len(),
            lens == line_lengths(banner_view()),
            forall|k: int| 0 <= k < lines@.len() ==> (#[trigger] lines@[k])@ == banner_view()[k],
            out@.len() == i,
            forall|k: int| 0 <= k < out@.len() ==> out@[k] <= banner_view()[k].len(),
            reveal_counts(lens, chars_shown as nat) == out@.map_values(|n: usize| n as nat) + reveal_counts(
                lens.skip(i as int),
                remaining as nat,
            ),
        decreases lines.len() - i,
    {
        let len = lines[i].unicode_len();
        let show = if remaining < len {
            remaining
        } else {
            len
        };
        let ghost old_out = out@;
        out.push(show);
        assert(lens.skip(i as int).drop_first() =~= lens.skip(i + 1));
        assert(lens.skip(i as int)[0] == len);
        assert(out@.map_values(|n: usize| n as nat) =~= old_out.map_values(|n: usize| n as nat)
            + seq![show as nat]);
        remaining = if len < usize::MAX && remaining > len + 1 {
            remaining - len - 1
        } else {
            0
        };
        i += 1;
    }
    assert(reveal_counts(lens.skip(i as int), remaining as nat) =~= Seq::<nat>::empty());
    assert(out@.map_values(|n: usize| n as nat) + Seq::<nat>::empty() =~= out@.map_values(
        |n: usize| n as nat,
    ));
    out
}

/// The scroll position marker of a section.
#[derive(Debug, Clone, Copy, PartialEq, Eq, Structural)]
pub enum ScrollIndicator {
    /// The content fits: no marker.
    Hidden,
    /// At the top.
    Top,
    /// At or past the end.
    End,
    /// Somewhere between, as a percentage of the way down.
    Percent(usize),
}

/// The marker for `offset` lines scrolled of `total` lines in a viewport of
/// `viewport` lines.
pub open spec fn indicator_of(offset: nat, total: nat, viewport: nat) -> ScrollIndicator {
    if total <= viewport {
        ScrollIndicator::Hidden
    } else if offset == 0 {
        ScrollIndicator::Top
    } else if offset >= total - viewport {
        ScrollIndicator::End
    } else {
        ScrollIndicator::Percent(((offset * 100) as int / (total - viewport)) as usize)
    }
}

/// The scroll position marker to show.
pub fn scroll_indicator(offset: usize, total: usize, viewport: usize) -> (r: ScrollIndicator)
    ensures
        r == indicator_of(offset as nat, total as nat, viewport as nat),
        r matches ScrollIndicator::Percent(p) ==> p < 100,
{
    let max_scroll = total.saturating_sub(viewport);
    if max_scroll == 0 {
        ScrollIndicator::Hidden
    } else if offset == 0 {
        ScrollIndicator::Top
    } else if offset >= max_scroll {
        ScrollIndicator::End
    } else {
        let scaled: u128 = offset as u128 * 100;
        let pct: u128 = scaled / max_scroll as u128;
        assert(pct < 100) by (nonlinear_arith)
            requires
                scaled as int == offset as int * 100,
                pct as int == scaled as int / max_scroll as int,
                offset < max_scroll,
                max_scroll > 0,
        ;
        ScrollIndicator::Percent(pct as usize)
    }
}

} // verus!
