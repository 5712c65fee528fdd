//! The registry of connected sessions: one rendering surface and one
//! navigation state per client, changed and drawn together.
use vstd::prelude::*;
use std::collections::HashMap;
use crate::app::{intro_step, App};
use crate::content::banner_total;
use crate::input::{handle_input, input_effect, input_state, key_of, InputEffect};

verus! {

broadcast use {
    vstd::std_specs::hash::group_hash_axioms,
    vstd::std_specs::hash::axiom_random_state_builds_valid_hashers,
};

/// A surface failed to resize or draw; the session it belongs to is over.
#[derive(Debug, Clone, Copy, PartialEq, Eq, Structural)]
pub struct SurfaceError;

/// Where a session's frames are laid out and sent.
pub trait Surface {
    /// Lays out future frames for a screen of the given size.
    fn resize(&mut self, width: u16, height: u16) -> Result<(), SurfaceError>;

    /// Draws one frame of the given navigation state and sends it.
    fn draw(&mut self, nav: &App) -> Result<(), SurfaceError>;
}

/// One connected client.
pub struct Session<S> {
    pub surface: S,
    pub nav: App,
    /// Screen height last reported by the client.
    pub height: u16,
    /// Whether the intro animation driver has been started.
    pub animating: bool,
}

/// Errors of registry bookkeeping.
#[derive(Debug, Clone, Copy, PartialEq, Eq, Structural)]
pub enum RegistryError {
    /// A session with this id is already open.
    AlreadyOpen,
}

/// Result of a screen size report.
#[derive(Debug, Clone, Copy, PartialEq, Eq, Structural)]
pub enum ResizeOutcome {
    /// No such session.
    Missing,
    /// The surface failed; the session was removed.
    Failed,
    /// Resized and drawn; `start_animation` is set on the first report only.
    Drawn { start_animation: bool },
}

/// Result of an input.
#[derive(Debug, Clone, Copy, PartialEq, Eq, Structural)]
pub enum InputOutcome {
    /// No such session.
    Missing,
    /// The surface failed; the session was removed.
    Failed,
    /// A quit key; the session was removed and its channel is to be closed.
    Quit,
    /// The state changed, or the intro was skipped, and a frame was drawn.
    Drawn,
    /// Nothing changed; nothing was drawn.
    Unchanged,
}

/// Result of an animation tick.
#[derive(Debug, Clone, Copy, PartialEq, Eq, Structural)]
pub enum TickOutcome {
    /// No such session: the animation ends.
    Missing,
    /// The surface failed; the session was removed and the animation ends.
    Failed,
    /// The intro is still running: tick again.
    Continue,
    /// The intro is done: the animation ends.
    Finished,
}

/// The sessions of all connected clients, by id.
pub struct SessionRegistry<S> {
    sessions: HashMap<u64, Session<S>>,
    last_id: u64,
}

/// A session as first opened.
pub open spec fn fresh_session<S>(surface: S) -> Session<S> {
    Session {
        surface,
        nav: App {
            tab: crate::app::Tab::About,
            should_quit: false,
            scroll_offset: 0,
            intro: crate::app::IntroPhase::Typing { chars_shown: 0 },
        },
        height: 0,
        animating: false,
    }
}

impl<S> View for SessionRegistry<S> {
    type V = Map<u64, Session<S>>;

    closed spec fn view(&self) -> Map<u64, Session<S>> {
        self.sessions@
    }
}

impl<S: Surface> SessionRegistry<S> {
    /// The last id handed out, 0 before the first.
    pub closed spec fn spec_last_id(&self) -> u64 {
        self.last_id
    }

    /// An empty registry.
    pub fn new() -> (r: Self)
        ensures
            r@ == Map::<u64, Session<S>>::empty(),
            r.spec_last_id() == 0,
    {
        SessionRegistry { sessions: HashMap::new(), last_id: 0 }
    }

    /// Hands out the next connection id: one more than the last, so ids are
    /// never reused. `None` once every id has been used.
    pub fn next_id(&mut self) -> (r: Option<u64>)
        ensures
            final(self)@ == old(self)@,
            old(self).spec_last_id() < u64::MAX ==> r == Some((old(self).spec_last_id() + 1) as u64)
                && final(self).spec_last_id() == old(self).spec_last_id() + 1,
            old(self).spec_last_id() == u64::MAX ==> r is None && final(self).spec_last_id()
                == old(self).spec_last_id(),
    {
        if self.last_id < u64::MAX {
            self.last_id = self.last_id + 1;
            Some(self.last_id)
        } else {
            None
        }
    }

    /// Whether a session with this id is open.
    pub fn contains(&self, id: u64) -> (r: bool)
        ensures
            r == self@.contains_key(id),
    {
        self.sessions.contains_key(&id)
    }

    /// Number of open sessions.
    pub fn len(&self) -> (r: usize)
        ensures
            r == self@.len(),
    {
        self.sessions.len()
    }

    /// Opens a session on `surface` with fresh navigation state; fails when
    /// the id is already open, leaving the registry as it was.
    pub fn open(&mut self, id: u64, surface: S) -> (r: Result<(), RegistryError>)
        ensures
            old(self)@.contains_key(id) ==> r == Err::<(), RegistryError>(RegistryError::AlreadyOpen)
                && final(self)@ == old(self)@,
            !old(self)@.contains_key(id) ==> r is Ok && final(self)@ == old(self)@.insert(
                id,
                fresh_session(surface),
            ),
            final(self).spec_last_id() == old(self).spec_last_id(),
    {
        if self.sessions.contains_key(&id) {
            return Err(RegistryError::AlreadyOpen);
        }
        let session = Session { surface, nav: App::new(), height: 0, animating: false };
        self.sessions.insert(id, session);
        Ok(())
    }

    /// Removes the session; closing an id that is not open does nothing.
    /// Returns whether a session was removed.
    pub fn close(&mut self, id: u64) -> (r: bool)
        ensures
            final(self)@ == old(self)@.remove(id),
            !old(self)@.contains_key(id) ==> final(self)@ == old(self)@,
            r == old(self)@.contains_key(id),
            final(self).spec_last_id() == old(self).spec_last_id(),
    {
        self.sessions.remove(&id).is_some()
    }

    /// The client reported its screen size: resize the surface and draw one
    /// frame. The first report asks for the intro animation to start.
    pub fn resize(&mut self, id: u64, width: u16, height: u16) -> (r: ResizeOutcome)
        ensures
            final(self).spec_last_id() == old(self).spec_last_id(),
            !old(self)@.contains_key(id) <==> r is Missing,
            r is Missing ==> final(self)@ == old(self)@,
            r is Failed ==> final(self)@ == old(self)@.remove(id),
            r matches ResizeOutcome::Drawn { start_animation } ==> {
                &&& final(self)@.contains_key(id)
                &&& final(self)@.remove(id) == old(self)@.remove(id)
                &&& final(self)@[id].nav == old(self)@[id].nav
                &&& final(self)@[id].height == height
                &&& final(self)@[id].animating
                &&& start_animation == !old(self)@[id].animating
            },
    {
        let mut session = match self.sessions.remove(&id) {
            Some(s) => s,
            None => return ResizeOutcome::Missing,
        };
        if session.surface.resize(width, height).is_err() {
            return ResizeOutcome::Failed;
        }
        session.height = height;
        if session.surface.draw(&session.nav).is_err() {
            return ResizeOutcome::Failed;
        }
        let start_animation = !session.animating;
        session.animating = true;
        self.sessions.insert(id, session);
        ResizeOutcome::Drawn { start_animation }
    }

    /// The client sent `data`: apply it to the navigation state and draw a
    /// frame when something changed. A quit key removes the session.
    pub fn input(&mut self, id: u64, data: &[u8]) -> (r: InputOutcome)
        ensures
            final(self).spec_last_id() == old(self).spec_last_id(),
            !old(self)@.contains_key(id) <==> r is Missing,
            r is Missing ==> final(self)@ == old(self)@,
            (r is Failed || r is Quit) ==> final(self)@ == old(self)@.remove(id),
            old(self)@.contains_key(id) ==> {
                let s = old(self)@[id];
                let effect = input_effect(s.nav, key_of(data@), s.height as nat);
                &&& (r is Quit <==> effect is Quit)
                &&& (r is Unchanged ==> effect is Unchanged)
                &&& (r is Drawn ==> effect is Changed || effect is SkippedIntro)
                &&& (effect is Unchanged ==> r is Unchanged)
                &&& (effect is Changed || effect is SkippedIntro) ==> (r is Drawn || r is Failed)
                &&& (r is Drawn || r is Unchanged) ==> {
                    &&& final(self)@.contains_key(id)
                    &&& final(self)@.remove(id) == old(self)@.remove(id)
                    &&& final(self)@[id].nav == input_state(s.nav, key_of(data@), s.height as nat)
                    &&& final(self)@[id].height == s.height
                    &&& final(self)@[id].animating == s.animating
                }
            },
    {
        let mut session = match self.sessions.remove(&id) {
            Some(s) => s,
            None => return InputOutcome::Missing,
        };
        let effect = handle_input(&mut session.nav, data, session.height);
        match effect {
            InputEffect::Quit => InputOutcome::Quit,
            InputEffect::Unchanged => {
                self.sessions.insert(id, session);
                InputOutcome::Unchanged
            },
            _ => {
                if session.surface.draw(&session.nav).is_err() {
                    return InputOutcome::Failed;
                }
                self.sessions.insert(id, session);
                InputOutcome::Drawn
            },
        }
    }

    /// One tick of the intro animation: reveal `chars` more characters and
    /// draw when the phase changed. Tells the driver whether to go on.
    pub fn tick(&mut self, id: u64, chars: usize) -> (r: TickOutcome)
        ensures
            final(self).spec_last_id() == old(self).spec_last_id(),
            !old(self)@.contains_key(id) <==> r is Missing,
            r is Missing ==> final(self)@ == old(self)@,
            r is Failed ==> final(self)@ == old(self)@.remove(id),
            old(self)@.contains_key(id) && old(self)@[id].nav.intro is Done ==> r is Finished
                && final(self)@ == old(self)@,
            (r is Continue || r is Finished) ==> {
                let s = old(self)@[id];
                &&& final(self)@.contains_key(id)
                &&& final(self)@.remove(id) == old(self)@.remove(id)
                &&& final(self)@[id].nav == (App {
                    intro: intro_step(s.nav.intro, chars as nat, banner_total()),
                    ..s.nav
                })
                &&& final(self)@[id].height == s.height
                &&& final(self)@[id].animating == s.animating
                &&& (r is Finished <==> final(self)@[id].nav.intro is Done)
            },
    {
        let mut session = match self.sessions.remove(&id) {
            Some(s) => s,
            None => return TickOutcome::Missing,
        };
        let changed = session.nav.advance_intro(chars);
        if changed {
            if session.surface.draw(&session.nav).is_err() {
                return TickOutcome::Failed;
            }
        }
        let done = session.nav.intro_done();
        self.sessions.insert(id, session);
        if done {
            TickOutcome::Finished
        } else {
            TickOutcome::Continue
        }
    }
}

} // verus!
