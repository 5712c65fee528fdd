use ssh_portfolio::app::{App, IntroPhase, Tab};
use ssh_portfolio::bridge::FrameBuffer;
use ssh_portfolio::session::{
    InputOutcome, RegistryError, ResizeOutcome, SessionRegistry, Surface, SurfaceError,
    TickOutcome,
};

/// Records what was drawn; fails every draw once `broken` is set.
struct Recorder {
    size: (u16, u16),
    frames: Vec<App>,
    broken: bool,
}

impl Recorder {
    fn new() -> Self {
        Recorder { size: (0, 0), frames: Vec::new(), broken: false }
    }
}

impl Surface for Recorder {
    fn resize(&mut self, width: u16, height: u16) -> Result<(), SurfaceError> {
        if self.broken {
            return Err(SurfaceError);
        }
        self.size = (width, height);
        Ok(())
    }

    fn draw(&mut self, nav: &App) -> Result<(), SurfaceError> {
        if self.broken {
            return Err(SurfaceError);
        }
        self.frames.push(*nav);
        Ok(())
    }
}

fn opened(id: u64) -> SessionRegistry<Recorder> {
    let mut reg = SessionRegistry::new();
    assert_eq!(reg.open(id, Recorder::new()), Ok(()));
    reg
}

#[test]
fn ids_are_handed_out_in_order() {
    let mut reg: SessionRegistry<Recorder> = SessionRegistry::new();
    assert_eq!(reg.next_id(), Some(1));
    assert_eq!(reg.next_id(), Some(2));
    assert_eq!(reg.next_id(), Some(3));
}

#[test]
fn open_twice_is_refused() {
    let mut reg = opened(1);
    assert_eq!(reg.open(1, Recorder::new()), Err(RegistryError::AlreadyOpen));
    assert_eq!(reg.len(), 1);
    assert_eq!(reg.open(2, Recorder::new()), Ok(()));
    assert_eq!(reg.len(), 2);
}

#[test]
fn absent_ids_are_no_ops() {
    let mut reg = opened(1);
    assert!(!reg.close(7));
    assert_eq!(reg.resize(7, 80, 24), ResizeOutcome::Missing);
    assert_eq!(reg.input(7, b"q"), InputOutcome::Missing);
    assert_eq!(reg.tick(7, 4), TickOutcome::Missing);
    assert!(reg.contains(1));
    assert_eq!(reg.len(), 1);
}

#[test]
fn close_is_idempotent() {
    let mut reg = opened(1);
    assert!(reg.close(1));
    assert!(!reg.close(1));
    assert!(!reg.contains(1));
}

#[test]
fn first_resize_starts_the_animation_once() {
    let mut reg = opened(1);
    assert_eq!(reg.resize(1, 80, 24), ResizeOutcome::Drawn { start_animation: true });
    assert_eq!(reg.resize(1, 100, 40), ResizeOutcome::Drawn { start_animation: false });
}

#[test]
fn ticks_run_the_intro_to_the_end() {
    let mut reg = opened(1);
    reg.resize(1, 80, 40);
    let mut ticks = 0;
    loop {
        match reg.tick(1, 4) {
            TickOutcome::Continue => ticks += 1,
            TickOutcome::Finished => {
                ticks += 1;
                break;
            }
            other => panic!("unexpected {:?}", other),
        }
    }
    assert_eq!(ticks, 55);
    assert_eq!(reg.tick(1, 4), TickOutcome::Finished);
}

#[test]
fn quit_key_during_intro_keeps_the_session() {
    let mut reg = opened(1);
    reg.resize(1, 80, 40);
    assert_eq!(reg.input(1, b"q"), InputOutcome::Drawn);
    assert!(reg.contains(1));
    assert_eq!(reg.input(1, b"q"), InputOutcome::Quit);
    assert!(!reg.contains(1));
}

#[test]
fn arrows_move_between_sections() {
    let mut reg = opened(1);
    reg.resize(1, 80, 40);
    reg.input(1, b"x");
    for _ in 0..3 {
        assert_eq!(reg.input(1, b"\x1b[C"), InputOutcome::Drawn);
    }
    assert_eq!(reg.input(1, b"\x1b[A"), InputOutcome::Unchanged);
    assert_eq!(reg.input(1, b"7"), InputOutcome::Unchanged);
    assert_eq!(reg.input(1, b"\x1b[C"), InputOutcome::Drawn);
    assert_eq!(reg.tick(1, 4), TickOutcome::Finished);
}

#[test]
fn surface_failure_tears_down_only_that_session() {
    let mut reg: SessionRegistry<Recorder> = SessionRegistry::new();
    let mut bad = Recorder::new();
    bad.broken = true;
    assert_eq!(reg.open(1, bad), Ok(()));
    assert_eq!(reg.open(2, Recorder::new()), Ok(()));
    assert_eq!(reg.resize(1, 80, 24), ResizeOutcome::Failed);
    assert!(!reg.contains(1));
    assert!(reg.contains(2));
    assert_eq!(reg.resize(2, 80, 24), ResizeOutcome::Drawn { start_animation: true });
}

#[test]
fn draw_failure_on_input_and_tick() {
    let mut reg: SessionRegistry<Recorder> = SessionRegistry::new();
    let mut bad = Recorder::new();
    bad.broken = true;
    reg.open(1, bad).unwrap();
    assert_eq!(reg.input(1, b"x"), InputOutcome::Failed);
    assert!(!reg.contains(1));
    let mut bad = Recorder::new();
    bad.broken = true;
    reg.open(2, bad).unwrap();
    assert_eq!(reg.tick(2, 4), TickOutcome::Failed);
    assert!(!reg.contains(2));
}

#[test]
fn frames_hold_the_writes_since_the_last_flush() {
    let mut buf = FrameBuffer::new();
    assert_eq!(buf.write(b"\x1b[2J"), 4);
    assert_eq!(buf.write(b"hello"), 5);
    assert_eq!(buf.pending_len(), 9);
    assert_eq!(buf.flush(), b"\x1b[2Jhello".to_vec());
    assert_eq!(buf.pending_len(), 0);
    assert_eq!(buf.flush(), Vec::<u8>::new());
    assert_eq!(buf.write(b""), 0);
    buf.write(b"next");
    assert_eq!(buf.flush(), b"next".to_vec());
}

#[test]
fn intro_phase_and_tab_in_drawn_frames() {
    let mut reg = opened(3);
    reg.resize(3, 80, 40);
    reg.tick(3, 4);
    reg.input(3, b"x");
    reg.input(3, b"3");
    assert!(reg.contains(3));
    let first = App::new();
    assert_eq!(first.intro, IntroPhase::Typing { chars_shown: 0 });
    assert_eq!(first.tab, Tab::About);
}
