//! Runtime configuration and the decisions of the two run loops: the desktop
//! event loop (when frames run, when the game is shut down, which error the
//! run reports) and the headless loop that runs a fixed number of frames.
use vstd::prelude::*;
use crate::engine::{Engine, EngineError, EngineResult, engine_error_text};
use crate::render::{render_error_text, RenderError};
use crate::text::{append_str, owned};

verus! {

/// The size of a window in logical pixels.
#[derive(Debug, Clone, Copy, PartialEq, Eq, Structural)]
pub struct WindowSize {
    pub width: u32,
    pub height: u32,
}

impl WindowSize {
    pub fn new(width: u32, height: u32) -> (s: Self)
        ensures
            s.width == width,
            s.height == height,
    {
        WindowSize { width, height }
    }
}

/// The title and size of the game window.
#[derive(Debug, Clone, PartialEq, Eq)]
pub struct WindowConfig {
    pub title: String,
    pub size: WindowSize,
}

impl WindowConfig {
    pub fn new(title: &str, width: u32, height: u32) -> (c: Self)
        ensures
            c.title@ == title@,
            c.size.width == width,
            c.size.height == height,
    {
        WindowConfig { title: owned(title), size: WindowSize::new(width, height) }
    }
}

impl Default for WindowConfig {
    /// A 1280 x 720 window titled `seishin2d`.
    fn default() -> (c: Self)
        ensures
            c.title@ == "seishin2d"@,
            c.size.width == 1280,
            c.size.height == 720,
    {
        WindowConfig::new("seishin2d", 1280, 720)
    }
}

/// How many frames a headless run advances.
#[derive(Debug, Clone, Copy, PartialEq, Eq, Structural)]
pub struct HeadlessRunConfig {
    pub frames: u64,
}

/// Errors that end a desktop run.
#[derive(Debug, Clone, PartialEq, Eq)]
pub enum DesktopRuntimeError {
    Engine(EngineError),
    Render(RenderError),
    /// The event loop failed, with the platform's message.
    EventLoop(String),
    /// The window could not be created, with the platform's message.
    Os(String),
}

/// The text of a desktop runtime error.
pub open spec fn runtime_error_text(e: DesktopRuntimeError) -> Seq<char> {
    match e {
        DesktopRuntimeError::Engine(g) => "engine error: "@ + engine_error_text(g),
        DesktopRuntimeError::Render(r) => "render error: "@ + render_error_text(r),
        DesktopRuntimeError::EventLoop(m) => "event loop error: "@ + m@,
        DesktopRuntimeError::Os(m) => "os error: "@ + m@,
    }
}

impl DesktopRuntimeError {
    /// The text shown for this error.
    pub fn message(&self) -> (s: String)
        ensures
            s@ == runtime_error_text(*self),
    {
        let (prefix, detail) = match self {
            DesktopRuntimeError::Engine(g) => ("engine error: ", g.message()),
            DesktopRuntimeError::Render(r) => ("render error: ", r.message()),
            DesktopRuntimeError::EventLoop(m) => ("event loop error: ", m.clone()),
            DesktopRuntimeError::Os(m) => ("os error: ", m.clone()),
        };
        let mut s = owned(prefix);
        append_str(&mut s, detail.as_str());
        s
    }
}

/// Why the game is being shut down.
#[derive(Debug, Clone, Copy, PartialEq, Eq, Structural)]
pub enum ShutdownCause {
    /// The window was closed or Escape was pressed.
    ExitRequest,
    /// A frame failed.
    AfterError,
    /// The event loop is ending.
    LoopExiting,
}

/// What happened in the desktop event loop.
#[derive(Debug, PartialEq, Eq)]
pub enum LoopEvent {
    /// The game's `ready` returned, before the event loop started.
    ReadyFinished(EngineResult<()>),
    /// The window's close button was used.
    CloseRequested,
    /// The loop is idle and a frame may run; Escape was pressed since the
    /// last frame when `escape_requested` holds.
    FrameDue { escape_requested: bool },
    /// The frame that was asked for ran: tick, update and render.
    FrameFinished(Result<(), DesktopRuntimeError>),
    /// The game's shutdown that was asked for returned.
    ShutdownFinished(EngineResult<()>),
    /// The event loop is ending.
    LoopExiting,
}

/// What the host does next.
#[derive(Debug, Clone, Copy, PartialEq, Eq, Structural)]
pub enum LoopAction {
    /// Nothing; wait for the next event.
    Continue,
    /// Tick the engine, update the game and render.
    RunFrame,
    /// The frame succeeded: close the input frame.
    EndFrame,
    /// Call the game's shutdown and report its result.
    CallShutdown,
    /// Leave the event loop.
    Exit,
}

/// The decision state of the desktop event loop.
#[derive(Debug, Clone, PartialEq, Eq)]
pub struct DesktopLoop {
    /// The game's `ready` succeeded.
    pub ready: bool,
    /// The window was asked to close.
    pub exit_requested: bool,
    /// The game's shutdown has run.
    pub shutdown: bool,
    /// The loop is ending; no frame runs any more.
    pub exiting: bool,
    /// A frame was asked for and has not finished.
    pub frame_running: bool,
    /// A shutdown was asked for and has not returned.
    pub pending: Option<ShutdownCause>,
    /// The error the run reports.
    pub error: Option<DesktopRuntimeError>,
}

/// The next state and action of the desktop loop for one event.
///
/// Nothing happens before the game's `ready` has succeeded: a failed
/// `ready` is the run's error and the loop exits without a shutdown. A
/// frame runs only while the loop is not ending, nothing is pending and
/// no frame is running. An exit request (close or Escape) shuts the game
/// down once and exits. A failed frame records its error, shuts the game
/// down if that has not happened, and exits. The event loop ending shuts
/// the game down if that has not happened. A failed shutdown is recorded
/// when no error is recorded yet (the shutdown for an exit request records
/// its failure in any case). Events that arrive while a shutdown is pending,
/// and results nobody asked for, change nothing.
pub open spec fn loop_step(s: DesktopLoop, e: LoopEvent) -> (DesktopLoop, LoopAction) {
    match e {
        LoopEvent::ReadyFinished(outcome) => if s.ready || s.exiting {
            (s, LoopAction::Continue)
        } else {
            match outcome {
                Ok(_) => (DesktopLoop { ready: true, ..s }, LoopAction::Continue),
                Err(err) => (
                    DesktopLoop {
                        exiting: true,
                        error: Some(DesktopRuntimeError::Engine(err)),
                        ..s
                    },
                    LoopAction::Exit,
                ),
            }
        },
        LoopEvent::ShutdownFinished(outcome) => match s.pending {
            None => (s, LoopAction::Continue),
            Some(cause) => {
                let error = match outcome {
                    Err(err) => if cause == ShutdownCause::ExitRequest || s.error is None {
                        Some(DesktopRuntimeError::Engine(err))
                    } else {
                        s.error
                    },
                    Ok(_) => s.error,
                };
                let done = DesktopLoop { shutdown: true, pending: None, error, ..s };
                if cause == ShutdownCause::LoopExiting {
                    (done, LoopAction::Continue)
                } else {
                    (DesktopLoop { exiting: true, ..done }, LoopAction::Exit)
                }
            },
        },
        _ => if !s.ready || s.pending is Some {
            (s, LoopAction::Continue)
        } else {
            match e {
                LoopEvent::CloseRequested => (
                    DesktopLoop { exit_requested: true, ..s },
                    LoopAction::Continue,
                ),
                LoopEvent::FrameDue { escape_requested } => if s.frame_running {
                    (s, LoopAction::Continue)
                } else if s.exiting {
                    (s, LoopAction::Exit)
                } else if s.exit_requested || escape_requested {
                    if !s.shutdown {
                        (
                            DesktopLoop { pending: Some(ShutdownCause::ExitRequest), ..s },
                            LoopAction::CallShutdown,
                        )
                    } else {
                        (DesktopLoop { exiting: true, ..s }, LoopAction::Exit)
                    }
                } else {
                    (DesktopLoop { frame_running: true, ..s }, LoopAction::RunFrame)
                },
                LoopEvent::FrameFinished(outcome) => if !s.frame_running || s.exiting {
                    (DesktopLoop { frame_running: false, ..s }, LoopAction::Continue)
                } else {
                    match outcome {
                        Ok(_) => (DesktopLoop { frame_running: false, ..s }, LoopAction::EndFrame),
                        Err(err) => {
                            let failed = DesktopLoop {
                                frame_running: false,
                                error: Some(err),
                                ..s
                            };
                            if !s.shutdown {
                                (
                                    DesktopLoop {
                                        pending: Some(ShutdownCause::AfterError),
                                        ..failed
                                    },
                                    LoopAction::CallShutdown,
                                )
                            } else {
                                (DesktopLoop { exiting: true, ..failed }, LoopAction::Exit)
                            }
                        },
                    }
                },
                LoopEvent::LoopExiting => {
                    let ending = DesktopLoop { exiting: true, frame_running: false, ..s };
                    if !s.shutdown {
                        (
                            DesktopLoop { pending: Some(ShutdownCause::LoopExiting), ..ending },
                            LoopAction::CallShutdown,
                        )
                    } else {
                        (ending, LoopAction::Continue)
                    }
                },
                LoopEvent::ShutdownFinished(_) => (s, LoopAction::Continue),
                LoopEvent::ReadyFinished(_) => (s, LoopAction::Continue),
            }
        },
    }
}

impl DesktopLoop {
    /// The state before the game's `ready` has run.
    pub fn new() -> (l: Self)
        ensures
            !l.ready,
            !l.exit_requested,
            !l.shutdown,
            !l.exiting,
            !l.frame_running,
            l.pending is None,
            l.error is None,
    {
        DesktopLoop {
            ready: false,
            exit_requested: false,
            shutdown: false,
            exiting: false,
            frame_running: false,
            pending: None,
            error: None,
        }
    }

    /// Takes one event (see `loop_step`).
    pub fn step(&mut self, event: LoopEvent) -> (a: LoopAction)
        ensures
            (*final(self), a) == loop_step(*old(self), event),
    {
        match event {
            LoopEvent::ReadyFinished(outcome) => {
                if self.ready || self.exiting {
                    return LoopAction::Continue;
                }
                match outcome {
                    Ok(()) => {
                        self.ready = true;
                        LoopAction::Continue
                    },
                    Err(err) => {
                        self.exiting = true;
                        self.error = Some(DesktopRuntimeError::Engine(err));
                        LoopAction::Exit
                    },
                }
            },
            LoopEvent::ShutdownFinished(outcome) => {
                let cause = match self.pending {
                    None => return LoopAction::Continue,
                    Some(c) => c,
                };
                if let Err(err) = outcome {
                    if cause == ShutdownCause::ExitRequest || self.error.is_none() {
                        self.error = Some(DesktopRuntimeError::Engine(err));
                    }
                }
                self.shutdown = true;
                self.pending = None;
                if cause == ShutdownCause::LoopExiting {
                    LoopAction::Continue
                } else {
                    self.exiting = true;
                    LoopAction::Exit
                }
            },
            LoopEvent::CloseRequested => {
                if !self.ready || self.pending.is_some() {
                    return LoopAction::Continue;
                }
                self.exit_requested = true;
                LoopAction::Continue
            },
            LoopEvent::FrameDue { escape_requested } => {
                if !self.ready || self.pending.is_some() || self.frame_running {
                    return LoopAction::Continue;
                }
                if self.exiting {
                    return LoopAction::Exit;
                }
                if self.exit_requested || escape_requested {
                    if !self.shutdown {
                        self.pending = Some(ShutdownCause::ExitRequest);
                        LoopAction::CallShutdown
                    } else {
                        self.exiting = true;
                        LoopAction::Exit
                    }
                } else {
                    self.frame_running = true;
                    LoopAction::RunFrame
                }
            },
            LoopEvent::FrameFinished(outcome) => {
                if !self.ready || self.pending.is_some() {
                    return LoopAction::Continue;
                }
                if !self.frame_running || self.exiting {
                    self.frame_running = false;
                    return LoopAction::Continue;
                }
                self.frame_running = false;
                match outcome {
                    Ok(()) => LoopAction::EndFrame,
                    Err(err) => {
                        self.error = Some(err);
                        if !self.shutdown {
                            self.pending = Some(ShutdownCause::AfterError);
                            LoopAction::CallShutdown
                        } else {
                            self.exiting = true;
                            LoopAction::Exit
                        }
                    },
                }
            },
            LoopEvent::LoopExiting => {
                if !self.ready || self.pending.is_some() {
                    return LoopAction::Continue;
                }
                self.exiting = true;
                self.frame_running = false;
                if !self.shutdown {
                    self.pending = Some(ShutdownCause::LoopExiting);
                    LoopAction::CallShutdown
                } else {
                    LoopAction::Continue
                }
            },
        }
    }

    /// The result of the run: the recorded error, if any.
    pub fn finish(self) -> (r: Result<(), DesktopRuntimeError>)
        ensures
            match self.error {
                Some(e) => r == Err::<(), DesktopRuntimeError>(e),
                None => r is Ok,
            },
    {
        match self.error {
            Some(e) => Err(e),
            None => Ok(()),
        }
    }
}

/// Where a headless run stands.
#[derive(Debug, Clone, Copy, PartialEq, Eq, Structural)]
pub enum HeadlessPhase {
    /// Nothing has run yet.
    Start,
    /// The game's `ready` or a frame's `update` was asked for.
    Running,
    /// The game's shutdown was asked for.
    ShuttingDown,
    /// The run is over.
    Done,
}

/// What the host of a headless run does next.
#[derive(Debug, PartialEq, Eq)]
pub enum HeadlessAction {
    /// Call the game's `ready`.
    CallReady,
    /// The engine ticked to `frame`: call the game's `update` with it.
    CallUpdate { frame: u64 },
    /// Call the game's `shutdown`.
    CallShutdown,
    /// The run is over with this result.
    Finish(EngineResult<()>),
}

/// A headless run of a fixed number of frames: `ready`, then for each frame
/// a tick and an `update`, then `shutdown`. The first failure ends the run
/// with that failure, without a shutdown.
#[derive(Debug, Clone, Copy, PartialEq, Eq)]
pub struct HeadlessRun {
    pub remaining: u64,
    pub phase: HeadlessPhase,
}

/// The next state, engine frame count and action of a headless run that
/// gets `outcome` for the call it asked for, at engine frame `frames`.
/// While running, a failure ends the run; otherwise the engine ticks (a
/// delta time that is not finite and non-negative ends the run with
/// `InvalidDeltaTime`) and the game updates, until no frame remains and the
/// game is shut down. The shutdown's result is the run's.
pub open spec fn headless_resume(
    run: HeadlessRun,
    frames: u64,
    delta_is_valid: bool,
    outcome: EngineResult<()>,
) -> (HeadlessRun, u64, HeadlessAction) {
    let done = HeadlessRun { phase: HeadlessPhase::Done, ..run };
    if run.phase == HeadlessPhase::ShuttingDown {
        (done, frames, HeadlessAction::Finish(outcome))
    } else {
        match outcome {
            Err(e) => (done, frames, HeadlessAction::Finish(Err(e))),
            Ok(_) => if run.remaining == 0 {
                (
                    HeadlessRun { phase: HeadlessPhase::ShuttingDown, ..run },
                    frames,
                    HeadlessAction::CallShutdown,
                )
            } else if !delta_is_valid {
                (done, frames, HeadlessAction::Finish(Err(EngineError::InvalidDeltaTime)))
            } else {
                (
                    HeadlessRun { remaining: (run.remaining - 1) as u64, ..run },
                    (frames + 1) as u64,
                    HeadlessAction::CallUpdate { frame: (frames + 1) as u64 },
                )
            },
        }
    }
}

impl HeadlessRun {
    pub fn new(run: HeadlessRunConfig) -> (h: Self)
        ensures
            h.remaining == run.frames,
            h.phase == HeadlessPhase::Start,
    {
        HeadlessRun { remaining: run.frames, phase: HeadlessPhase::Start }
    }

    /// Begins the run: the game's `ready` comes first.
    pub fn start(&mut self) -> (a: HeadlessAction)
        requires
            old(self).phase == HeadlessPhase::Start,
        ensures
            a == HeadlessAction::CallReady,
            final(self).phase == HeadlessPhase::Running,
            final(self).remaining == old(self).remaining,
    {
        self.phase = HeadlessPhase::Running;
        HeadlessAction::CallReady
    }

    /// Takes the result of the call last asked for (see `headless_resume`).
    pub fn resume(&mut self, engine: &mut Engine, delta_is_valid: bool, outcome: EngineResult<()>) -> (a:
        HeadlessAction)
        requires
            old(self).phase == HeadlessPhase::Running || old(self).phase
                == HeadlessPhase::ShuttingDown,
            (old(self).phase == HeadlessPhase::Running && outcome is Ok && old(self).remaining > 0
                && delta_is_valid) ==> old(engine).frames() < u64::MAX,
        ensures
            final(engine).spec_config() == old(engine).spec_config(),
            (*final(self), final(engine).frames(), a) == headless_resume(
                *old(self),
                old(engine).frames(),
                delta_is_valid,
                outcome,
            ),
    {
        if self.phase == HeadlessPhase::ShuttingDown {
            self.phase = HeadlessPhase::Done;
            return HeadlessAction::Finish(outcome);
        }
        if let Err(e) = outcome {
            self.phase = HeadlessPhase::Done;
            return HeadlessAction::Finish(Err(e));
        }
        if self.remaining == 0 {
            self.phase = HeadlessPhase::ShuttingDown;
            return HeadlessAction::CallShutdown;
        }
        match engine.tick(delta_is_valid) {
            Ok(frame) => {
                self.remaining = self.remaining - 1;
                HeadlessAction::CallUpdate { frame }
            },
            Err(e) => {
                self.phase = HeadlessPhase::Done;
                HeadlessAction::Finish(Err(e))
            },
        }
    }
}

} // verus!
