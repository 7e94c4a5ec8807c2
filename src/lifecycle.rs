use vstd::prelude::*;

verus! {

/// Where the stylesheet is read from, relative to the working directory.
pub const STYLE_PATH: &'static str = "assets/style.css";

/// How far the application has come in its life.
#[derive(Clone, Copy, PartialEq, Eq, Debug, Structural)]
pub enum Phase {
    /// The toolkit has not yet run the startup hook.
    Uninitialized,
    /// The startup hook ran and the stylesheet was handed to the display.
    Started,
    /// At least one window has been asked for.
    Activated,
    /// The process is on its way out: aborted, or the main loop returned.
    Terminated,
}

/// What the toolkit tells the application.
#[derive(Clone, Copy, PartialEq, Eq, Debug, Structural)]
pub enum Event {
    /// The startup hook ran; whether a default display could be opened.
    Startup { display_available: bool },
    /// The toolkit reported that the stylesheet could not be read or parsed.
    StyleError,
    /// The application was asked to present its main interface.
    Activate,
    /// The main loop returned with this exit code.
    LoopExited { code: i32 },
}

/// What the application asks the toolkit to do in answer to an event.
#[derive(Clone, Copy, PartialEq, Eq, Debug, Structural)]
pub enum Action {
    /// Load the stylesheet at `STYLE_PATH` into a style provider and register
    /// it at application priority for the default display.
    InstallStyle,
    /// Abort the process with a diagnostic: there is no display to draw on.
    AbortNoDisplay,
    /// Report the stylesheet failure and carry on with the toolkit's defaults.
    WarnStyle,
    /// Hand the application to the window builder.
    BuildWindow,
    /// End the process with this exit code.
    Exit { code: i32 },
    /// Nothing to do.
    Ignore,
}

/// The application's lifecycle state.
#[derive(Clone, Copy, Debug)]
pub struct Bootstrap {
    pub phase: Phase,
    /// A style provider was registered for the display.
    pub style_installed: bool,
    /// A stylesheet failure was reported.
    pub style_warned: bool,
    /// Start-up found no display and the process aborts.
    pub aborted: bool,
    /// The code the process exits with, once the main loop has returned.
    pub exit_code: Option<i32>,
}

impl Bootstrap {
    /// The state before the toolkit has called anything.
    pub open spec fn initial() -> Bootstrap {
        Bootstrap {
            phase: Phase::Uninitialized,
            style_installed: false,
            style_warned: false,
            aborted: false,
            exit_code: None,
        }
    }

    /// The stylesheet is in place and windows may be built.
    pub open spec fn is_live(self) -> bool {
        self.phase == Phase::Started || self.phase == Phase::Activated
    }

    /// The states that a run from `initial` can reach.
    pub open spec fn wf(self) -> bool {
        &&& self.phase == Phase::Uninitialized ==> !self.style_installed && !self.style_warned
            && !self.aborted && self.exit_code is None
        &&& self.is_live() ==> self.style_installed && !self.aborted && self.exit_code is None
        &&& self.style_warned ==> self.style_installed
        &&& self.aborted ==> self.phase == Phase::Terminated && !self.style_installed
            && self.exit_code is None
        &&& self.exit_code is Some ==> self.phase == Phase::Terminated
        &&& self.phase == Phase::Terminated ==> self.aborted || self.exit_code is Some
    }

    /// The state that follows `e`, and the action that answers it.
    ///
    /// Start-up installs the stylesheet, or aborts where there is no display;
    /// a stylesheet failure is only reported; activation builds a window once
    /// the stylesheet is in place; the loop's exit code is passed on as it is.
    /// Once terminated, nothing more happens.
    pub open spec fn next(self, e: Event) -> (Bootstrap, Action) {
        if self.phase == Phase::Terminated {
            (self, Action::Ignore)
        } else {
            match e {
                Event::Startup { display_available } => {
                    if self.phase != Phase::Uninitialized {
                        (self, Action::Ignore)
                    } else if display_available {
                        (Bootstrap { phase: Phase::Started, style_installed: true, ..self }, Action::InstallStyle)
                    } else {
                        (Bootstrap { phase: Phase::Terminated, aborted: true, ..self }, Action::AbortNoDisplay)
                    }
                },
                Event::StyleError => {
                    if self.is_live() {
                        (Bootstrap { style_warned: true, ..self }, Action::WarnStyle)
                    } else {
                        (self, Action::Ignore)
                    }
                },
                Event::Activate => {
                    if self.is_live() {
                        (Bootstrap { phase: Phase::Activated, ..self }, Action::BuildWindow)
                    } else {
                        (self, Action::Ignore)
                    }
                },
                Event::LoopExited { code } => {
                    (Bootstrap { phase: Phase::Terminated, exit_code: Some(code), ..self }, Action::Exit { code })
                },
            }
        }
    }

    /// A fresh application, before start-up.
    pub fn new() -> (r: Bootstrap)
        ensures
            r == Bootstrap::initial(),
            r.wf(),
    {
        Bootstrap {
            phase: Phase::Uninitialized,
            style_installed: false,
            style_warned: false,
            aborted: false,
            exit_code: None,
        }
    }

    /// Takes `e` into account and returns what to do about it.
    pub fn handle(&mut self, e: Event) -> (a: Action)
        ensures
            (*final(self), a) == old(self).next(e),
            old(self).wf() ==> final(self).wf(),
    {
        if self.phase == Phase::Terminated {
            return Action::Ignore;
        }
        match e {
            Event::Startup { display_available } => {
                if self.phase != Phase::Uninitialized {
                    Action::Ignore
                } else if display_available {
                    self.phase = Phase::Started;
                    self.style_installed = true;
                    Action::InstallStyle
                } else {
                    self.phase = Phase::Terminated;
                    self.aborted = true;
                    Action::AbortNoDisplay
                }
            },
            Event::StyleError => {
                if self.phase == Phase::Started || self.phase == Phase::Activated {
                    self.style_warned = true;
                    Action::WarnStyle
                } else {
                    Action::Ignore
                }
            },
            Event::Activate => {
                if self.phase == Phase::Started || self.phase == Phase::Activated {
                    self.phase = Phase::Activated;
                    Action::BuildWindow
                } else {
                    Action::Ignore
                }
            },
            Event::LoopExited { code } => {
                self.phase = Phase::Terminated;
                self.exit_code = Some(code);
                Action::Exit { code }
            },
        }
    }
}

} // verus!
