use vstd::prelude::*;

verus! {

/// An application: created when the platform is about to launch it, and
/// activated when the user reopens it.
pub trait App: Sized + 'static {
    fn new() -> Self;

    fn activate(&self);
}

/// What the platform reports about the application as a whole.
#[derive(Clone, Copy, Debug, PartialEq, Eq, Structural)]
pub enum AppEvent {
    WillLaunch,
    ShouldClose,
    Reopen,
}

/// The answer the platform gets to a request to terminate.
#[derive(Clone, Copy, Debug, PartialEq, Eq, Structural)]
pub enum TerminateReply {
    Cancel,
}

/// The application object across the launch, reopen and terminate requests
/// of the platform.
pub struct AppLifecycle<A> {
    app: Option<A>,
}

impl<A: App> AppLifecycle<A> {
    pub closed spec fn application(&self) -> Option<A> {
        self.app
    }

    /// Not launched yet.
    pub fn new() -> (r: Self)
        ensures
            r.application() is None,
    {
        AppLifecycle { app: None }
    }

    /// Whether the application has been launched.
    pub fn launched(&self) -> (r: bool)
        ensures
            r == self.application() is Some,
    {
        self.app.is_some()
    }

    /// Handles an application event: launching creates the application,
    /// reopening activates it, and a request to terminate is cancelled (the
    /// application stays alive until it quits by itself). Launching twice, and
    /// reopening before launching, are misuses of the platform.
    pub fn handle_event(&mut self, event: AppEvent) -> (r: Option<TerminateReply>)
        requires
            event == AppEvent::WillLaunch ==> old(self).application() is None,
            event == AppEvent::Reopen ==> old(self).application() is Some,
        ensures
            r == (if event == AppEvent::ShouldClose {
                Some(TerminateReply::Cancel)
            } else {
                None
            }),
            event == AppEvent::WillLaunch ==> final(self).application() is Some && call_ensures(
                A::new,
                (),
                final(self).application()->0,
            ),
            event == AppEvent::Reopen ==> call_ensures(
                A::activate,
                (&old(self).application()->0,),
                (),
            ),
            event != AppEvent::WillLaunch ==> final(self).application() == old(self).application(),
    {
        match event {
            AppEvent::WillLaunch => {
                self.app = Some(A::new());
                None
            },
            AppEvent::ShouldClose => Some(TerminateReply::Cancel),
            AppEvent::Reopen => {
                match &self.app {
                    Some(app) => app.activate(),
                    None => {},
                }
                None
            },
        }
    }
}

/// A loop that runs until asked to quit; the platform drives it, ticking the
/// native event loop while [`MainLoop::running`] says so.
#[derive(Debug)]
pub struct MainLoop {
    should_quit: bool,
}

impl MainLoop {
    pub closed spec fn quit_requested(&self) -> bool {
        self.should_quit
    }

    /// A loop not asked to quit.
    pub fn new() -> (r: Self)
        ensures
            !r.quit_requested(),
    {
        MainLoop { should_quit: false }
    }

    /// Asks the loop to stop after the current tick.
    pub fn quit(&mut self)
        ensures
            final(self).quit_requested(),
    {
        self.should_quit = true;
    }

    /// Whether the loop should tick once more.
    pub fn running(&self) -> (r: bool)
        ensures
            r == !self.quit_requested(),
    {
        !self.should_quit
    }
}

} // verus!
