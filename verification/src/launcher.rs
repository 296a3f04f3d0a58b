//! One run of the launcher, from the resolved profile to the command or the
//! signal.
//!
//! A [`Launcher`] takes every decision of the run and performs none of its
//! effects. The caller asks for the pending [`Step`], carries it out, and
//! reports the [`Event`] that came of it. The run first takes on the
//! expected root identity, which shows that the launcher was started with
//! enough privilege, then drops to the profile's identity, and only then
//! acts. The first failure ends the run: nothing is retried and nothing
//! leads back.

use crate::config::{lookup, LauncherConfig, ProfileView, TaskRunnerProfile};
use crate::environment::{child_environment, filter_environment, Variables};
use crate::identity::{IdentityError, Progress, Reply, Request, Transition};
use vstd::prelude::*;

verus! {

/// What the launcher was asked to do under the profile's identity.
#[derive(Clone, Copy, Debug, PartialEq, Eq, Structural)]
pub enum Action {
    /// Replace the launcher by the profile's command.
    Launch,
    /// Send the termination signal to the process `pid`.
    Kill { pid: i32 },
}

/// Why a run ended without the command running or the signal sent.
#[derive(Clone, Copy, Debug, PartialEq, Eq, Structural)]
pub enum LaunchError {
    /// No profile has the requested name.
    UnknownRunnerType,
    /// The change of identity did not take effect.
    Identity(IdentityError),
    /// The working directory could not be entered.
    WorkdirUnavailable { errno: i32 },
    /// The command could not be executed.
    ExecFailed { errno: i32 },
    /// The signal could not be delivered.
    SignalFailed { errno: i32 },
    /// The event does not answer the step that was pending.
    UnexpectedEvent,
}

/// Where a run stands.
#[derive(Clone, Copy, Debug, PartialEq, Eq, Structural)]
pub enum Stage {
    /// Taking on the expected root identity.
    Elevating(Transition),
    /// Dropping to the profile's identity.
    Dropping(Transition),
    /// About to enter the profile's working directory.
    EnteringWorkdir,
    /// About to read the launcher's own environment.
    ReadingEnvironment,
    /// About to replace the process image. A run that succeeds never leaves
    /// this stage: the launcher is gone.
    Executing,
    /// About to send the termination signal.
    Signalling,
    /// The signal was delivered.
    Finished,
    /// The run was given up.
    Failed(LaunchError),
}

/// The state of one run.
#[derive(Debug)]
pub struct Launcher {
    /// The profile the run was resolved to.
    pub profile: TaskRunnerProfile,
    /// What to do once the identity is dropped.
    pub action: Action,
    /// Whether each change of identity is read back and compared.
    pub strict: bool,
    /// Current stage.
    pub stage: Stage,
    /// Environment of the command; empty until the launcher's own
    /// environment has been read.
    pub child_env: Vec<String>,
}

/// What the caller has to do next.
#[derive(Debug, PartialEq, Eq)]
pub enum Step {
    /// Serve this request of the identity transition.
    Identity(Request),
    /// Make this directory the working directory.
    ChangeDirectory(String),
    /// Report the launcher's environment.
    ReadEnvironment,
    /// Replace the process image by `command`, with the argument vector
    /// `argv` and the environment `env`. Only a failure is ever reported.
    Execute { command: String, argv: Vec<String>, env: Vec<String> },
    /// Send the termination signal to this process.
    Signal(i32),
    /// Leave with success.
    Exit,
    /// Report this error and leave with a failure status.
    Abort(LaunchError),
}

/// What the caller reports back.
#[derive(Debug, PartialEq, Eq)]
pub enum Event {
    /// The answer to a request of the identity transition.
    Identity(Reply),
    /// The step succeeded.
    Done,
    /// The step failed with this error number.
    Failed(i32),
    /// The launcher's environment: name and value of each variable.
    Environment(Vec<(String, String)>),
}

/// A run as a mathematical value.
pub ghost struct LauncherView {
    pub profile: ProfileView,
    pub action: Action,
    pub strict: bool,
    pub stage: Stage,
    pub child_env: Seq<Seq<char>>,
}

/// A step as a mathematical value.
pub ghost enum StepView {
    Identity(Request),
    ChangeDirectory(Seq<char>),
    ReadEnvironment,
    Execute { command: Seq<char>, argv: Seq<Seq<char>>, env: Seq<Seq<char>> },
    Signal(i32),
    Exit,
    Abort(LaunchError),
}

/// An event as a mathematical value.
pub ghost enum EventView {
    Identity(Reply),
    Done,
    Failed(i32),
    Environment(Variables),
}

impl View for Launcher {
    type V = LauncherView;

    open spec fn view(&self) -> LauncherView {
        LauncherView {
            profile: self.profile@,
            action: self.action,
            strict: self.strict,
            stage: self.stage,
            child_env: self.child_env.deep_view(),
        }
    }
}

impl View for Step {
    type V = StepView;

    open spec fn view(&self) -> StepView {
        match self {
            Step::Identity(request) => StepView::Identity(*request),
            Step::ChangeDirectory(workdir) => StepView::ChangeDirectory(workdir@),
            Step::ReadEnvironment => StepView::ReadEnvironment,
            Step::Execute { command, argv, env } => StepView::Execute {
                command: command@,
                argv: argv.deep_view(),
                env: env.deep_view(),
            },
            Step::Signal(pid) => StepView::Signal(*pid),
            Step::Exit => StepView::Exit,
            Step::Abort(error) => StepView::Abort(*error),
        }
    }
}

impl View for Event {
    type V = EventView;

    open spec fn view(&self) -> EventView {
        match self {
            Event::Identity(reply) => EventView::Identity(*reply),
            Event::Done => EventView::Done,
            Event::Failed(errno) => EventView::Failed(*errno),
            Event::Environment(variables) => EventView::Environment(variables.deep_view()),
        }
    }
}

impl LauncherView {
    /// A run at its beginning: nothing has been done, and the first thing to
    /// do is to take on the identity `root_uid`, `root_gid`.
    pub open spec fn start(
        profile: ProfileView,
        action: Action,
        strict: bool,
        root_uid: u32,
        root_gid: u32,
    ) -> LauncherView {
        LauncherView {
            profile,
            action,
            strict,
            stage: Stage::Elevating(Transition::initial(root_uid, root_gid, strict)),
            child_env: Seq::empty(),
        }
    }

    /// The stage that follows once the elevation has come to `transition`.
    /// A settled elevation is followed by the drop to the profile's
    /// identity.
    pub open spec fn elevated(self, transition: Transition) -> Stage {
        match transition.progress {
            Progress::Settled => Stage::Dropping(
                Transition::initial(self.profile.uid, self.profile.gid, self.strict),
            ),
            Progress::Rejected(error) => Stage::Failed(LaunchError::Identity(error)),
            _ => Stage::Elevating(transition),
        }
    }

    /// The stage that follows once the drop has come to `transition`. A
    /// settled drop is followed by the action itself.
    pub open spec fn dropped(self, transition: Transition) -> Stage {
        match transition.progress {
            Progress::Settled => match self.action {
                Action::Launch => Stage::EnteringWorkdir,
                Action::Kill { .. } => Stage::Signalling,
            },
            Progress::Rejected(error) => Stage::Failed(LaunchError::Identity(error)),
            _ => Stage::Dropping(transition),
        }
    }

    /// The pending step.
    pub open spec fn step(self) -> StepView {
        match self.stage {
            Stage::Elevating(transition) | Stage::Dropping(transition) => match transition.request() {
                Some(request) => StepView::Identity(request),
                None => StepView::Abort(LaunchError::UnexpectedEvent),
            },
            Stage::EnteringWorkdir => StepView::ChangeDirectory(self.profile.workdir),
            Stage::ReadingEnvironment => StepView::ReadEnvironment,
            Stage::Executing => StepView::Execute {
                command: self.profile.command,
                argv: self.profile.argument_vector(),
                env: self.child_env,
            },
            Stage::Signalling => match self.action {
                Action::Kill { pid } => StepView::Signal(pid),
                Action::Launch => StepView::Abort(LaunchError::UnexpectedEvent),
            },
            Stage::Finished => StepView::Exit,
            Stage::Failed(error) => StepView::Abort(error),
        }
    }

    /// The run with its stage replaced.
    pub open spec fn at(self, stage: Stage) -> LauncherView {
        LauncherView { stage, ..self }
    }

    /// The state that follows when the pending step is answered by `event`.
    ///
    /// Any failure ends the run with the matching error, and so does an
    /// event that does not answer the pending step. The environment of the
    /// command is fixed when the launcher's own environment arrives. A
    /// finished or failed run stays as it is.
    pub open spec fn next(self, event: EventView) -> LauncherView {
        match self.stage {
            Stage::Elevating(transition) => match event {
                EventView::Identity(reply) => self.at(self.elevated(transition.next(reply))),
                _ => self.at(Stage::Failed(LaunchError::UnexpectedEvent)),
            },
            Stage::Dropping(transition) => match event {
                EventView::Identity(reply) => self.at(self.dropped(transition.next(reply))),
                _ => self.at(Stage::Failed(LaunchError::UnexpectedEvent)),
            },
            Stage::EnteringWorkdir => match event {
                EventView::Done => self.at(Stage::ReadingEnvironment),
                EventView::Failed(errno) => self.at(
                    Stage::Failed(LaunchError::WorkdirUnavailable { errno }),
                ),
                _ => self.at(Stage::Failed(LaunchError::UnexpectedEvent)),
            },
            Stage::ReadingEnvironment => match event {
                EventView::Environment(current) => LauncherView {
                    stage: Stage::Executing,
                    child_env: child_environment(current, self.profile.allowed_env),
                    ..self
                },
                _ => self.at(Stage::Failed(LaunchError::UnexpectedEvent)),
            },
            Stage::Executing => match event {
                EventView::Failed(errno) => self.at(Stage::Failed(LaunchError::ExecFailed { errno })),
                _ => self.at(Stage::Failed(LaunchError::UnexpectedEvent)),
            },
            Stage::Signalling => match event {
                EventView::Done => self.at(Stage::Finished),
                EventView::Failed(errno) => self.at(
                    Stage::Failed(LaunchError::SignalFailed { errno }),
                ),
                _ => self.at(Stage::Failed(LaunchError::UnexpectedEvent)),
            },
            Stage::Finished | Stage::Failed(_) => self,
        }
    }
}

impl Launcher {
    /// Begins a run for `profile`. The run first takes on the identity
    /// `root_uid`, `root_gid`.
    pub fn start(
        profile: TaskRunnerProfile,
        action: Action,
        strict: bool,
        root_uid: u32,
        root_gid: u32,
    ) -> (launcher: Launcher)
        ensures
            launcher@ == LauncherView::start(profile@, action, strict, root_uid, root_gid),
    {
        let launcher = Launcher {
            profile,
            action,
            strict,
            stage: Stage::Elevating(Transition::new(root_uid, root_gid, strict)),
            child_env: Vec::new(),
        };
        assert(launcher.child_env.deep_view() =~= Seq::empty());
        launcher
    }

    /// Looks up `runner_type` in `config` and begins a run for the profile
    /// found. An unknown name is an error, and then there is no run: no step
    /// is ever asked for.
    pub fn resolve(
        config: &LauncherConfig,
        runner_type: &String,
        action: Action,
        strict: bool,
        root_uid: u32,
        root_gid: u32,
    ) -> (resolved: Result<Launcher, LaunchError>)
        ensures
            match lookup(config@, runner_type@) {
                Some(profile) => resolved is Ok && resolved->Ok_0@ == LauncherView::start(
                    profile,
                    action,
                    strict,
                    root_uid,
                    root_gid,
                ),
                None => resolved == Err::<Launcher, LaunchError>(LaunchError::UnknownRunnerType),
            },
    {
        match config.find(runner_type) {
            Some(profile) => Ok(
                Launcher::start(profile.duplicate(), action, strict, root_uid, root_gid),
            ),
            None => Err(LaunchError::UnknownRunnerType),
        }
    }

    /// What the caller has to do next.
    pub fn pending(&self) -> (step: Step)
        ensures
            step@ == self@.step(),
    {
        match self.stage {
            Stage::Elevating(transition) | Stage::Dropping(transition) => match transition.pending() {
                Some(request) => Step::Identity(request),
                None => Step::Abort(LaunchError::UnexpectedEvent),
            },
            Stage::EnteringWorkdir => Step::ChangeDirectory(self.profile.workdir.clone()),
            Stage::ReadingEnvironment => Step::ReadEnvironment,
            Stage::Executing => {
                let env = self.child_env.clone();
                assert(env.deep_view() =~= self.child_env.deep_view());
                Step::Execute {
                    command: self.profile.command.clone(),
                    argv: self.profile.argument_vector(),
                    env,
                }
            },
            Stage::Signalling => match self.action {
                Action::Kill { pid } => Step::Signal(pid),
                Action::Launch => Step::Abort(LaunchError::UnexpectedEvent),
            },
            Stage::Finished => Step::Exit,
            Stage::Failed(error) => Step::Abort(error),
        }
    }

    /// The stage after the elevation has come to `transition`.
    fn after_elevation(&self, transition: Transition) -> (stage: Stage)
        ensures
            stage == self@.elevated(transition),
    {
        match transition.progress {
            Progress::Settled => Stage::Dropping(
                Transition::new(self.profile.uid, self.profile.gid, self.strict),
            ),
            Progress::Rejected(error) => Stage::Failed(LaunchError::Identity(error)),
            _ => Stage::Elevating(transition),
        }
    }

    /// The stage after the drop has come to `transition`.
    fn after_drop(&self, transition: Transition) -> (stage: Stage)
        ensures
            stage == self@.dropped(transition),
    {
        match transition.progress {
            Progress::Settled => match self.action {
                Action::Launch => Stage::EnteringWorkdir,
                Action::Kill { .. } => Stage::Signalling,
            },
            Progress::Rejected(error) => Stage::Failed(LaunchError::Identity(error)),
            _ => Stage::Dropping(transition),
        }
    }

    /// Takes the outcome of the pending step and moves on.
    pub fn advance(self, event: Event) -> (following: Launcher)
        ensures
            following@ == self@.next(event@),
    {
        let unexpected = Stage::Failed(LaunchError::UnexpectedEvent);
        let mut following = self;
        match following.stage {
            Stage::Elevating(transition) => {
                following.stage = match event {
                    Event::Identity(reply) => following.after_elevation(transition.advance(reply)),
                    _ => unexpected,
                };
            },
            Stage::Dropping(transition) => {
                following.stage = match event {
                    Event::Identity(reply) => following.after_drop(transition.advance(reply)),
                    _ => unexpected,
                };
            },
            Stage::EnteringWorkdir => {
                following.stage = match event {
                    Event::Done => Stage::ReadingEnvironment,
                    Event::Failed(errno) => Stage::Failed(LaunchError::WorkdirUnavailable { errno }),
                    _ => unexpected,
                };
            },
            Stage::ReadingEnvironment => {
                match event {
                    Event::Environment(current) => {
                        following.child_env = filter_environment(
                            &current,
                            &following.profile.allowed_env,
                        );
                        following.stage = Stage::Executing;
                    },
                    _ => {
                        following.stage = unexpected;
                    },
                }
            },
            Stage::Executing => {
                following.stage = match event {
                    Event::Failed(errno) => Stage::Failed(LaunchError::ExecFailed { errno }),
                    _ => unexpected,
                };
            },
            Stage::Signalling => {
                following.stage = match event {
                    Event::Done => Stage::Finished,
                    Event::Failed(errno) => Stage::Failed(LaunchError::SignalFailed { errno }),
                    _ => unexpected,
                };
            },
            Stage::Finished => {},
            Stage::Failed(_) => {},
        }
        following
    }
}

} // verus!
