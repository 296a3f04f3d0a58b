//! The launcher's configuration: an ordered list of task-runner profiles.

use vstd::prelude::*;

verus! {

/// One runnable command and the identity it runs under.
#[derive(Debug)]
pub struct TaskRunnerProfile {
    /// Name by which the profile is looked up.
    pub runner_type: String,
    /// Directory the command is started in.
    pub workdir: String,
    /// Path or name of the executable.
    pub command: String,
    /// Arguments that follow the command in its argument vector.
    pub args: Vec<String>,
    /// Names of the environment variables that may pass to the command on
    /// top of the baseline.
    pub allowed_env: Vec<String>,
    /// User id the command runs under.
    pub uid: u32,
    /// Group id the command runs under.
    pub gid: u32,
}

/// A profile as a mathematical value.
pub ghost struct ProfileView {
    pub runner_type: Seq<char>,
    pub workdir: Seq<char>,
    pub command: Seq<char>,
    pub args: Seq<Seq<char>>,
    pub allowed_env: Seq<Seq<char>>,
    pub uid: u32,
    pub gid: u32,
}

impl View for TaskRunnerProfile {
    type V = ProfileView;

    open spec fn view(&self) -> ProfileView {
        ProfileView {
            runner_type: self.runner_type@,
            workdir: self.workdir@,
            command: self.command@,
            args: self.args.deep_view(),
            allowed_env: self.allowed_env.deep_view(),
            uid: self.uid,
            gid: self.gid,
        }
    }
}

impl DeepView for TaskRunnerProfile {
    type V = ProfileView;

    open spec fn deep_view(&self) -> ProfileView {
        self@
    }
}

/// The configuration file's content: the profiles in the order in which
/// they were written.
#[derive(Debug)]
pub struct LauncherConfig {
    pub task_runners: Vec<TaskRunnerProfile>,
}

impl View for LauncherConfig {
    type V = Seq<ProfileView>;

    open spec fn view(&self) -> Seq<ProfileView> {
        self.task_runners.deep_view()
    }
}

impl ProfileView {
    /// The argument vector of the command: the command itself, then its
    /// arguments in order.
    pub open spec fn argument_vector(self) -> Seq<Seq<char>> {
        seq![self.command] + self.args
    }
}

/// Whether `index` is the place of the first profile named `runner_type`.
pub open spec fn is_first_match(
    profiles: Seq<ProfileView>,
    runner_type: Seq<char>,
    index: int,
) -> bool {
    &&& 0 <= index < profiles.len()
    &&& profiles[index].runner_type == runner_type
    &&& forall|earlier: int|
        0 <= earlier < index ==> (#[trigger] profiles[earlier]).runner_type != runner_type
}

/// The profile that a lookup of `runner_type` settles on: the first one in
/// the list with exactly that name, and none if no profile has it. Names
/// need not be unique; later profiles of the same name are never reached.
pub open spec fn lookup(profiles: Seq<ProfileView>, runner_type: Seq<char>) -> Option<ProfileView> {
    if exists|index: int| is_first_match(profiles, runner_type, index) {
        Some(profiles[choose|index: int| is_first_match(profiles, runner_type, index)])
    } else {
        None
    }
}

/// A lookup succeeds exactly when some profile has the name, and then it
/// yields the first such profile: the one at the least index whose
/// `runner_type` is `runner_type`.
pub proof fn lemma_lookup_finds_first(profiles: Seq<ProfileView>, runner_type: Seq<char>)
    ensures
        lookup(profiles, runner_type) is Some <==> exists|index: int|
            0 <= index < profiles.len() && (#[trigger] profiles[index]).runner_type == runner_type,
        forall|index: int|
            is_first_match(profiles, runner_type, index) ==> lookup(profiles, runner_type) == Some(
                profiles[index],
            ),
{
    assert forall|index: int| is_first_match(profiles, runner_type, index) implies lookup(
        profiles,
        runner_type,
    ) == Some(profiles[index]) by {
        let chosen = choose|chosen: int| is_first_match(profiles, runner_type, chosen);
        assert(chosen == index);
    }
    if exists|index: int|
        0 <= index < profiles.len() && (#[trigger] profiles[index]).runner_type == runner_type {
        let some = choose|index: int|
            0 <= index < profiles.len() && (#[trigger] profiles[index]).runner_type == runner_type;
        let first = least_match(profiles, runner_type, some);
        assert(is_first_match(profiles, runner_type, first));
    }
}

/// The least index at or below `bound` whose profile is named
/// `runner_type`, given that the one at `bound` is.
proof fn least_match(profiles: Seq<ProfileView>, runner_type: Seq<char>, bound: int) -> (least: int)
    requires
        0 <= bound < profiles.len(),
        profiles[bound].runner_type == runner_type,
    ensures
        is_first_match(profiles, runner_type, least),
    decreases bound,
{
    if exists|earlier: int|
        0 <= earlier < bound && (#[trigger] profiles[earlier]).runner_type == runner_type {
        let earlier = choose|earlier: int|
            0 <= earlier < bound && (#[trigger] profiles[earlier]).runner_type == runner_type;
        least_match(profiles, runner_type, earlier)
    } else {
        bound
    }
}

impl TaskRunnerProfile {
    /// A copy of this profile.
    pub fn duplicate(&self) -> (copy: TaskRunnerProfile)
        ensures
            copy@ == self@,
    {
        let args = self.args.clone();
        let allowed_env = self.allowed_env.clone();
        assert(args.deep_view() =~= self.args.deep_view());
        assert(allowed_env.deep_view() =~= self.allowed_env.deep_view());
        TaskRunnerProfile {
            runner_type: self.runner_type.clone(),
            workdir: self.workdir.clone(),
            command: self.command.clone(),
            args,
            allowed_env,
            uid: self.uid,
            gid: self.gid,
        }
    }

    /// The argument vector handed to the command: the command as argument
    /// zero, followed by the configured arguments.
    pub fn argument_vector(&self) -> (argv: Vec<String>)
        ensures
            argv.deep_view() == self@.argument_vector(),
    {
        let mut argv = self.args.clone();
        argv.insert(0, self.command.clone());
        assert(argv.deep_view() =~= self@.argument_vector());
        argv
    }
}

impl LauncherConfig {
    /// Looks up the profile named `runner_type`. The name must match
    /// exactly, and the first profile that has it wins.
    pub fn find(&self, runner_type: &String) -> (found: Option<&TaskRunnerProfile>)
        ensures
            match found {
                Some(profile) => lookup(self@, runner_type@) == Some(profile@),
                None => lookup(self@, runner_type@) is None,
            },
    {
        let mut i: usize = 0;
        while i < self.task_runners.len()
            invariant
                i <= self.task_runners.len(),
                forall|earlier: int|
                    0 <= earlier < i ==> (#[trigger] self@[earlier]).runner_type != runner_type@,
            decreases self.task_runners.len() - i,
        {
            if self.task_runners[i].runner_type == *runner_type {
                proof {
                    assert(self@[i as int] == self.task_runners[i as int]@);
                    assert(is_first_match(self@, runner_type@, i as int));
                    let chosen = choose|index: int| is_first_match(self@, runner_type@, index);
                    assert(chosen == i);
                }
                return Some(&self.task_runners[i]);
            }
            proof {
                assert(self@[i as int] == self.task_runners[i as int]@);
            }
            i += 1;
        }
        None
    }
}

} // verus!
