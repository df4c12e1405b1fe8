//! Opening a link with the host's default handler.
//!
//! The bridge itself starts no process. It decides which launcher the host
//! has to start and with which arguments, and it turns what the host reports
//! of that start into the answer for the interface layer.

use vstd::prelude::*;
use vstd::std_specs::cmp::PartialEqSpecImpl;

verus! {

/// The desktop-open utility of Linux.
pub const LINUX_LAUNCHER: &'static str = "xdg-open";

/// The native open utility of macOS.
pub const MACOS_LAUNCHER: &'static str = "open";

/// The command interpreter of Windows.
pub const WINDOWS_LAUNCHER: &'static str = "cmd";

/// Tells the Windows command interpreter to run what follows and then end.
pub const WINDOWS_RUN_SWITCH: &'static str = "/C";

/// The verb with which the Windows command interpreter opens a link.
pub const WINDOWS_START_VERB: &'static str = "start";

/// The platform that the bridge was built for. It is chosen once, when the
/// bridge is built, and never detected while it runs.
#[derive(Clone, Copy, Debug, PartialEq, Eq, Structural)]
pub enum Platform {
    Linux,
    MacOs,
    Windows,
}

/// A process for the host to start: the program and its arguments in order.
#[derive(Debug)]
pub struct LaunchCommand {
    pub program: String,
    pub args: Vec<String>,
}

/// What a [`LaunchCommand`] holds, as sequences of characters.
pub struct LaunchCommandView {
    pub program: Seq<char>,
    pub args: Seq<Seq<char>>,
}

impl View for LaunchCommand {
    type V = LaunchCommandView;

    open spec fn view(&self) -> LaunchCommandView {
        LaunchCommandView { program: self.program@, args: self.args.deep_view() }
    }
}

impl Clone for LaunchCommand {
    fn clone(&self) -> (copy: Self)
        ensures
            copy@ == self@,
    {
        let mut args: Vec<String> = Vec::new();
        let mut i: usize = 0;
        while i < self.args.len()
            invariant
                i <= self.args.len(),
                args.len() == i,
                forall|k: int| 0 <= k < i ==> args@[k]@ == self.args@[k]@,
            decreases self.args.len() - i,
        {
            args.push(self.args[i].clone());
            i += 1;
        }
        assert(args.deep_view() =~= self.args.deep_view());
        LaunchCommand { program: self.program.clone(), args }
    }
}

impl PartialEq for LaunchCommand {
    fn eq(&self, other: &Self) -> (same: bool) {
        if !(self.program == other.program) || self.args.len() != other.args.len() {
            assert(self.args.deep_view().len() == self.args.len());
            assert(other.args.deep_view().len() == other.args.len());
            return false;
        }
        let mut i: usize = 0;
        while i < self.args.len()
            invariant
                i <= self.args.len(),
                self.args.len() == other.args.len(),
                forall|k: int| 0 <= k < i ==> self.args@[k]@ == other.args@[k]@,
            decreases self.args.len() - i,
        {
            if !(self.args[i] == other.args[i]) {
                assert(self.args.deep_view()[i as int] != other.args.deep_view()[i as int]);
                return false;
            }
            i += 1;
        }
        assert(self.args.deep_view() =~= other.args.deep_view());
        true
    }
}

impl Eq for LaunchCommand {

}

/// Two commands are equal when they name the same program and hold the same
/// arguments in the same order.
impl PartialEqSpecImpl for LaunchCommand {
    open spec fn obeys_eq_spec() -> bool {
        true
    }

    open spec fn eq_spec(&self, other: &Self) -> bool {
        self@ == other@
    }
}

/// What the host reports once it has tried to start a launcher. Only the
/// start counts: the host neither waits for the process nor reads its exit
/// status.
#[derive(Debug)]
pub enum SpawnOutcome {
    /// The process was created.
    Launched,
    /// No process could be created; the operating system's message is kept.
    Failed(String),
}

/// The launcher that opens links on `platform`.
pub open spec fn launcher_program(platform: Platform) -> Seq<char> {
    match platform {
        Platform::Linux => LINUX_LAUNCHER@,
        Platform::MacOs => MACOS_LAUNCHER@,
        Platform::Windows => WINDOWS_LAUNCHER@,
    }
}

/// The arguments with which the launcher of `platform` opens `url`. On Linux
/// and macOS the link is the sole argument; the Windows interpreter is told
/// to start it.
pub open spec fn launcher_arguments(platform: Platform, url: Seq<char>) -> Seq<Seq<char>> {
    match platform {
        Platform::Linux => seq![url],
        Platform::MacOs => seq![url],
        Platform::Windows => seq![WINDOWS_RUN_SWITCH@, WINDOWS_START_VERB@, url],
    }
}

/// The process that opens `url` on `platform`.
pub open spec fn launch_plan(platform: Platform, url: Seq<char>) -> LaunchCommandView {
    LaunchCommandView {
        program: launcher_program(platform),
        args: launcher_arguments(platform, url),
    }
}

/// Decides how the host opens `url` with the user's default handler on
/// `platform`. The link is not inspected: whatever the caller sends, the
/// empty string included, is handed to the launcher as it is.
pub fn open_external_link(platform: Platform, url: String) -> (command: LaunchCommand)
    ensures
        command@ == launch_plan(platform, url@),
{
    let mut args: Vec<String> = Vec::new();
    let program = match platform {
        Platform::Linux => LINUX_LAUNCHER.to_string(),
        Platform::MacOs => MACOS_LAUNCHER.to_string(),
        Platform::Windows => {
            args.push(WINDOWS_RUN_SWITCH.to_string());
            args.push(WINDOWS_START_VERB.to_string());
            WINDOWS_LAUNCHER.to_string()
        },
    };
    args.push(url);
    assert(args.deep_view() =~= launcher_arguments(platform, url@));
    LaunchCommand { program, args }
}

/// The answer of the link operation, given what the host reports of the
/// start. A created process is success, whatever becomes of it afterwards; a
/// failed start is answered with the operating system's message, unchanged.
pub fn link_result(outcome: SpawnOutcome) -> (result: Result<(), String>)
    ensures
        result is Ok <==> outcome is Launched,
        outcome matches SpawnOutcome::Failed(message) ==> result == Err::<(), String>(message),
{
    match outcome {
        SpawnOutcome::Launched => Ok(()),
        SpawnOutcome::Failed(message) => Err(message),
    }
}

/// Every link is dispatched as it was sent. On each platform and for each
/// link, the empty one included, there is a launcher to start, and the last
/// argument it gets is the link itself.
pub proof fn lemma_link_is_passed_through(platform: Platform, url: Seq<char>)
    ensures
        launch_plan(platform, url).program.len() > 0,
        launch_plan(platform, url).args.len() > 0,
        launch_plan(platform, url).args.last() == url,
{
    reveal_strlit("xdg-open");
    reveal_strlit("open");
    reveal_strlit("cmd");
}

/// Off Windows the link is the launcher's sole argument.
pub proof fn lemma_link_is_sole_argument(platform: Platform, url: Seq<char>)
    requires
        platform != Platform::Windows,
    ensures
        launch_plan(platform, url).args == seq![url],
{
}

/// The launcher depends on the platform alone, and no two platforms share
/// one: a command tells which platform it was planned for.
pub proof fn lemma_launcher_tells_platform(
    first: Platform,
    first_url: Seq<char>,
    second: Platform,
    second_url: Seq<char>,
)
    ensures
        launch_plan(first, first_url).program == launch_plan(second, second_url).program <==> first
            == second,
{
    reveal_strlit("xdg-open");
    reveal_strlit("open");
    reveal_strlit("cmd");
    assert(LINUX_LAUNCHER@.len() == 8);
    assert(MACOS_LAUNCHER@.len() == 4);
    assert(WINDOWS_LAUNCHER@.len() == 3);
}

} // verus!
