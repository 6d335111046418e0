use vstd::prelude::*;

use crate::artifact::ExecutableArtifact;
use crate::meta::{opt_title_view, strings_view};
use crate::stages::{title_for, BuildContext};
use crate::title_id::TitleId;
use crate::upload::ConnectionArgs;

verus! {

/// The line sent to the device's command listener for a command.
pub open spec fn command_line(cmd: Seq<char>) -> Seq<char> {
    cmd + "\n"@
}

pub fn control_line(cmd: &str) -> (r: String)
    ensures
        r@ == command_line(cmd@),
{
    let mut line = String::from_str(cmd);
    line.append("\n");
    line
}

/// The command that starts a title.
pub open spec fn launch_command(title: Seq<char>) -> Seq<char> {
    "launch "@ + title
}

/// No title id was given, nor configured for the package.
#[derive(Clone, Copy, Debug, PartialEq, Eq, Structural)]
pub struct NoTitleId;

/// Starts an installed title on the device.
#[derive(Debug)]
pub struct Run {
    pub title_id: Option<TitleId>,
    pub connection: ConnectionArgs,
}

impl Run {
    /// The commands to send, in order: stop the running app, then launch
    /// the title given, else the one configured for the package.
    pub fn commands(&self, configured: Option<TitleId>) -> (r: Result<Vec<String>, NoTitleId>)
        ensures
            match opt_title_view(self.title_id) {
                Some(t) => r matches Ok(v) && strings_view(v@) == seq![
                    "destroy"@,
                    launch_command(t),
                ],
                None => match opt_title_view(configured) {
                    Some(t) => r matches Ok(v) && strings_view(v@) == seq![
                        "destroy"@,
                        launch_command(t),
                    ],
                    None => r is Err,
                },
            },
    {
        let title = match &self.title_id {
            Some(t) => t.clone(),
            None => match configured {
                Some(t) => t,
                None => {
                    return Err(NoTitleId);
                },
            },
        };
        let mut launch = String::from_str("launch ");
        launch.append(title.as_str());
        let mut v: Vec<String> = Vec::new();
        v.push(String::from_str("destroy"));
        v.push(launch);
        assert(strings_view(v@) =~= seq!["destroy"@, launch_command(title@)]);
        Ok(v)
    }
}

/// Reboots the device.
#[derive(Debug)]
pub struct Reboot {
    pub connection: ConnectionArgs,
}

impl Reboot {
    pub fn command(&self) -> (r: String)
        ensures
            r@ == "reboot"@,
    {
        String::from_str("reboot")
    }
}

/// The title to start after a build: that of the last artifact in the
/// list, if it has one.
pub fn run_title(ctx: &BuildContext, artifacts: &Vec<ExecutableArtifact>) -> (r: Option<TitleId>)
    ensures
        artifacts@.len() == 0 ==> r is None,
        artifacts@.len() > 0 ==> opt_title_view(r) == title_for(
            artifacts@.last().meta@,
            opt_title_view(ctx.default_title_id),
        ),
{
    let n = artifacts.len();
    if n == 0 {
        None
    } else {
        ctx.title_id(&artifacts[n - 1])
    }
}

/// The state of a sequence of commands: the commands in order, how many
/// were sent successfully, and whether the one after those failed.
pub struct CommandsView {
    pub commands: Seq<Seq<char>>,
    pub sent: nat,
    pub failed: bool,
}

/// The command to send next, if the sequence goes on.
pub open spec fn next_command(v: CommandsView) -> Option<Seq<char>> {
    if !v.failed && v.sent < v.commands.len() {
        Some(v.commands[v.sent as int])
    } else {
        None
    }
}

/// Sends commands in order and stops at the first one that fails.
#[derive(Debug)]
pub struct CommandSequence {
    commands: Vec<String>,
    sent: usize,
    failed: bool,
}

impl View for CommandSequence {
    type V = CommandsView;

    closed spec fn view(&self) -> CommandsView {
        CommandsView { commands: strings_view(self.commands@), sent: self.sent as nat, failed: self.failed }
    }
}

impl CommandSequence {
    #[verifier::type_invariant]
    spec fn inv(self) -> bool {
        &&& self.sent <= self.commands@.len()
        &&& self.failed ==> self.sent < self.commands@.len()
    }

    pub fn new(commands: Vec<String>) -> (r: CommandSequence)
        ensures
            r@ == (CommandsView { commands: strings_view(commands@), sent: 0, failed: false }),
    {
        CommandSequence { commands, sent: 0, failed: false }
    }

    /// The command to send next; `None` once all are sent or one failed.
    pub fn next(&self) -> (r: Option<String>)
        ensures
            match r {
                Some(c) => next_command(self@) == Some(c@),
                None => next_command(self@) is None,
            },
    {
        proof {
            use_type_invariant(self);
        }
        if !self.failed && self.sent < self.commands.len() {
            Some(self.commands[self.sent].clone())
        } else {
            None
        }
    }

    /// Records whether the command handed out by `next` was sent.
    pub fn record(&mut self, ok: bool)
        requires
            next_command(old(self)@) is Some,
        ensures
            ok ==> final(self)@ == (CommandsView { sent: old(self)@.sent + 1, ..old(self)@ }),
            !ok ==> final(self)@ == (CommandsView { failed: true, ..old(self)@ }),
    {
        proof {
            use_type_invariant(&*self);
        }
        let n = self.commands.len();
        assert(self.sent < n);
        if ok {
            self.sent = self.sent + 1;
        } else {
            self.failed = true;
        }
    }

    /// Whether a command failed.
    pub fn has_failed(&self) -> (r: bool)
        ensures
            r == self@.failed,
    {
        self.failed
    }
}

} // verus!
