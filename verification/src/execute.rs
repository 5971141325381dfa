//! Carrying out a command: what each built-in does, how an external program
//! is run, and what is reported of either.
//!
//! Nothing is kept between commands or between steps but what the steps
//! themselves hold, so whatever the host reports is what the system held at
//! that moment.

use crate::command::{classify, BuiltinCommand, Command, CommandView};
use crate::home::home_dir;
use crate::lookup::{look_up, probed, searched};
use crate::number::{
    decimal, decimal_text, lemma_parse_of_decimal_text, parse_decimal, parse_i32,
};
use crate::path::{lemma_parent, lemma_root_has_no_names, parent, resolve, resolved};
use crate::search::{is_literal_path, literal_path};
use crate::step::{
    DirChange, DirChangeView, DirQuery, DirQueryView, Goal, GoalView, Launch, LookupView, Outcome,
    OutcomeView, ProbeView, Report, ReportView, Step, StepView,
};
use crate::text::{copy_all, glue, join, join_with, same_text};
use crate::token::tokens;
use vstd::prelude::*;

verus! {

/// The exit code that the arguments of `exit` ask for: the integer written in
/// the first, and zero where there is none or it is no such integer.
pub open spec fn exit_code(args: Seq<Seq<char>>) -> i32 {
    if args.len() == 0 {
        0
    } else {
        match parse_decimal(args[0]) {
            Some(code) => code,
            None => 0,
        }
    }
}

/// The line that `echo` writes: its arguments with one space between
/// neighbours, and a line end.
pub open spec fn echo_line(args: Seq<Seq<char>>) -> Seq<char> {
    join(args, " "@) + "\n"@
}

/// The directory that `cd ~` leads to: the home directory, or the root where
/// there is none to be had.
pub open spec fn home_target(home: Option<Seq<char>>) -> Seq<char> {
    match home {
        Some(dir) => dir,
        None => "/"@,
    }
}

/// The step after the working directory was read, or could not be, with the
/// system's message.  `pwd` prints the directory or complains; `cd` resolves
/// its path against the directory, or against the root where it is unknown.
pub open spec fn located(query: DirQueryView, reply: Result<Seq<char>, Seq<char>>) -> StepView {
    match query {
        DirQueryView::Print => match reply {
            Ok(dir) => StepView::Done(ReportView::Stdout(dir + "\n"@)),
            Err(message) => StepView::Done(
                ReportView::Stderr("pwd: failed to get current directory: "@ + message + "\n"@),
            ),
        },
        DirQueryView::Change(arg) => StepView::ChangeDir(
            DirChangeView {
                arg,
                target: resolved(
                    match reply {
                        Ok(dir) => dir,
                        Err(_) => "/"@,
                    },
                    arg,
                ),
            },
        ),
    }
}

/// The step after the working directory was changed, or could not be.
pub open spec fn changed(change: DirChangeView, done: bool) -> StepView {
    if done {
        StepView::Done(ReportView::Silent)
    } else {
        StepView::Done(ReportView::Stderr(change.arg + ": No such file or directory\n"@))
    }
}

/// The report on a program that was run: silence after exit status zero, a
/// complaint after any other end.
pub open spec fn reported(name: Seq<char>, outcome: OutcomeView) -> ReportView {
    match outcome {
        OutcomeView::Failed(message) => ReportView::Stderr(
            name + ": failed to execute command: "@ + message + "\n"@,
        ),
        OutcomeView::Exited(status) => if status == 0 {
            ReportView::Silent
        } else {
            ReportView::Stderr(
                name + ": command exited with status code "@ + decimal_text(status as int) + "\n"@,
            )
        },
        OutcomeView::Signaled => ReportView::Stderr(name + ": command terminated by signal\n"@),
    }
}

/// Whether the command is `cd ~`, the one command that needs the home
/// directory.
pub open spec fn goes_home(command: CommandView) -> bool {
    command matches CommandView::Builtin(BuiltinCommand::Cd, args) && args.len() > 0 && args[0]
        == "~"@
}

/// The first step of a command.  `home` is the home directory, which only
/// `cd ~` looks at.
pub open spec fn begun(command: CommandView, home: Option<Seq<char>>) -> StepView {
    match command {
        CommandView::Builtin(BuiltinCommand::Exit, args) => StepView::Exit(exit_code(args)),
        CommandView::Builtin(BuiltinCommand::Echo, args) => StepView::Done(
            ReportView::Stdout(echo_line(args)),
        ),
        CommandView::Builtin(BuiltinCommand::Type, args) => if args.len() == 0 {
            StepView::Done(ReportView::Stderr("type: missing argument\n"@))
        } else if BuiltinCommand::named(args[0]) is Some {
            StepView::Done(ReportView::Stdout(args[0] + " is a shell builtin\n"@))
        } else {
            look_up(args[0], GoalView::Describe)
        },
        CommandView::Builtin(BuiltinCommand::Pwd, _) => StepView::WorkingDir(DirQueryView::Print),
        CommandView::Builtin(BuiltinCommand::Cd, args) => if args.len() == 0 {
            StepView::Done(ReportView::Stderr("cd: missing argument\n"@))
        } else if args[0] == "~"@ {
            StepView::ChangeDir(DirChangeView { arg: args[0], target: home_target(home) })
        } else if is_literal_path(args[0]) {
            StepView::ChangeDir(DirChangeView { arg: args[0], target: args[0] })
        } else {
            StepView::WorkingDir(DirQueryView::Change(args[0]))
        },
        CommandView::External(name, args) => look_up(name, GoalView::Run(args)),
    }
}

/// The change of directory that `cd ..` leads to from the directory `base`.
pub open spec fn change_to_parent(base: Seq<char>) -> StepView {
    StepView::ChangeDir(DirChangeView { arg: ".."@, target: parent(base) })
}

/// `cd ..` asks for the working directory and then changes to the directory
/// above it, which for the root is the root again.
pub proof fn lemma_cd_parent(base: Seq<char>, home: Option<Seq<char>>)
    ensures
        begun(CommandView::Builtin(BuiltinCommand::Cd, seq![".."@]), home) == StepView::WorkingDir(
            DirQueryView::Change(".."@),
        ),
        located(DirQueryView::Change(".."@), Ok(base)) == change_to_parent(base),
        parent("/"@) == "/"@,
{
    reveal_strlit("..");
    reveal_strlit("~");
    reveal_strlit("/");
    lemma_parent(base);
    lemma_root_has_no_names();
}

/// A line whose first token is `echo` writes its other tokens with one space
/// between neighbours, however much white space parted them in the line.
pub proof fn lemma_echo_writes_its_arguments(line: Seq<char>, home: Option<Seq<char>>)
    requires
        tokens(line).len() > 0,
        tokens(line)[0] == "echo"@,
    ensures
        begun(classify(tokens(line)), home) == StepView::Done(
            ReportView::Stdout(join(tokens(line).skip(1), " "@) + "\n"@),
        ),
{
    BuiltinCommand::Echo.lemma_named_word();
}

/// `exit` followed by a number in decimal notation ends the interpreter with
/// that number as its exit code, whatever else follows.
pub proof fn lemma_exit_with_code(code: i32, more: Seq<Seq<char>>, home: Option<Seq<char>>)
    ensures
        begun(
            CommandView::Builtin(BuiltinCommand::Exit, seq![decimal_text(code as int)] + more),
            home,
        ) == StepView::Exit(code),
        begun(CommandView::Builtin(BuiltinCommand::Exit, Seq::empty()), home) == StepView::Exit(0),
{
    lemma_parse_of_decimal_text(code);
}

/// Whether a step can lead to running a program: it is a launch, or a lookup
/// made in order to run what is found.
pub open spec fn may_run(step: StepView) -> bool {
    match step {
        StepView::Spawn(_) => true,
        StepView::SearchList(lookup) => lookup.goal is Run,
        StepView::Probe(probe) => probe.goal is Run,
        _ => false,
    }
}

/// A built-in never runs a program: its first step cannot lead to a launch,
/// and neither can any step that follows one that cannot.
pub proof fn lemma_builtins_run_nothing(
    kind: BuiltinCommand,
    args: Seq<Seq<char>>,
    home: Option<Seq<char>>,
)
    ensures
        !may_run(begun(CommandView::Builtin(kind, args), home)),
        forall|lookup: LookupView, list: Option<Seq<char>>|
            !may_run(StepView::SearchList(lookup)) ==> !may_run(#[trigger] searched(lookup, list)),
        forall|probe: ProbeView, present: bool|
            !may_run(StepView::Probe(probe)) ==> !may_run(#[trigger] probed(probe, present)),
        forall|query: DirQueryView, reply: Result<Seq<char>, Seq<char>>|
            !may_run(#[trigger] located(query, reply)),
        forall|change: DirChangeView, done: bool| !may_run(#[trigger] changed(change, done)),
{
}

/// The interpreter ends only by `exit`: no other command begins with that
/// step, and no step leads to it.
pub proof fn lemma_only_exit_exits(command: CommandView, home: Option<Seq<char>>)
    ensures
        begun(command, home) is Exit <==> command matches CommandView::Builtin(
            BuiltinCommand::Exit,
            _,
        ),
        forall|lookup: LookupView, list: Option<Seq<char>>|
            !(#[trigger] searched(lookup, list) is Exit),
        forall|probe: ProbeView, present: bool| !(#[trigger] probed(probe, present) is Exit),
        forall|query: DirQueryView, reply: Result<Seq<char>, Seq<char>>|
            !(#[trigger] located(query, reply) is Exit),
        forall|change: DirChangeView, done: bool| !(#[trigger] changed(change, done) is Exit),
{
}

/// What the host reports of the working directory, as plain text.
pub open spec fn reply_view(reply: Result<String, String>) -> Result<Seq<char>, Seq<char>> {
    match reply {
        Ok(dir) => Ok(dir@),
        Err(message) => Err(message@),
    }
}

/// Only `cd ~` depends on the home directory.
pub proof fn lemma_home_matters_to_cd_home_only(
    command: CommandView,
    home: Option<Seq<char>>,
    other: Option<Seq<char>>,
)
    requires
        !goes_home(command),
    ensures
        begun(command, home) == begun(command, other),
{
}

/// The exit code that the arguments of `exit` ask for.
pub fn exit_code_of(args: &Vec<String>) -> (code: i32)
    ensures
        code == exit_code(args.deep_view()),
{
    if args.len() == 0 {
        0
    } else {
        match parse_i32(args[0].as_str()) {
            Some(code) => code,
            None => 0,
        }
    }
}

/// The line that `echo` writes for its arguments.
pub fn echo(args: &Vec<String>) -> (line: String)
    ensures
        line@ == echo_line(args.deep_view()),
{
    let mut line = join_with(args, " ");
    line.append("\n");
    line
}

/// The directory that `cd ~` leads to, given the home directory.
pub fn home_or_root(home: Option<String>) -> (target: String)
    ensures
        target@ == home_target(home.deep_view()),
{
    match home {
        Some(dir) => dir,
        None => "/".to_owned(),
    }
}

/// The report on a program that was run under `name`.
pub fn report(name: &str, outcome: &Outcome) -> (report: Report)
    ensures
        report@ == reported(name@, outcome@),
{
    match outcome {
        Outcome::Failed(message) => {
            let mut line = glue(name, ": failed to execute command: ");
            line.append(message.as_str());
            line.append("\n");
            Report::Stderr(line)
        },
        Outcome::Exited(status) => {
            if *status == 0 {
                Report::Silent
            } else {
                let mut line = glue(name, ": command exited with status code ");
                line.append(decimal(*status).as_str());
                line.append("\n");
                Report::Stderr(line)
            }
        },
        Outcome::Signaled => Report::Stderr(glue(name, ": command terminated by signal\n")),
    }
}

impl DirQuery {
    /// Goes on after the host read the working directory: `Ok` with its
    /// path, `Err` with the system's message where it could not be read.
    pub fn answer(self, reply: Result<String, String>) -> (step: Step)
        ensures
            step@ == located(self@, reply_view(reply)),
    {
        match self {
            DirQuery::Print => match reply {
                Ok(dir) => {
                    let mut line = dir;
                    line.append("\n");
                    Step::Done(Report::Stdout(line))
                },
                Err(message) => {
                    let mut line = glue("pwd: failed to get current directory: ", message.as_str());
                    line.append("\n");
                    Step::Done(Report::Stderr(line))
                },
            },
            DirQuery::Change(arg) => {
                let target = match reply {
                    Ok(dir) => resolve(dir.as_str(), arg.as_str()),
                    Err(_) => resolve("/", arg.as_str()),
                };
                Step::ChangeDir(DirChange { arg, target })
            },
        }
    }
}

impl DirChange {
    /// Goes on after the host tried to make `self.target` the working
    /// directory.
    pub fn answer(self, done: bool) -> (step: Step)
        ensures
            step@ == changed(self@, done),
    {
        if done {
            Step::Done(Report::Silent)
        } else {
            Step::Done(Report::Stderr(glue(self.arg.as_str(), ": No such file or directory\n")))
        }
    }
}

impl Launch {
    /// Goes on after the program ended or failed to start: the command is
    /// over, whatever happened.
    pub fn answer(self, outcome: Outcome) -> (step: Step)
        ensures
            step@ == StepView::Done(reported(self@.name, outcome@)),
    {
        Step::Done(report(self.name.as_str(), &outcome))
    }
}

impl Command {
    /// Whether this is `cd ~`.
    pub fn needs_home(&self) -> (needed: bool)
        ensures
            needed == goes_home(self@),
    {
        match self {
            Command::Builtin(BuiltinCommand::Cd, args) => args.len() > 0 && same_text(
                args[0].as_str(),
                "~",
            ),
            _ => false,
        }
    }

    /// The first step of this command, given the home directory.
    pub fn begin(&self, home: Option<String>) -> (step: Step)
        ensures
            step@ == begun(self@, home.deep_view()),
    {
        match self {
            Command::Builtin(kind, args) => match kind {
                BuiltinCommand::Exit => Step::Exit(exit_code_of(args)),
                BuiltinCommand::Echo => Step::Done(Report::Stdout(echo(args))),
                BuiltinCommand::Type => {
                    if args.len() == 0 {
                        Step::Done(Report::Stderr("type: missing argument\n".to_owned()))
                    } else if BuiltinCommand::from_str(args[0].as_str()).is_some() {
                        Step::Done(
                            Report::Stdout(glue(args[0].as_str(), " is a shell builtin\n")),
                        )
                    } else {
                        Goal::Describe.look_up(args[0].clone())
                    }
                },
                BuiltinCommand::Pwd => Step::WorkingDir(DirQuery::Print),
                BuiltinCommand::Cd => {
                    if args.len() == 0 {
                        Step::Done(Report::Stderr("cd: missing argument\n".to_owned()))
                    } else if same_text(args[0].as_str(), "~") {
                        Step::ChangeDir(
                            DirChange { arg: args[0].clone(), target: home_or_root(home) },
                        )
                    } else if literal_path(args[0].as_str()) {
                        Step::ChangeDir(DirChange { arg: args[0].clone(), target: args[0].clone() })
                    } else {
                        Step::WorkingDir(DirQuery::Change(args[0].clone()))
                    }
                },
            },
            Command::External(name, args) => Goal::Run(copy_all(args)).look_up(name.clone()),
        }
    }

    /// The first step of this command.  For `cd ~` the home directory is
    /// asked for here; no other command looks at it.
    pub fn execute(&self) -> (step: Step)
        ensures
            !goes_home(self@) ==> step@ == begun(self@, None),
            goes_home(self@) ==> exists|home: Option<Seq<char>>| step@ == begun(self@, home),
    {
        if self.needs_home() {
            let home = home_dir();
            self.begin(home)
        } else {
            self.begin(None)
        }
    }
}

} // verus!
