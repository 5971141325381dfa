//! The steps of carrying out a command, and what each waits for.
//!
//! The interpreter decides and its host acts.  A step either ends the
//! command or names the one thing that the host has to do next: read the
//! search list, look whether a path exists, read or change the working
//! directory, run a program.  The host hands the outcome to the step, which
//! answers with the step that follows.

use vstd::prelude::*;

verus! {

/// What a finished command leaves to be written, line end included.
#[derive(Debug, PartialEq, Eq)]
pub enum Report {
    /// Nothing.
    Silent,
    /// A line for standard output.
    Stdout(String),
    /// A line for standard error.
    Stderr(String),
}

/// What a program is looked up for.
#[derive(Debug, PartialEq, Eq)]
pub enum Goal {
    /// To say where it is.
    Describe,
    /// To run it with these arguments.
    Run(Vec<String>),
}

/// A lookup that waits for the search list.
#[derive(Debug, PartialEq, Eq)]
pub struct Lookup {
    /// The program's name as typed.
    pub name: String,
    /// What it is looked up for.
    pub goal: Goal,
}

/// A lookup that waits to learn whether `path` exists; `rest` holds the
/// candidates to try after it, in order.
#[derive(Debug, PartialEq, Eq)]
pub struct Probe {
    /// The program's name as typed.
    pub name: String,
    /// What it is looked up for.
    pub goal: Goal,
    /// The candidate to look at now.
    pub path: String,
    /// The candidates after it.
    pub rest: Vec<String>,
}

/// A built-in that waits for the working directory.
#[derive(Debug, PartialEq, Eq)]
pub enum DirQuery {
    /// To print it.
    Print,
    /// To resolve this relative path against it.
    Change(String),
}

/// A change of the working directory to `target`, asked for as `arg`.
#[derive(Debug, PartialEq, Eq)]
pub struct DirChange {
    /// The path as typed, by which a failure is reported.
    pub arg: String,
    /// The path to hand to the system.
    pub target: String,
}

/// A program to run: the file at `program` with `args`, asked for as `name`.
/// Its output streams are the interpreter's own.
#[derive(Debug, PartialEq, Eq)]
pub struct Launch {
    /// The program's name as typed, by which its end is reported.
    pub name: String,
    /// The path of the file to run.
    pub program: String,
    /// The arguments to hand to it.
    pub args: Vec<String>,
}

/// How running a program ended.
#[derive(Debug, PartialEq, Eq)]
pub enum Outcome {
    /// It could not be started; the system's message.
    Failed(String),
    /// It ran and exited with this status.
    Exited(i32),
    /// A signal ended it.
    Signaled,
}

/// The next thing to happen for a command.
#[derive(Debug, PartialEq, Eq)]
pub enum Step {
    /// End the interpreter with this exit code.
    Exit(i32),
    /// The command is over; write the report.
    Done(Report),
    /// Read the search list and hand it to `Lookup::search`.
    SearchList(Lookup),
    /// Look whether the probe's path exists and tell `Probe::answer`.
    Probe(Probe),
    /// Read the working directory and hand it to `DirQuery::answer`.
    WorkingDir(DirQuery),
    /// Change the working directory and tell `DirChange::answer`.
    ChangeDir(DirChange),
    /// Run the program, wait for it and tell `Launch::answer`.
    Spawn(Launch),
}

/// What a `Report` holds, as plain text.
pub enum ReportView {
    Silent,
    Stdout(Seq<char>),
    Stderr(Seq<char>),
}

/// What a `Goal` holds, as plain text.
pub enum GoalView {
    Describe,
    Run(Seq<Seq<char>>),
}

/// What a `Lookup` holds, as plain text.
pub struct LookupView {
    pub name: Seq<char>,
    pub goal: GoalView,
}

/// What a `Probe` holds, as plain text.
pub struct ProbeView {
    pub name: Seq<char>,
    pub goal: GoalView,
    pub path: Seq<char>,
    pub rest: Seq<Seq<char>>,
}

/// What a `DirQuery` holds, as plain text.
pub enum DirQueryView {
    Print,
    Change(Seq<char>),
}

/// What a `DirChange` holds, as plain text.
pub struct DirChangeView {
    pub arg: Seq<char>,
    pub target: Seq<char>,
}

/// What a `Launch` holds, as plain text.
pub struct LaunchView {
    pub name: Seq<char>,
    pub program: Seq<char>,
    pub args: Seq<Seq<char>>,
}

/// What an `Outcome` holds, as plain text.
pub enum OutcomeView {
    Failed(Seq<char>),
    Exited(i32),
    Signaled,
}

/// What a `Step` holds, as plain text.
pub enum StepView {
    Exit(i32),
    Done(ReportView),
    SearchList(LookupView),
    Probe(ProbeView),
    WorkingDir(DirQueryView),
    ChangeDir(DirChangeView),
    Spawn(LaunchView),
}

impl View for Report {
    type V = ReportView;

    open spec fn view(&self) -> ReportView {
        match self {
            Report::Silent => ReportView::Silent,
            Report::Stdout(line) => ReportView::Stdout(line@),
            Report::Stderr(line) => ReportView::Stderr(line@),
        }
    }
}

impl View for Goal {
    type V = GoalView;

    open spec fn view(&self) -> GoalView {
        match self {
            Goal::Describe => GoalView::Describe,
            Goal::Run(args) => GoalView::Run(args.deep_view()),
        }
    }
}

impl View for Lookup {
    type V = LookupView;

    open spec fn view(&self) -> LookupView {
        LookupView { name: self.name@, goal: self.goal@ }
    }
}

impl View for Probe {
    type V = ProbeView;

    open spec fn view(&self) -> ProbeView {
        ProbeView {
            name: self.name@,
            goal: self.goal@,
            path: self.path@,
            rest: self.rest.deep_view(),
        }
    }
}

impl View for DirQuery {
    type V = DirQueryView;

    open spec fn view(&self) -> DirQueryView {
        match self {
            DirQuery::Print => DirQueryView::Print,
            DirQuery::Change(arg) => DirQueryView::Change(arg@),
        }
    }
}

impl View for DirChange {
    type V = DirChangeView;

    open spec fn view(&self) -> DirChangeView {
        DirChangeView { arg: self.arg@, target: self.target@ }
    }
}

impl View for Launch {
    type V = LaunchView;

    open spec fn view(&self) -> LaunchView {
        LaunchView { name: self.name@, program: self.program@, args: self.args.deep_view() }
    }
}

impl View for Outcome {
    type V = OutcomeView;

    open spec fn view(&self) -> OutcomeView {
        match self {
            Outcome::Failed(message) => OutcomeView::Failed(message@),
            Outcome::Exited(status) => OutcomeView::Exited(*status),
            Outcome::Signaled => OutcomeView::Signaled,
        }
    }
}

impl View for Step {
    type V = StepView;

    open spec fn view(&self) -> StepView {
        match self {
            Step::Exit(code) => StepView::Exit(*code),
            Step::Done(report) => StepView::Done(report@),
            Step::SearchList(lookup) => StepView::SearchList(lookup@),
            Step::Probe(probe) => StepView::Probe(probe@),
            Step::WorkingDir(query) => StepView::WorkingDir(query@),
            Step::ChangeDir(change) => StepView::ChangeDir(change@),
            Step::Spawn(launch) => StepView::Spawn(launch@),
        }
    }
}

} // verus!
