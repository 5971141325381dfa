//! Looking a program up: the steps from a name to the path of a file that
//! exists, or to the finding that there is none.
//!
//! Only existence is asked for, not permission to execute, and the path may
//! cease to exist between the probe and its use: running it can still fail.

use crate::search::{
    candidates, first_existing, is_literal_path, lemma_candidates_nonempty, literal_path,
    search_candidates,
};
use crate::step::{
    Goal, GoalView, Launch, LaunchView, Lookup, LookupView, Probe, ProbeView, Report, ReportView,
    Step, StepView,
};
use crate::text::glue;
use vstd::prelude::*;

verus! {

/// The step after a program was found at `path`.
pub open spec fn found(name: Seq<char>, goal: GoalView, path: Seq<char>) -> StepView {
    match goal {
        GoalView::Describe => StepView::Done(ReportView::Stdout(name + " is "@ + path + "\n"@)),
        GoalView::Run(args) => StepView::Spawn(LaunchView { name, program: path, args }),
    }
}

/// The step after no candidate was found to exist.
pub open spec fn not_found(name: Seq<char>, goal: GoalView) -> StepView {
    match goal {
        GoalView::Describe => StepView::Done(ReportView::Stdout(name + ": not found\n"@)),
        GoalView::Run(_) => StepView::Done(ReportView::Stderr(name + ": not found\n"@)),
    }
}

/// The probe of a literal path: the path as given, and nothing after it.
pub open spec fn lone_probe(name: Seq<char>, goal: GoalView) -> ProbeView {
    ProbeView { name, goal, path: name, rest: Seq::empty() }
}

/// The first step of looking a program up: a literal path is probed as it
/// stands, and any other name needs the search list.
pub open spec fn look_up(name: Seq<char>, goal: GoalView) -> StepView {
    if is_literal_path(name) {
        StepView::Probe(lone_probe(name, goal))
    } else {
        StepView::SearchList(LookupView { name, goal })
    }
}

/// The step after the search list was read: a probe of the first candidate.
pub open spec fn searched(lookup: LookupView, list: Option<Seq<char>>) -> StepView {
    let paths = candidates(lookup.name, list);
    StepView::Probe(
        ProbeView { name: lookup.name, goal: lookup.goal, path: paths[0], rest: paths.skip(1) },
    )
}

/// The step after a probe: the program is found where the path exists, the
/// next candidate is probed where it does not, and after the last one the
/// program is not found.
pub open spec fn probed(probe: ProbeView, present: bool) -> StepView {
    if present {
        found(probe.name, probe.goal, probe.path)
    } else if probe.rest.len() == 0 {
        not_found(probe.name, probe.goal)
    } else {
        StepView::Probe(
            ProbeView {
                name: probe.name,
                goal: probe.goal,
                path: probe.rest[0],
                rest: probe.rest.skip(1),
            },
        )
    }
}

/// The step at which a lookup ends when every probe is answered from
/// `present`, which tells of each path whether it exists.
pub open spec fn settled(probe: ProbeView, present: spec_fn(Seq<char>) -> bool) -> StepView
    decreases probe.rest.len(),
{
    match probed(probe, present(probe.path)) {
        StepView::Probe(next) => settled(next, present),
        step => step,
    }
}

/// The step at which the lookup of `name` ends, from its first step on, when
/// the search list is `list` and every probe is answered from `present`.
pub open spec fn looked_up(
    name: Seq<char>,
    goal: GoalView,
    list: Option<Seq<char>>,
    present: spec_fn(Seq<char>) -> bool,
) -> StepView {
    match look_up(name, goal) {
        StepView::SearchList(lookup) => match searched(lookup, list) {
            StepView::Probe(probe) => settled(probe, present),
            step => step,
        },
        StepView::Probe(probe) => settled(probe, present),
        step => step,
    }
}

/// The step that ends a lookup which settled on `path`, or on none.
pub open spec fn concluded(name: Seq<char>, goal: GoalView, path: Option<Seq<char>>) -> StepView {
    match path {
        Some(path) => found(name, goal, path),
        None => not_found(name, goal),
    }
}

/// Every answer to a probe leaves fewer candidates to try, so a lookup ends.
pub proof fn lemma_probe_nears_its_end(probe: ProbeView, present: bool)
    ensures
        probed(probe, present) matches StepView::Probe(next) ==> next.rest.len()
            < probe.rest.len(),
{
}

/// Probing ends with the first candidate that exists, tried in order, and
/// with no program found where none exists.
pub proof fn lemma_probing_takes_first_existing(
    probe: ProbeView,
    present: spec_fn(Seq<char>) -> bool,
)
    ensures
        settled(probe, present) == concluded(
            probe.name,
            probe.goal,
            first_existing(seq![probe.path] + probe.rest, present),
        ),
    decreases probe.rest.len(),
{
    let paths = seq![probe.path] + probe.rest;
    assert(paths.skip(1) =~= probe.rest);
    if !present(probe.path) {
        if probe.rest.len() == 0 {
            assert(first_existing(probe.rest, present) is None);
        } else {
            let next = ProbeView {
                name: probe.name,
                goal: probe.goal,
                path: probe.rest[0],
                rest: probe.rest.skip(1),
            };
            lemma_probing_takes_first_existing(next, present);
            assert(seq![next.path] + next.rest =~= probe.rest);
        }
    }
}

/// A lookup ends with the first of the name's candidates that exists, and
/// with no program found where none of them exists.
pub proof fn lemma_lookup_takes_first_existing(
    name: Seq<char>,
    goal: GoalView,
    list: Option<Seq<char>>,
    present: spec_fn(Seq<char>) -> bool,
)
    ensures
        looked_up(name, goal, list, present) == concluded(
            name,
            goal,
            first_existing(candidates(name, list), present),
        ),
{
    let paths = candidates(name, list);
    lemma_candidates_nonempty(name, list);
    let probe = ProbeView { name, goal, path: paths[0], rest: paths.skip(1) };
    lemma_probing_takes_first_existing(probe, present);
    assert(seq![probe.path] + probe.rest =~= paths);
    if is_literal_path(name) {
        assert(probe == lone_probe(name, goal)) by {
            assert(paths.skip(1) =~= Seq::<Seq<char>>::empty());
        }
    }
}

/// A literal path is the only thing probed for it: the lookup begins with a
/// probe of the path as given, never with the search list, and ends when
/// that probe is answered.
pub proof fn lemma_literal_path_is_probed_alone(name: Seq<char>, goal: GoalView)
    requires
        is_literal_path(name),
    ensures
        look_up(name, goal) == StepView::Probe(lone_probe(name, goal)),
        probed(lone_probe(name, goal), true) == found(name, goal, name),
        probed(lone_probe(name, goal), false) == not_found(name, goal),
{
}

impl Goal {
    /// The step after the program `name` was found at `path`.
    fn found(self, name: String, path: String) -> (step: Step)
        ensures
            step@ == found(name@, self@, path@),
    {
        match self {
            Goal::Describe => {
                let mut line = glue(name.as_str(), " is ");
                line.append(path.as_str());
                line.append("\n");
                Step::Done(Report::Stdout(line))
            },
            Goal::Run(args) => Step::Spawn(Launch { name, program: path, args }),
        }
    }

    /// The step after the program `name` was found nowhere.
    fn not_found(self, name: String) -> (step: Step)
        ensures
            step@ == not_found(name@, self@),
    {
        let line = glue(name.as_str(), ": not found\n");
        match self {
            Goal::Describe => Step::Done(Report::Stdout(line)),
            Goal::Run(_) => Step::Done(Report::Stderr(line)),
        }
    }

    /// The first step of looking `name` up to this end.
    pub fn look_up(self, name: String) -> (step: Step)
        ensures
            step@ == look_up(name@, self@),
    {
        if literal_path(name.as_str()) {
            let path = name.clone();
            let rest: Vec<String> = Vec::new();
            assert(rest.deep_view() =~= Seq::<Seq<char>>::empty());
            Step::Probe(Probe { name, goal: self, path, rest })
        } else {
            Step::SearchList(Lookup { name, goal: self })
        }
    }
}

impl Lookup {
    /// Goes on with the search list that the host read, `None` where the
    /// environment holds none that is text.
    pub fn search(self, list: Option<String>) -> (step: Step)
        ensures
            step@ == searched(self@, list.deep_view()),
    {
        let mut paths = match &list {
            Some(text) => search_candidates(self.name.as_str(), Some(text.as_str())),
            None => search_candidates(self.name.as_str(), None),
        };
        let ghost all = paths.deep_view();
        let path = paths.remove(0);
        assert(paths.deep_view() =~= all.skip(1));
        Step::Probe(Probe { name: self.name, goal: self.goal, path, rest: paths })
    }
}

impl Probe {
    /// Goes on after the host looked whether `self.path` exists.
    pub fn answer(self, present: bool) -> (step: Step)
        ensures
            step@ == probed(self@, present),
    {
        if present {
            self.goal.found(self.name, self.path)
        } else if self.rest.len() == 0 {
            self.goal.not_found(self.name)
        } else {
            let mut rest = self.rest;
            let ghost all = rest.deep_view();
            let path = rest.remove(0);
            assert(rest.deep_view() =~= all.skip(1));
            Step::Probe(Probe { name: self.name, goal: self.goal, path, rest })
        }
    }
}

} // verus!
