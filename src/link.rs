use vstd::prelude::*;
use crate::model::{collect_plan, restore_plan, KindView, LinkView, ObsView, OutcomeView, SkipView, StepView};
use crate::paths::{expand_home_dir, expanded, home_marker, join_path, joined, DotError};
use crate::text::is_prefix;

verus! {

/// What was seen at a tracked entry's original path.
#[derive(Debug, PartialEq, Eq)]
pub enum PathKind {
    Missing,
    Plain,
    /// A symlink, with the path it points to.
    Symlink(String),
}

/// A fresh inspection of one tracked entry.
#[derive(Debug, PartialEq, Eq)]
pub struct Observation {
    pub src: PathKind,
    pub backup_exists: bool,
}

/// One primitive filesystem operation for the caller to perform.
#[derive(Debug, PartialEq, Eq)]
pub enum Step {
    /// Copy a file or tree, creating the parents of `to`.
    Copy { from: String, to: String },
    /// Remove a file or tree; nothing to do when it is missing.
    Remove { target: String },
    /// Create at `link` a symlink to `target`.
    Symlink { target: String, link: String },
}

/// Why an entry was left alone; a skip is no failure.
#[derive(Clone, Copy, PartialEq, Eq, Debug)]
pub enum SkipReason {
    SourceMissing,
    AlreadyLinked,
    BackupMissing,
    NeedsForce,
}

/// The decision for one entry: leave it, run these steps in order and stop
/// at the first that fails, or refuse.
#[derive(Debug, PartialEq, Eq)]
pub enum Outcome {
    Skip(SkipReason),
    Run(Vec<Step>),
    Fail(DotError),
}

/// A tracked entry.
#[derive(Debug, PartialEq, Eq)]
pub struct Link {
    pub src_path: String,
    pub backup_path: String,
}

impl View for PathKind {
    type V = KindView;

    open spec fn view(&self) -> KindView {
        match self {
            PathKind::Missing => KindView::Missing,
            PathKind::Plain => KindView::Plain,
            PathKind::Symlink(t) => KindView::Symlink(t@),
        }
    }
}

impl View for Observation {
    type V = ObsView;

    open spec fn view(&self) -> ObsView {
        ObsView { src: self.src@, backup_exists: self.backup_exists }
    }
}

impl View for Step {
    type V = StepView;

    open spec fn view(&self) -> StepView {
        match self {
            Step::Copy { from, to } => StepView::Copy { from: from@, to: to@ },
            Step::Remove { target } => StepView::Remove { target: target@ },
            Step::Symlink { target, link } => StepView::Symlink { target: target@, link: link@ },
        }
    }
}

pub open spec fn skip_view(s: SkipReason) -> SkipView {
    match s {
        SkipReason::SourceMissing => SkipView::SourceMissing,
        SkipReason::AlreadyLinked => SkipView::AlreadyLinked,
        SkipReason::BackupMissing => SkipView::BackupMissing,
        SkipReason::NeedsForce => SkipView::NeedsForce,
    }
}

impl View for Outcome {
    type V = OutcomeView;

    /// A failure other than an integrity refusal never comes out of a
    /// decision; it is seen as a refusal with no paths.
    open spec fn view(&self) -> OutcomeView {
        match self {
            Outcome::Skip(s) => OutcomeView::Skip(skip_view(*s)),
            Outcome::Run(steps) => OutcomeView::Run(steps@.map_values(|s: Step| s@)),
            Outcome::Fail(e) => match e {
                DotError::Integrity { path, backup } => OutcomeView::Integrity {
                    path: path@,
                    backup: backup@,
                },
                _ => OutcomeView::Integrity { path: seq![], backup: seq![] },
            },
        }
    }
}

impl View for Link {
    type V = LinkView;

    open spec fn view(&self) -> LinkView {
        LinkView { src: self.src_path@, backup: self.backup_path@ }
    }
}

fn copy_str(s: &String) -> (r: String)
    ensures
        r@ == s@,
{
    s.clone()
}

impl Outcome {
    /// The result of an entry once this decision was carried out on `path`:
    /// a skip succeeds, a refusal fails with its error, and a run succeeds
    /// unless `failure` reports the step that failed, with the system's
    /// message.
    pub fn settle(self, path: &String, failure: Option<(usize, String)>) -> (r: Result<(), DotError>)
        ensures
            self is Skip ==> r is Ok,
            self is Fail ==> r == Err::<(), DotError>(self->Fail_0),
            self is Run && failure is None ==> r is Ok,
            self is Run && failure is Some ==> (r matches Err(DotError::Io { path: p, step, message })
                && p@ == path@ && step == failure->Some_0.0 && message == failure->Some_0.1),
    {
        match self {
            Outcome::Skip(_) => Ok(()),
            Outcome::Fail(e) => Err(e),
            Outcome::Run(_) => match failure {
                None => Ok(()),
                Some((step, message)) => Err(DotError::Io { path: copy_str(path), step, message }),
            },
        }
    }
}

impl Link {
    /// The entry whose backup is `backup_path` under the scope directory
    /// `prefix`, and whose original is `src_path` with `~/` expanded.
    pub fn new(backup_path: &str, src_path: &str, prefix: &str, home: Option<&str>) -> (r: Result<
        Link,
        DotError,
    >)
        ensures
            is_prefix(home_marker(), src_path@) && home is None <==> r is Err,
            r is Err ==> r->Err_0 is Config,
            r is Ok ==> r->Ok_0@ == (LinkView {
                src: expanded(src_path@, home->Some_0@),
                backup: joined(prefix@, backup_path@),
            }),
    {
        match expand_home_dir(src_path, home) {
            Ok(src) => {
                let backup = join_path(prefix, backup_path);
                Ok(Link { src_path: src, backup_path: backup })
            },
            Err(e) => Err(e),
        }
    }

    /// Decides what `collect` does with this entry as observed in `obs`.
    pub fn collect(&self, obs: &Observation) -> (r: Outcome)
        ensures
            r@ == collect_plan(self@, obs@),
    {
        match &obs.src {
            PathKind::Missing => Outcome::Skip(SkipReason::SourceMissing),
            PathKind::Symlink(_) => Outcome::Skip(SkipReason::AlreadyLinked),
            PathKind::Plain => {
                let mut steps: Vec<Step> = Vec::new();
                steps.push(Step::Copy { from: copy_str(&self.src_path), to: copy_str(&self.backup_path) });
                steps.push(Step::Remove { target: copy_str(&self.src_path) });
                steps.push(
                    Step::Symlink { target: copy_str(&self.backup_path), link: copy_str(&self.src_path) },
                );
                assert(steps@.map_values(|s: Step| s@) =~= match collect_plan(self@, obs@) {
                    OutcomeView::Run(v) => v,
                    _ => seq![],
                });
                let r = Outcome::Run(steps);
                assert(r@ =~~= collect_plan(self@, obs@));
                r
            },
        }
    }

    fn replace_steps(&self, put_back: Step) -> (r: Vec<Step>)
        requires
            put_back@ == (StepView::Copy { from: self.backup_path@, to: self.src_path@ }),
        ensures
            r@.map_values(|s: Step| s@) == seq![
                StepView::Remove { target: self.src_path@ },
                StepView::Copy { from: self.backup_path@, to: self.src_path@ },
            ],
    {
        let mut steps: Vec<Step> = Vec::new();
        steps.push(Step::Remove { target: copy_str(&self.src_path) });
        steps.push(put_back);
        assert(steps@.map_values(|s: Step| s@) =~= seq![
            StepView::Remove { target: self.src_path@ },
            StepView::Copy { from: self.backup_path@, to: self.src_path@ },
        ]);
        steps
    }

    /// Decides what `restore` does with this entry as observed in `obs`;
    /// `force` allows a plain file to be overwritten.
    pub fn restore(&self, obs: &Observation, force: bool) -> (r: Outcome)
        ensures
            r@ == restore_plan(self@, obs@, force),
            r is Fail ==> r->Fail_0 is Integrity,
    {
        if !obs.backup_exists {
            return Outcome::Skip(SkipReason::BackupMissing);
        }
        let put_back = Step::Copy { from: copy_str(&self.backup_path), to: copy_str(&self.src_path) };
        match &obs.src {
            PathKind::Missing => {
                let mut steps: Vec<Step> = Vec::new();
                steps.push(put_back);
                assert(steps@.map_values(|s: Step| s@) =~= seq![StepView::Copy { from: self.backup_path@, to: self.src_path@ }]);
                let r = Outcome::Run(steps);
                assert(r@ =~~= restore_plan(self@, obs@, force));
                r
            },
            PathKind::Plain => {
                if force {
                    let r = Outcome::Run(self.replace_steps(put_back));
                    assert(r@ =~~= restore_plan(self@, obs@, force));
                    r
                } else {
                    Outcome::Skip(SkipReason::NeedsForce)
                }
            },
            PathKind::Symlink(t) => {
                if *t == self.backup_path {
                    let r = Outcome::Run(self.replace_steps(put_back));
                    assert(r@ =~~= restore_plan(self@, obs@, force));
                    r
                } else {
                    Outcome::Fail(DotError::Integrity {
                        path: copy_str(&self.src_path),
                        backup: copy_str(&self.backup_path),
                    })
                }
            },
        }
    }
}

} // verus!
