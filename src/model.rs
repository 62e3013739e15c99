use vstd::prelude::*;

verus! {

/// What one managed path holds in the modelled filesystem: real content
/// (a file, or a directory tree taken as a whole), or a symlink to a path.
pub enum Node {
    Plain(Seq<u8>),
    Symlink(Seq<char>),
}

/// The modelled filesystem: what each path holds.
pub type Fs = Map<Seq<char>, Node>;

/// What was observed at a tracked entry's original path.
pub enum KindView {
    Missing,
    Plain,
    Symlink(Seq<char>),
}

/// What was observed of one tracked entry.
pub struct ObsView {
    pub src: KindView,
    pub backup_exists: bool,
}

/// One primitive filesystem operation.
pub enum StepView {
    Copy { from: Seq<char>, to: Seq<char> },
    Remove { target: Seq<char> },
    Symlink { target: Seq<char>, link: Seq<char> },
}

/// Why an entry was left alone.
pub enum SkipView {
    SourceMissing,
    AlreadyLinked,
    BackupMissing,
    NeedsForce,
}

/// The decision taken for one entry.
pub enum OutcomeView {
    Skip(SkipView),
    Run(Seq<StepView>),
    Integrity { path: Seq<char>, backup: Seq<char> },
}

/// A tracked entry: where the file lives and where its backup is kept.
pub struct LinkView {
    pub src: Seq<char>,
    pub backup: Seq<char>,
}

/// What a fresh inspection of `fs` shows of the entry `l`.
pub open spec fn observe(fs: Fs, l: LinkView) -> ObsView {
    ObsView {
        src: if !fs.contains_key(l.src) {
            KindView::Missing
        } else {
            match fs[l.src] {
                Node::Plain(_) => KindView::Plain,
                Node::Symlink(t) => KindView::Symlink(t),
            }
        },
        backup_exists: fs.contains_key(l.backup),
    }
}

/// The effect of one step, or `None` where the step fails: a copy needs
/// real content at its source, a symlink needs a free place. Removing a
/// missing path does nothing.
pub open spec fn apply_step(fs: Fs, s: StepView) -> Option<Fs> {
    match s {
        StepView::Copy { from, to } => if fs.contains_key(from) && fs[from] is Plain {
            Some(fs.insert(to, fs[from]))
        } else {
            None
        },
        StepView::Remove { target } => Some(fs.remove(target)),
        StepView::Symlink { target, link } => if fs.contains_key(link) {
            None
        } else {
            Some(fs.insert(link, Node::Symlink(target)))
        },
    }
}

/// Runs the steps in order, stopping at the first that fails.
pub open spec fn run_steps(fs: Fs, steps: Seq<StepView>) -> Option<Fs>
    decreases steps.len(),
{
    if steps.len() == 0 {
        Some(fs)
    } else {
        match apply_step(fs, steps[0]) {
            Some(f) => run_steps(f, steps.drop_first()),
            None => None,
        }
    }
}

/// The filesystem after a decision is carried out: skips and refusals
/// leave it as it was.
pub open spec fn outcome_fs(fs: Fs, o: OutcomeView) -> Option<Fs> {
    match o {
        OutcomeView::Run(steps) => run_steps(fs, steps),
        _ => Some(fs),
    }
}

/// The decision of `collect`: only a plain file is moved into the backup
/// and replaced by a symlink to it.
pub open spec fn collect_plan(l: LinkView, o: ObsView) -> OutcomeView {
    match o.src {
        KindView::Missing => OutcomeView::Skip(SkipView::SourceMissing),
        KindView::Symlink(_) => OutcomeView::Skip(SkipView::AlreadyLinked),
        KindView::Plain => OutcomeView::Run(
            seq![
                StepView::Copy { from: l.src, to: l.backup },
                StepView::Remove { target: l.src },
                StepView::Symlink { target: l.backup, link: l.src },
            ],
        ),
    }
}

/// The decision of `restore`: with a backup at hand, a symlink to it (or,
/// when forced, a plain file) is replaced by a copy of the backup, and a
/// missing original is recreated from it. A symlink elsewhere is refused.
pub open spec fn restore_plan(l: LinkView, o: ObsView, force: bool) -> OutcomeView {
    if !o.backup_exists {
        OutcomeView::Skip(SkipView::BackupMissing)
    } else {
        match o.src {
            KindView::Missing => OutcomeView::Run(
                seq![StepView::Copy { from: l.backup, to: l.src }],
            ),
            KindView::Plain => if force {
                OutcomeView::Run(
                    seq![
                        StepView::Remove { target: l.src },
                        StepView::Copy { from: l.backup, to: l.src },
                    ],
                )
            } else {
                OutcomeView::Skip(SkipView::NeedsForce)
            },
            KindView::Symlink(t) => if t == l.backup {
                OutcomeView::Run(
                    seq![
                        StepView::Remove { target: l.src },
                        StepView::Copy { from: l.backup, to: l.src },
                    ],
                )
            } else {
                OutcomeView::Integrity { path: l.src, backup: l.backup }
            },
        }
    }
}

/// A usable entry: its two paths differ.
pub open spec fn link_wf(l: LinkView) -> bool {
    l.src != l.backup
}

} // verus!
