use vstd::prelude::*;
use crate::model::{
    collect_plan, link_wf, observe, outcome_fs, restore_plan, Fs, KindView, LinkView, Node,
    OutcomeView,
};

verus! {

/// Collecting a plain file and then restoring it without force puts the
/// file's content back at its original path, as real content and not as a
/// symlink.
pub proof fn collect_then_restore(fs: Fs, l: LinkView)
    requires
        link_wf(l),
        fs.contains_key(l.src),
        fs[l.src] is Plain,
    ensures
        outcome_fs(fs, collect_plan(l, observe(fs, l))) matches Some(fs1) && outcome_fs(
            fs1,
            restore_plan(l, observe(fs1, l), false),
        ) matches Some(fs2) && fs2.contains_key(l.src) && fs2[l.src] == fs[l.src],
{
    let a = fs.insert(l.backup, fs[l.src]);
    let b = a.remove(l.src);
    let c = b.insert(l.src, Node::Symlink(l.backup));
    assert(outcome_fs(fs, collect_plan(l, observe(fs, l))) == Some(c)) by {
        reveal_with_fuel(crate::model::run_steps, 4);
    }
    let d = c.remove(l.src);
    let e = d.insert(l.src, c[l.backup]);
    assert(outcome_fs(c, restore_plan(l, observe(c, l), false)) == Some(e)) by {
        reveal_with_fuel(crate::model::run_steps, 3);
    }
}

/// Collecting twice in a row ends where collecting once does: the second
/// call changes nothing.
pub proof fn collect_idempotent(fs: Fs, l: LinkView)
    requires
        link_wf(l),
    ensures
        outcome_fs(fs, collect_plan(l, observe(fs, l))) matches Some(fs1) ==> outcome_fs(
            fs1,
            collect_plan(l, observe(fs1, l)),
        ) == Some(fs1),
{
    if observe(fs, l).src is Plain {
        reveal_with_fuel(crate::model::run_steps, 4);
    }
}

/// Restoring twice in a row without force ends where restoring once does:
/// the second call changes nothing.
pub proof fn restore_idempotent(fs: Fs, l: LinkView)
    requires
        link_wf(l),
    ensures
        outcome_fs(fs, restore_plan(l, observe(fs, l), false)) matches Some(fs1) ==> outcome_fs(
            fs1,
            restore_plan(l, observe(fs1, l), false),
        ) == Some(fs1),
{
    reveal_with_fuel(crate::model::run_steps, 3);
}

/// Restoring through a symlink that points anywhere but the entry's backup
/// is refused, and the filesystem is left as it was.
pub proof fn stale_link_refused(fs: Fs, l: LinkView, force: bool)
    requires
        fs.contains_key(l.backup),
        fs.contains_key(l.src),
        fs[l.src] matches Node::Symlink(t) && t != l.backup,
    ensures
        restore_plan(l, observe(fs, l), force) == (OutcomeView::Integrity {
            path: l.src,
            backup: l.backup,
        }),
        outcome_fs(fs, restore_plan(l, observe(fs, l), force)) == Some(fs),
{
}

/// A forced restore over a plain file replaces its content by the backup's.
pub proof fn forced_restore_overwrites(fs: Fs, l: LinkView)
    requires
        link_wf(l),
        fs.contains_key(l.src),
        fs[l.src] is Plain,
        fs.contains_key(l.backup),
        fs[l.backup] is Plain,
    ensures
        outcome_fs(fs, restore_plan(l, observe(fs, l), true)) matches Some(fs1) && fs1.contains_key(
            l.src,
        ) && fs1[l.src] == fs[l.backup],
{
    reveal_with_fuel(crate::model::run_steps, 3);
    let d = fs.remove(l.src);
    let e = d.insert(l.src, fs[l.backup]);
    assert(d[l.backup] == fs[l.backup]);
}

} // verus!
