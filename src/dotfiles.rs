use vstd::prelude::*;
use crate::conflict::{has_conflict, link_views, managed_paths};
use crate::link::{Link, Observation, Outcome};
use crate::model::{collect_plan, restore_plan};
use crate::paths::{joined, join_path, DotError};

verus! {

/// The name of the configuration file in the backup root.
pub const CONFIG_FILE_NAME: &'static str = "dotfiles.config.json";

/// Where a run over the entries stands once one entry was carried out.
#[derive(Debug, PartialEq, Eq)]
pub enum Progress {
    /// Go on with the entry at this position.
    Next(usize),
    /// Every entry was carried out.
    Finished,
    /// An entry failed; the run ends with its error and the entries after
    /// it are left untouched.
    Stopped(DotError),
}

/// The set of tracked entries of one run; no managed path nests another.
#[derive(Debug)]
pub struct Dotfiles {
    links: Vec<Link>,
}

impl Dotfiles {
    pub closed spec fn entries(&self) -> Seq<Link> {
        self.links@
    }

    /// The set is free of nesting paths.
    pub open spec fn wf(&self) -> bool {
        !has_conflict(managed_paths(link_views(self.entries())))
    }

    /// Builds the set from its entries, after checking that no managed
    /// path nests another.
    pub fn from_links(links: Vec<Link>) -> (r: Result<Dotfiles, DotError>)
        ensures
            r is Ok <==> !has_conflict(managed_paths(link_views(links@))),
            r is Ok ==> r->Ok_0.entries() == links@ && r->Ok_0.wf(),
            r is Err ==> r->Err_0 is Conflict,
    {
        match Dotfiles::check_health(&links) {
            Ok(()) => Ok(Dotfiles { links }),
            Err(e) => Err(e),
        }
    }

    /// The number of entries.
    pub fn len(&self) -> (r: usize)
        ensures
            r == self.entries().len(),
    {
        self.links.len()
    }

    /// The entry at position `i`.
    pub fn link(&self, i: usize) -> (r: &Link)
        requires
            i < self.entries().len(),
        ensures
            *r == self.entries()[i as int],
    {
        &self.links[i]
    }

    /// The path of the configuration file in the directory `dir`.
    pub fn get_config_path(dir: &str) -> (r: String)
        ensures
            r@ == joined(dir@, CONFIG_FILE_NAME@),
    {
        join_path(dir, CONFIG_FILE_NAME)
    }

    /// Decides how a run goes on after the entry at `k` was carried out with
    /// result `carried`: it stops at the first failure, and otherwise
    /// visits the entries in order.
    pub fn advance(&self, k: usize, carried: Result<(), DotError>) -> (r: Progress)
        requires
            k < self.entries().len(),
        ensures
            carried is Err ==> r == Progress::Stopped(carried->Err_0),
            carried is Ok && k + 1 < self.entries().len() ==> r == Progress::Next((k + 1) as usize),
            carried is Ok && k + 1 == self.entries().len() ==> r is Finished,
    {
        match carried {
            Err(e) => Progress::Stopped(e),
            Ok(()) => if k < self.links.len() - 1 {
                Progress::Next(k + 1)
            } else {
                Progress::Finished
            },
        }
    }

    /// Decides `collect` for every entry, each as observed in the entry of
    /// `obs` at the same position.
    pub fn collect(&self, obs: &Vec<Observation>) -> (r: Vec<Outcome>)
        requires
            obs@.len() == self.entries().len(),
        ensures
            r@.len() == obs@.len(),
            forall|i: int|
                0 <= i < r@.len() ==> #[trigger] r@[i]@ == collect_plan(
                    self.entries()[i]@,
                    obs@[i]@,
                ),
    {
        let mut out: Vec<Outcome> = Vec::new();
        let mut i: usize = 0;
        while i < obs.len()
            invariant
                obs@.len() == self.links@.len(),
                i <= obs@.len(),
                out@.len() == i,
                forall|k: int|
                    0 <= k < i ==> #[trigger] out@[k]@ == collect_plan(self.links@[k]@, obs@[k]@),
            decreases obs@.len() - i,
        {
            out.push(self.links[i].collect(&obs[i]));
            i = i + 1;
        }
        out
    }

    /// Decides `restore` for every entry, each as observed in the entry of
    /// `obs` at the same position; `force` allows plain files to be
    /// overwritten.
    pub fn restore(&self, obs: &Vec<Observation>, force: bool) -> (r: Vec<Outcome>)
        requires
            obs@.len() == self.entries().len(),
        ensures
            r@.len() == obs@.len(),
            forall|i: int|
                0 <= i < r@.len() ==> #[trigger] r@[i]@ == restore_plan(
                    self.entries()[i]@,
                    obs@[i]@,
                    force,
                ),
    {
        let mut out: Vec<Outcome> = Vec::new();
        let mut i: usize = 0;
        while i < obs.len()
            invariant
                obs@.len() == self.links@.len(),
                i <= obs@.len(),
                out@.len() == i,
                forall|k: int|
                    0 <= k < i ==> #[trigger] out@[k]@ == restore_plan(
                        self.links@[k]@,
                        obs@[k]@,
                        force,
                    ),
            decreases obs@.len() - i,
        {
            out.push(self.links[i].restore(&obs[i], force));
            i = i + 1;
        }
        out
    }
}

} // verus!
