use vstd::prelude::*;
use vstd::string::StringExecFns;
use crate::dotfiles::Dotfiles;
use crate::link::Link;
use crate::model::LinkView;
use crate::paths::DotError;
use crate::text::{ends_with_char, is_prefix, starts_with};

verus! {

/// `q` is `p` itself or lies below it: `p` is a prefix of `q` that ends at a
/// path-segment boundary (`/a/b` holds `/a/b/c`, not `/a/bc`). A directory
/// written with a trailing separator (`/a/b/`, or the root `/`) holds what
/// it is a prefix of.
pub open spec fn nests(p: Seq<char>, q: Seq<char>) -> bool {
    ||| q == p
    ||| (p.len() > 0 && p.last() == '/' && is_prefix(p, q))
    ||| is_prefix(p + seq!['/'], q)
}

/// Two distinct positions of `ps` hold paths of which one nests the other.
pub open spec fn has_conflict(ps: Seq<Seq<char>>) -> bool {
    exists|i: int, j: int|
        0 <= i < ps.len() && 0 <= j < ps.len() && i != j && #[trigger] nests(ps[i], ps[j])
}

/// `a` and `b` stand at two distinct positions of `ps`, and `a` nests `b`.
pub open spec fn conflict_pair(ps: Seq<Seq<char>>, a: Seq<char>, b: Seq<char>) -> bool {
    exists|i: int, j: int|
        0 <= i < ps.len() && 0 <= j < ps.len() && i != j && ps[i] == a && ps[j] == b
            && #[trigger] nests(ps[i], ps[j])
}

/// Every path that the entries manage: for each entry its original, then
/// its backup.
pub open spec fn managed_paths(links: Seq<LinkView>) -> Seq<Seq<char>>
    decreases links.len(),
{
    if links.len() == 0 {
        seq![]
    } else {
        managed_paths(links.drop_last()) + seq![links.last().src, links.last().backup]
    }
}

/// The views of a sequence of entries.
pub open spec fn link_views(links: Seq<Link>) -> Seq<LinkView> {
    links.map_values(|l: Link| l@)
}

proof fn lemma_managed_paths(links: Seq<LinkView>)
    ensures
        managed_paths(links).len() == 2 * links.len(),
        forall|k: int|
            0 <= k < links.len() ==> managed_paths(links)[2 * k] == links[k].src
                && managed_paths(links)[2 * k + 1] == links[k].backup,
    decreases links.len(),
{
    if links.len() > 0 {
        lemma_managed_paths(links.drop_last());
        assert forall|k: int| 0 <= k < links.len() implies managed_paths(links)[2 * k]
            == links[k].src && managed_paths(links)[2 * k + 1] == links[k].backup by {
            if k < links.len() - 1 {
                assert(links.drop_last()[k] == links[k]);
            }
        }
    }
}

fn nests_exec(p: &String, q: &String) -> (r: bool)
    ensures
        r == nests(p@, q@),
{
    if *q == *p {
        return true;
    }
    if ends_with_char(p.as_str(), '/') && starts_with(q.as_str(), p.as_str()) {
        return true;
    }
    let slash = "/";
    proof {
        reveal_strlit("/");
    }
    let below = p.clone().concat(slash);
    assert(slash@ == seq!['/']);
    assert(below@ == p@ + seq!['/']);
    starts_with(q.as_str(), below.as_str())
}

impl Dotfiles {
    /// Checks that no managed path of `links` nests another; fails with the
    /// first such pair found.
    pub fn check_health(links: &Vec<Link>) -> (r: Result<(), DotError>)
        ensures
            r is Ok <==> !has_conflict(managed_paths(link_views(links@))),
            r is Err ==> r->Err_0 is Conflict,
            r matches Err(DotError::Conflict { first, second }) ==> conflict_pair(
            managed_paths(link_views(links@)),
            first@,
            second@,
        ),
    {
        let ghost ps = managed_paths(link_views(links@));
        proof {
            lemma_managed_paths(link_views(links@));
        }
        let mut paths: Vec<String> = Vec::new();
        let mut k: usize = 0;
        while k < links.len()
            invariant
                k <= links.len(),
                ps == managed_paths(link_views(links@)),
                ps.len() == 2 * links@.len(),
                forall|m: int|
                    0 <= m < links.len() ==> ps[2 * m] == link_views(links@)[m].src && ps[2 * m + 1]
                        == link_views(links@)[m].backup,
                paths@.len() == 2 * k,
                forall|m: int| 0 <= m < 2 * k ==> #[trigger] paths@[m]@ == ps[m],
            decreases links.len() - k,
        {
            assert(link_views(links@)[k as int] == links@[k as int]@);
            paths.push(links[k].src_path.clone());
            paths.push(links[k].backup_path.clone());
            k = k + 1;
        }
        let n = paths.len();
        let mut i: usize = 0;
        while i < n
            invariant
                n == paths@.len(),
                n == ps.len(),
                ps == managed_paths(link_views(links@)),
                forall|m: int| 0 <= m < n ==> #[trigger] paths@[m]@ == ps[m],
                i <= n,
                forall|a: int, b: int|
                    0 <= a < i && 0 <= b < n && a != b ==> !#[trigger] nests(ps[a], ps[b]),
            decreases n - i,
        {
            let mut j: usize = 0;
            while j < n
                invariant
                    n == paths@.len(),
                    n == ps.len(),
                    ps == managed_paths(link_views(links@)),
                    forall|m: int| 0 <= m < n ==> #[trigger] paths@[m]@ == ps[m],
                    i < n,
                    j <= n,
                    forall|a: int, b: int|
                        0 <= a < i && 0 <= b < n && a != b ==> !#[trigger] nests(ps[a], ps[b]),
                    forall|b: int| 0 <= b < j && b != i ==> !#[trigger] nests(ps[i as int], ps[b]),
                decreases n - j,
            {
                if j != i && nests_exec(&paths[i], &paths[j]) {
                    assert(paths@[i as int]@ == ps[i as int]);
                    assert(paths@[j as int]@ == ps[j as int]);
                    assert(nests(ps[i as int], ps[j as int]));
                    assert(has_conflict(ps));
                    return Err(DotError::Conflict { first: paths[i].clone(), second: paths[j].clone() });
                }
                j = j + 1;
            }
            i = i + 1;
        }
        Ok(())
    }
}

} // verus!
