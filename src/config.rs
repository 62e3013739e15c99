use vstd::prelude::*;
use crate::conflict::{has_conflict, link_views, managed_paths};
use crate::dotfiles::Dotfiles;
use crate::link::Link;
use crate::model::LinkView;
use crate::paths::{expanded, home_marker, join_path, joined, DotError};
use crate::text::is_prefix;

verus! {

/// What serde_json reads from a configuration text that is a JSON object of
/// scopes, each an object from backup keys to original paths, with the keys
/// of each object in the order in which the text first gives them; `None`
/// for any other text.
pub uninterp spec fn parsed_config(text: Seq<char>) -> Option<
    Seq<(Seq<char>, Seq<(Seq<char>, Seq<char>)>)>,
>;

/// The view of a loaded configuration: scopes with their (key, path) pairs.
pub open spec fn scopes_view(v: Seq<(String, Vec<(String, String)>)>) -> Seq<
    (Seq<char>, Seq<(Seq<char>, Seq<char>)>),
> {
    v.map_values(
        |e: (String, Vec<(String, String)>)|
            (e.0@, e.1@.map_values(|p: (String, String)| (p.0@, p.1@))),
    )
}

/// Relies on serde_json::from_str, read into `serde_json::Map`s that keep
/// the order of their keys: the result depends on the text alone, and is
/// `None` for any text that is not an object of objects of strings.
#[verifier::external_body]
fn parse_config(text: &str) -> (r: Option<Vec<(String, Vec<(String, String)>)>>)
    ensures
        r is None ==> parsed_config(text@) is None,
        r is Some ==> parsed_config(text@) == Some(scopes_view(r->Some_0@)),
{
    let map = serde_json::from_str::<serde_json::Map<String, serde_json::Value>>(text).ok()?;
    map.into_iter().map(|(scope, v)| match v {
        serde_json::Value::Object(m) => m.into_iter().map(|(key, p)| match p {
            serde_json::Value::String(path) => Some((key, path)),
            _ => None,
        }).collect::<Option<Vec<(String, String)>>>().map(|pairs| (scope, pairs)),
        _ => None,
    }).collect()
}

/// The entries of one scope: each key names the backup under the scope's
/// directory in `root`, each path is the original with `~/` expanded.
pub open spec fn scope_links(
    root: Seq<char>,
    scope: (Seq<char>, Seq<(Seq<char>, Seq<char>)>),
    home: Seq<char>,
) -> Seq<LinkView> {
    scope.1.map_values(
        |p: (Seq<char>, Seq<char>)|
            LinkView { src: expanded(p.1, home), backup: joined(joined(root, scope.0), p.0) },
    )
}

/// The entries of a configuration, scope after scope.
pub open spec fn config_links(
    root: Seq<char>,
    scopes: Seq<(Seq<char>, Seq<(Seq<char>, Seq<char>)>)>,
    home: Seq<char>,
) -> Seq<LinkView>
    decreases scopes.len(),
{
    if scopes.len() == 0 {
        seq![]
    } else {
        config_links(root, scopes.drop_last(), home) + scope_links(root, scopes.last(), home)
    }
}

/// Some original path of the configuration opens with `~/`.
pub open spec fn needs_home(scopes: Seq<(Seq<char>, Seq<(Seq<char>, Seq<char>)>)>) -> bool {
    exists|i: int, j: int|
        0 <= i < scopes.len() && 0 <= j < scopes[i].1.len() && #[trigger] is_prefix(
            home_marker(),
            scopes[i].1[j].1,
        )
}

pub open spec fn home_view(home: Option<&str>) -> Seq<char> {
    match home {
        Some(h) => h@,
        None => seq![],
    }
}

/// `r` is what loading the configuration `scopes` in `root` gives: a
/// `Config` error where a home directory is needed and missing, else the
/// entries, refused with a `Conflict` where two managed paths nest.
pub open spec fn loaded(
    scopes: Seq<(Seq<char>, Seq<(Seq<char>, Seq<char>)>)>,
    root: Seq<char>,
    home: Option<&str>,
    r: Result<Dotfiles, DotError>,
) -> bool {
    if home is None && needs_home(scopes) {
        r matches Err(DotError::Config)
    } else {
        let ls = config_links(root, scopes, home_view(home));
        &&& (r is Ok <==> !has_conflict(managed_paths(ls)))
        &&& (r is Ok ==> link_views(r->Ok_0.entries()) == ls && r->Ok_0.wf())
        &&& (r is Err ==> r->Err_0 is Conflict)
    }
}

impl Dotfiles {
    /// Builds the set of entries of a loaded configuration whose backups
    /// live under `root`.
    pub fn from_config(
        scopes: &Vec<(String, Vec<(String, String)>)>,
        root: &str,
        home: Option<&str>,
    ) -> (r: Result<Dotfiles, DotError>)
        ensures
            loaded(scopes_view(scopes@), root@, home, r),
    {
        let ghost sv = scopes_view(scopes@);
        let ghost hv = home_view(home);
        let mut links: Vec<Link> = Vec::new();
        let mut i: usize = 0;
        while i < scopes.len()
            invariant
                sv == scopes_view(scopes@),
                hv == home_view(home),
                i <= scopes@.len(),
                link_views(links@) == config_links(root@, sv.take(i as int), hv),
                home is None ==> forall|a: int, b: int|
                    0 <= a < i && 0 <= b < sv[a].1.len() ==> !#[trigger] is_prefix(
                        home_marker(),
                        sv[a].1[b].1,
                    ),
            decreases scopes@.len() - i,
        {
            let prefix = join_path(root, scopes[i].0.as_str());
            let pairs = &scopes[i].1;
            let ghost name = sv[i as int].0;
            let ghost ps = sv[i as int].1;
            assert(name == scopes@[i as int].0@ && ps == pairs@.map_values(
                |p: (String, String)| (p.0@, p.1@),
            ));
            let mut j: usize = 0;
            while j < pairs.len()
                invariant
                    sv == scopes_view(scopes@),
                    hv == home_view(home),
                    i < scopes@.len(),
                    name == sv[i as int].0,
                    ps == sv[i as int].1,
                    ps == pairs@.map_values(|p: (String, String)| (p.0@, p.1@)),
                    prefix@ == joined(root@, name),
                    j <= pairs@.len(),
                    link_views(links@) == config_links(root@, sv.take(i as int), hv) + scope_links(
                        root@,
                        (name, ps.take(j as int)),
                        hv,
                    ),
                    home is None ==> forall|a: int, b: int|
                        0 <= a < i && 0 <= b < sv[a].1.len() ==> !#[trigger] is_prefix(
                            home_marker(),
                            sv[a].1[b].1,
                        ),
                    home is None ==> forall|b: int|
                        0 <= b < j ==> !#[trigger] is_prefix(home_marker(), ps[b].1),
                decreases pairs@.len() - j,
            {
                let ghost before = links@;
                assert(ps[j as int] == (pairs@[j as int].0@, pairs@[j as int].1@));
                match Link::new(pairs[j].0.as_str(), pairs[j].1.as_str(), prefix.as_str(), home) {
                    Ok(l) => {
                        links.push(l);
                        proof {
                            let v = LinkView {
                                src: expanded(ps[j as int].1, hv),
                                backup: joined(joined(root@, name), ps[j as int].0),
                            };
                            assert(l@ == v);
                            assert(link_views(links@) =~= link_views(before).push(v));
                            assert(scope_links(root@, (name, ps.take(j + 1)), hv) =~= scope_links(
                                root@,
                                (name, ps.take(j as int)),
                                hv,
                            ).push(v));
                        }
                    },
                    Err(e) => {
                        proof {
                            assert(is_prefix(home_marker(), sv[i as int].1[j as int].1));
                        }
                        return Err(e);
                    },
                }
                j = j + 1;
            }
            proof {
                assert(sv.take(i + 1).drop_last() =~= sv.take(i as int));
                assert(ps.take(j as int) =~= ps);
                assert forall|a: int, b: int|
                    home is None && 0 <= a < i + 1 && 0 <= b < sv[a].1.len() implies !#[trigger] is_prefix(
                    home_marker(),
                    sv[a].1[b].1,
                ) by {
                    if a == i {
                        assert(ps[b] == sv[a].1[b]);
                    }
                }
            }
            i = i + 1;
        }
        proof {
            assert(sv.take(i as int) =~= sv);
            if home is None {
                assert(!needs_home(sv));
            }
        }
        Dotfiles::from_links(links)
    }

    /// Loads the configuration text `text` of the backup root `root`.
    pub fn read_config(text: &str, root: &str, home: Option<&str>) -> (r: Result<Dotfiles, DotError>)
        ensures
            parsed_config(text@) is None ==> r matches Err(DotError::Config),
            parsed_config(text@) matches Some(sv) ==> loaded(sv, root@, home, r),
    {
        match parse_config(text) {
            Some(scopes) => Dotfiles::from_config(&scopes, root, home),
            None => Err(DotError::Config),
        }
    }
}

} // verus!
