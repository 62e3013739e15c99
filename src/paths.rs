use vstd::prelude::*;
use vstd::string::StringExecFns;
use crate::text::{ends_with_char, is_prefix, replace_first, starts_with};

verus! {

/// Errors of the library.
#[derive(Debug, PartialEq, Eq)]
pub enum DotError {
    /// The configuration cannot be used: unreadable, malformed, or a `~/`
    /// path with no home directory to expand it.
    Config,
    /// Two managed paths nest inside one another.
    Conflict { first: String, second: String },
    /// A symlink does not point at the backup it is recorded with.
    Integrity { path: String, backup: String },
    /// Step `step` (counted from zero) of the work on the entry at `path`
    /// failed on the filesystem.
    Io { path: String, step: usize, message: String },
}

/// The home-directory marker that may open a configured path.
pub open spec fn home_marker() -> Seq<char> {
    seq!['~', '/']
}

/// What `~/`-expansion makes of `p` with home directory `home`.
pub open spec fn expanded(p: Seq<char>, home: Seq<char>) -> Seq<char> {
    if is_prefix(home_marker(), p) {
        home + p.drop_first()
    } else {
        p
    }
}

/// `rel` resolved against the directory `base`: an absolute `rel` stands
/// alone, otherwise the two are joined by one separator.
pub open spec fn joined(base: Seq<char>, rel: Seq<char>) -> Seq<char> {
    if rel.len() > 0 && rel[0] == '/' {
        rel
    } else if base.len() == 0 {
        rel
    } else if base.last() == '/' {
        base + rel
    } else {
        base + seq!['/'] + rel
    }
}

/// Replaces a leading `~/` by the home directory. Fails with `Config` when
/// the expansion is needed and no home directory is known.
pub fn expand_home_dir(path_like: &str, home: Option<&str>) -> (r: Result<String, DotError>)
    ensures
        !is_prefix(home_marker(), path_like@) ==> r is Ok && r->Ok_0@ == path_like@,
        is_prefix(home_marker(), path_like@) && home is None ==> r is Err && r->Err_0 is Config,
        is_prefix(home_marker(), path_like@) && home is Some ==> r is Ok && r->Ok_0@ == expanded(
            path_like@,
            home->Some_0@,
        ),
{
    let marker = "~/";
    proof {
        reveal_strlit("~/");
        assert(marker@ == home_marker());
    }
    if starts_with(path_like, marker) {
        match home {
            Some(h) => Ok(replace_first(path_like, h)),
            None => Err(DotError::Config),
        }
    } else {
        Ok(String::from_str(path_like))
    }
}

/// Resolves `rel` against the directory `base`, as a path join does.
pub fn join_path(base: &str, rel: &str) -> (r: String)
    ensures
        r@ == joined(base@, rel@),
{
    let slash = "/";
    proof {
        reveal_strlit("/");
    }
    if starts_with(rel, slash) {
        assert(rel@[0] == rel@.subrange(0, 1)[0]);
        return String::from_str(rel);
    }
    proof {
        if rel@.len() > 0 {
            assert(rel@.subrange(0, 1) =~= seq![rel@[0]]);
        }
    }
    let b = String::from_str(base);
    if base.is_empty() {
        return String::from_str(rel);
    }
    if ends_with_char(base, '/') {
        b.concat(rel)
    } else {
        let r = b.concat(slash).concat(rel);
        assert(slash@ == seq!['/']);
        assert(r@ == base@ + seq!['/'] + rel@);
        r
    }
}

} // verus!
