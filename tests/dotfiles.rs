use dotfiles::{expand_home_dir, join_path, DotError, Dotfiles, Progress, Link, Observation, Outcome, PathKind, SkipReason, Step};

fn link(src: &str, backup: &str) -> Link {
    Link { src_path: src.to_string(), backup_path: backup.to_string() }
}

fn obs(src: PathKind, backup_exists: bool) -> Observation {
    Observation { src, backup_exists }
}

fn s(x: &str) -> String {
    x.to_string()
}

#[test]
fn test_expand_home_dir() {
    let test_home_env = "dotfiles_test_user";
    let test_path = "~/.zshrc";
    let expanded_path = expand_home_dir(test_path, Some(test_home_env)).unwrap();
    assert_eq!(expanded_path, format!("{}/.zshrc", test_home_env), "expand_home_dir failed");
    assert_eq!("./zshrc", expand_home_dir("./zshrc", Some(test_home_env)).unwrap());
}

#[test]
fn expand_without_home_is_config_error() {
    assert_eq!(expand_home_dir("~/.vimrc", None), Err(DotError::Config));
    assert_eq!(expand_home_dir("/etc/hosts", None), Ok(s("/etc/hosts")));
    assert_eq!(expand_home_dir("~x/a", None), Ok(s("~x/a")));
}

#[test]
fn join_rules() {
    assert_eq!(join_path("/root", "a/b"), "/root/a/b");
    assert_eq!(join_path("/root/", "a"), "/root/a");
    assert_eq!(join_path("/root", "/abs"), "/abs");
    assert_eq!(join_path("", "a"), "a");
    assert_eq!(Dotfiles::get_config_path("/d"), "/d/dotfiles.config.json");
}

#[test]
fn link_new_expands_and_joins() {
    let l = Link::new(".vimrc", "~/.vimrc", "/backup/vim", Some("/home/u")).unwrap();
    assert_eq!(l.src_path, "/home/u/.vimrc");
    assert_eq!(l.backup_path, "/backup/vim/.vimrc");
    assert_eq!(Link::new(".vimrc", "~/.vimrc", "/backup/vim", None), Err(DotError::Config));
}

#[test]
fn conflict_nested_rejected() {
    let r = Dotfiles::check_health(&vec![link("/x/y", "/b/a"), link("/x/y/z", "/b/b")]);
    assert!(matches!(r, Err(DotError::Conflict { .. })));
    if let Err(DotError::Conflict { first, second }) = r {
        assert_eq!(first, "/x/y");
        assert_eq!(second, "/x/y/z");
    }
}

#[test]
fn conflict_trailing_separator_rejected() {
    assert!(Dotfiles::check_health(&vec![link("/x/y/", "/b/a"), link("/x/y/z", "/b/b")]).is_err());
    assert!(Dotfiles::check_health(&vec![link("/x/y/z", "/b/a"), link("/x/y/", "/b/b")]).is_err());
    assert!(Dotfiles::check_health(&vec![link("/x/y", "/b/a"), link("/x/y/", "/b/b")]).is_err());
    assert!(Dotfiles::check_health(&vec![link("/", "/b/a"), link("/x", "/c")]).is_err());
    assert_eq!(Dotfiles::check_health(&vec![link("/x/y/", "/b/a"), link("/x/yz", "/b/b")]), Ok(()));
}

#[test]
fn conflict_sibling_accepted() {
    assert_eq!(Dotfiles::check_health(&vec![link("/x/y", "/b/a"), link("/x/yz", "/b/b")]), Ok(()));
    assert!(Dotfiles::from_links(vec![link("/x/y", "/b/a"), link("/x/yz", "/b/b")]).is_ok());
}

#[test]
fn conflict_equal_paths_and_backup_nesting() {
    assert!(Dotfiles::check_health(&vec![link("/x/y", "/b/a"), link("/x/y", "/b/b")]).is_err());
    assert!(Dotfiles::check_health(&vec![link("/x/y", "/b"), link("/x/z", "/b/c")]).is_err());
    assert_eq!(Dotfiles::check_health(&vec![]), Ok(()));
}

#[test]
fn collect_plain_file_plan() {
    let l = link("/tmp/t/.vimrc", "/tmp/backup/.vimrc");
    let r = l.collect(&obs(PathKind::Plain, false));
    assert_eq!(
        r,
        Outcome::Run(vec![
            Step::Copy { from: s("/tmp/t/.vimrc"), to: s("/tmp/backup/.vimrc") },
            Step::Remove { target: s("/tmp/t/.vimrc") },
            Step::Symlink { target: s("/tmp/backup/.vimrc"), link: s("/tmp/t/.vimrc") },
        ])
    );
}

#[test]
fn collect_skips() {
    let l = link("/h/.a", "/b/.a");
    assert_eq!(l.collect(&obs(PathKind::Missing, true)), Outcome::Skip(SkipReason::SourceMissing));
    assert_eq!(
        l.collect(&obs(PathKind::Symlink(s("/b/.a")), true)),
        Outcome::Skip(SkipReason::AlreadyLinked)
    );
    assert_eq!(
        l.collect(&obs(PathKind::Symlink(s("/elsewhere")), false)),
        Outcome::Skip(SkipReason::AlreadyLinked)
    );
}

#[test]
fn collect_twice_second_is_skip() {
    let l = link("/h/.a", "/b/.a");
    assert!(matches!(l.collect(&obs(PathKind::Plain, false)), Outcome::Run(_)));
    assert_eq!(
        l.collect(&obs(PathKind::Symlink(s("/b/.a")), true)),
        Outcome::Skip(SkipReason::AlreadyLinked)
    );
}

#[test]
fn restore_current_link() {
    let l = link("/h/.a", "/b/.a");
    assert_eq!(
        l.restore(&obs(PathKind::Symlink(s("/b/.a")), true), false),
        Outcome::Run(vec![Step::Remove { target: s("/h/.a") }, Step::Copy { from: s("/b/.a"), to: s("/h/.a") }])
    );
    assert_eq!(
        l.restore(&obs(PathKind::Plain, true), false),
        Outcome::Skip(SkipReason::NeedsForce)
    );
}

#[test]
fn restore_stale_link_is_integrity_error() {
    let l = link("/h/.a", "/b/.a");
    for force in [false, true] {
        assert_eq!(
            l.restore(&obs(PathKind::Symlink(s("/other/.a")), true), force),
            Outcome::Fail(DotError::Integrity { path: s("/h/.a"), backup: s("/b/.a") })
        );
    }
}

#[test]
fn restore_forced_overwrites_plain_file() {
    let l = link("/h/.a", "/b/.a");
    assert_eq!(
        l.restore(&obs(PathKind::Plain, true), true),
        Outcome::Run(vec![Step::Remove { target: s("/h/.a") }, Step::Copy { from: s("/b/.a"), to: s("/h/.a") }])
    );
}

#[test]
fn restore_without_backup_or_original() {
    let l = link("/h/.a", "/b/.a");
    assert_eq!(l.restore(&obs(PathKind::Plain, false), true), Outcome::Skip(SkipReason::BackupMissing));
    assert_eq!(
        l.restore(&obs(PathKind::Missing, true), false),
        Outcome::Run(vec![Step::Copy { from: s("/b/.a"), to: s("/h/.a") }])
    );
}

#[test]
fn set_decides_per_entry() {
    let d = Dotfiles::from_links(vec![link("/h/.a", "/b/.a"), link("/h/.b", "/b/.b")]).unwrap();
    assert_eq!(d.len(), 2);
    assert_eq!(d.link(1).src_path, "/h/.b");
    let o = vec![obs(PathKind::Plain, false), obs(PathKind::Missing, false)];
    let r = d.collect(&o);
    assert!(matches!(r[0], Outcome::Run(_)));
    assert_eq!(r[1], Outcome::Skip(SkipReason::SourceMissing));
    let r = d.restore(&o, false);
    assert_eq!(r[0], Outcome::Skip(SkipReason::BackupMissing));
    assert_eq!(r[1], Outcome::Skip(SkipReason::BackupMissing));
}

#[test]
fn read_config_builds_entries() {
    let text = r#"{"vim": {".vimrc": "~/.vimrc"}, "zsh": {"zshrc": "/etc/zshrc"}}"#;
    let d = Dotfiles::read_config(text, "/dots", Some("/home/u")).unwrap();
    assert_eq!(d.len(), 2);
    assert_eq!(d.link(0).src_path, "/home/u/.vimrc");
    assert_eq!(d.link(0).backup_path, "/dots/vim/.vimrc");
    assert_eq!(d.link(1).src_path, "/etc/zshrc");
    assert_eq!(d.link(1).backup_path, "/dots/zsh/zshrc");
}

#[test]
fn read_config_keeps_order_of_text() {
    let text = r#"{"zsh": {"b": "/h/.b", "a": "/h/.a"}, "vim": {"v": "/h/.v"}}"#;
    let d = Dotfiles::read_config(text, "/dots", None).unwrap();
    assert_eq!(d.len(), 3);
    assert_eq!(d.link(0).backup_path, "/dots/zsh/b");
    assert_eq!(d.link(1).backup_path, "/dots/zsh/a");
    assert_eq!(d.link(2).backup_path, "/dots/vim/v");
    assert!(matches!(
        Dotfiles::read_config(r#"{"vim": {"v": 3}}"#, "/dots", None),
        Err(DotError::Config)
    ));
}

#[test]
fn run_stops_at_first_failure() {
    let d = Dotfiles::from_links(vec![link("/h/.a", "/b/.a"), link("/h/.b", "/b/.b"), link("/h/.c", "/b/.c")]).unwrap();
    assert_eq!(d.advance(0, Ok(())), Progress::Next(1));
    assert_eq!(d.advance(2, Ok(())), Progress::Finished);
    let e = DotError::Io { path: s("/h/.b"), step: 1, message: s("denied") };
    assert_eq!(d.advance(1, Err(DotError::Io { path: s("/h/.b"), step: 1, message: s("denied") })), Progress::Stopped(e));
}

#[test]
fn settle_entry_results() {
    let p = s("/h/.a");
    assert_eq!(Outcome::Skip(SkipReason::NeedsForce).settle(&p, None), Ok(()));
    assert_eq!(Outcome::Run(vec![]).settle(&p, None), Ok(()));
    assert_eq!(
        Outcome::Run(vec![Step::Remove { target: s("/h/.a") }]).settle(&p, Some((0, s("busy")))),
        Err(DotError::Io { path: s("/h/.a"), step: 0, message: s("busy") })
    );
    let stale = DotError::Integrity { path: s("/h/.a"), backup: s("/b/.a") };
    assert_eq!(
        Outcome::Fail(DotError::Integrity { path: s("/h/.a"), backup: s("/b/.a") }).settle(&p, None),
        Err(stale)
    );
}

#[test]
fn read_config_errors() {
    assert!(matches!(Dotfiles::read_config("not json", "/dots", None), Err(DotError::Config)));
    assert!(matches!(Dotfiles::read_config("{\"a\": 1}", "/dots", None), Err(DotError::Config)));
    assert!(matches!(
        Dotfiles::read_config(r#"{"vim": {".vimrc": "~/.vimrc"}}"#, "/dots", None),
        Err(DotError::Config)
    ));
    assert!(matches!(
        Dotfiles::read_config(r#"{"a": {"k": "/x/y", "l": "/x/y/z"}}"#, "/dots", None),
        Err(DotError::Conflict { .. })
    ));
    assert_eq!(Dotfiles::read_config("{}", "/dots", None).unwrap().len(), 0);
}
