use rimpub::matcher::{
    IgnoreRuleSet, PROJECT_CONFIG_FILE_NAME, PUBLISH_CONFIG_FILE_NAME, PUBLISH_IGNORE_FILE_NAME,
    VCS_DIRECTORY_NAME, VCS_IGNORE_FILE_NAME,
};
use rimpub::mirror::{
    plan_entry, EntryKind, MirrorAction, MirrorFailure, MirrorOutcome, MirrorReport, WalkEntry,
    WalkItem,
};
use rimpub::replica::{describe, mirror, mirror_items, perform, UNREADABLE_SOURCE};
use rimpub::source::{SourceNode, SourceTree};
use rimpub::tree::{Node, Tree, TreeError};

fn p(parts: &[&str]) -> Vec<String> {
    parts.iter().map(|s| s.to_string()).collect()
}

fn entry(parts: &[&str], kind: EntryKind) -> WalkEntry {
    WalkEntry { relative: p(parts), kind }
}

fn project() -> SourceTree {
    let mut tree = SourceTree::new();
    tree.add(p(&["About"]), SourceNode::Directory, false);
    tree.add(p(&["About", "About.xml"]), SourceNode::File(b"<ModMetaData/>".to_vec()), false);
    tree.add(p(&["Assemblies"]), SourceNode::Directory, false);
    tree.add(p(&["Assemblies", "Mod.dll"]), SourceNode::File(vec![0x4d, 0x5a, 0x90, 0x00]), false);
    tree.add(p(&["Source"]), SourceNode::Directory, true);
    tree.add(p(&["Source", "Mod.cs"]), SourceNode::File(b"class Mod {}".to_vec()), false);
    tree.add(p(&[".git"]), SourceNode::Directory, false);
    tree.add(p(&[".git", "HEAD"]), SourceNode::File(b"ref: refs/heads/main".to_vec()), false);
    tree.add(p(&[".gitignore"]), SourceNode::File(b"Source/\n".to_vec()), false);
    tree.add(p(&[".rimpub-ignore"]), SourceNode::File(b"*.pdb\n".to_vec()), false);
    tree.add(p(&["rimpub.toml"]), SourceNode::File(b"name = \"Custom\"\n".to_vec()), false);
    tree.add(p(&["Mod.pdb"]), SourceNode::File(vec![1, 2, 3]), true);
    tree.add(p(&["Textures"]), SourceNode::Directory, false);
    tree.add(p(&["README.md"]), SourceNode::File(b"# Mod".to_vec()), false);
    tree
}

#[test]
fn the_standard_rule_set_names_every_layer() {
    let rules = IgnoreRuleSet::publishing();
    assert!(rules.vcs_ignore);
    assert!(rules.vcs_exclude);
    assert!(rules.vcs_global);
    assert!(!rules.require_repository);
    assert!(!rules.generic_ignore);
    assert!(!rules.skip_hidden);
    assert_eq!(rules.custom_ignore_filename, ".rimpub-ignore");
    assert_eq!(
        rules.denylist,
        p(&[".git", ".gitignore", ".rimpub-ignore", "rimpub.toml", ".rimpub.toml"])
    );
    assert_eq!(VCS_DIRECTORY_NAME, ".git");
    assert_eq!(VCS_IGNORE_FILE_NAME, ".gitignore");
    assert_eq!(PUBLISH_IGNORE_FILE_NAME, ".rimpub-ignore");
    assert_eq!(PUBLISH_CONFIG_FILE_NAME, "rimpub.toml");
    assert_eq!(PROJECT_CONFIG_FILE_NAME, ".rimpub.toml");
}

#[test]
fn denied_names_are_never_included() {
    let rules = IgnoreRuleSet::publishing();
    for name in [".git", ".gitignore", ".rimpub-ignore", "rimpub.toml", ".rimpub.toml"] {
        assert!(rules.denies(name));
        assert!(!rules.should_include(name, false));
        assert!(!rules.should_include(name, true));
    }
}

#[test]
fn other_names_are_included_unless_a_rule_matches() {
    let rules = IgnoreRuleSet::publishing();
    for name in ["About", "README.md", ".GIT", "rimpub.toml.bak", "git", ""] {
        assert!(!rules.denies(name));
        assert!(rules.should_include(name, false));
        assert!(!rules.should_include(name, true));
    }
}

#[test]
fn a_path_is_denied_by_any_of_its_names() {
    let rules = IgnoreRuleSet::publishing();
    assert!(rules.denies_path(&p(&[".git", "HEAD"])));
    assert!(rules.denies_path(&p(&["sub", ".gitignore"])));
    assert!(rules.denies_path(&p(&["a", ".git", "b", "c"])));
    assert!(!rules.denies_path(&p(&["a", "b", "c"])));
    assert!(!rules.denies_path(&p(&[])));
}

#[test]
fn the_root_of_a_walk_is_never_copied() {
    let rules = IgnoreRuleSet::publishing();
    assert!(matches!(plan_entry(&rules, &entry(&[], EntryKind::Directory)), MirrorAction::Skip));
    assert!(matches!(plan_entry(&rules, &entry(&[], EntryKind::File)), MirrorAction::Skip));
}

#[test]
fn a_directory_is_created_and_a_file_copied_at_the_same_path() {
    let rules = IgnoreRuleSet::publishing();
    match plan_entry(&rules, &entry(&["About"], EntryKind::Directory)) {
        MirrorAction::CreateDirectory(path) => assert_eq!(path, p(&["About"])),
        _ => panic!("a directory is created"),
    }
    match plan_entry(&rules, &entry(&["About", "About.xml"], EntryKind::File)) {
        MirrorAction::CopyFile(path) => assert_eq!(path, p(&["About", "About.xml"])),
        _ => panic!("a file is copied"),
    }
}

#[test]
fn what_is_neither_file_nor_directory_is_skipped() {
    let rules = IgnoreRuleSet::publishing();
    assert!(matches!(
        plan_entry(&rules, &entry(&["link"], EntryKind::Other)),
        MirrorAction::Skip
    ));
}

#[test]
fn an_entry_with_a_denied_name_on_its_path_is_skipped() {
    let rules = IgnoreRuleSet::publishing();
    assert!(matches!(
        plan_entry(&rules, &entry(&[".git"], EntryKind::Directory)),
        MirrorAction::Skip
    ));
    assert!(matches!(
        plan_entry(&rules, &entry(&[".git", "config"], EntryKind::File)),
        MirrorAction::Skip
    ));
    assert!(matches!(
        plan_entry(&rules, &entry(&["sub", "rimpub.toml"], EntryKind::File)),
        MirrorAction::Skip
    ));
}

#[test]
fn a_report_is_clean_until_something_fails() {
    let mut report = MirrorReport::new();
    assert_eq!(report.outcome(), MirrorOutcome::Clean);
    report.record_performed(&MirrorAction::CopyFile(p(&["a"])), None);
    report.record_performed(&MirrorAction::Skip, Some("ignored"));
    assert_eq!(report.outcome(), MirrorOutcome::Clean);
    assert!(report.finish().is_ok());
}

#[test]
fn a_report_keeps_failures_in_order() {
    let mut report = MirrorReport::new();
    report.record_unreadable("broken link");
    report.record_performed(&MirrorAction::CopyFile(p(&["a", "b"])), Some("permission denied"));
    report.record_performed(&MirrorAction::CreateDirectory(p(&["c"])), Some("read-only"));
    assert_eq!(report.outcome(), MirrorOutcome::WithErrors);
    let failures = report.finish().err().unwrap();
    assert_eq!(failures.len(), 3);
    match &failures[0] {
        MirrorFailure::Walk(detail) => assert_eq!(detail, "broken link"),
        _ => panic!("the first failure is of the walk"),
    }
    match &failures[1] {
        MirrorFailure::Filesystem { path, detail } => {
            assert_eq!(path, &p(&["a", "b"]));
            assert_eq!(detail, "permission denied");
        }
        _ => panic!("the second failure is of a copy"),
    }
    match &failures[2] {
        MirrorFailure::Filesystem { path, detail } => {
            assert_eq!(path, &p(&["c"]));
            assert_eq!(detail, "read-only");
        }
        _ => panic!("the third failure is of a directory"),
    }
}

#[test]
fn a_tree_creates_directories_from_the_outside_in() {
    let mut tree = Tree::new();
    assert!(tree.get(&p(&["a"])).is_none());
    assert!(tree.create_dir_all(&p(&["a", "b", "c"])).is_ok());
    assert!(tree.holds_directory(&p(&["a"])));
    assert!(tree.holds_directory(&p(&["a", "b"])));
    assert!(tree.holds_directory(&p(&["a", "b", "c"])));
    assert!(!tree.holds_directory(&p(&["b"])));
    assert!(tree.create_dir_all(&p(&["a", "b"])).is_ok());
    assert!(tree.create_dir_all(&p(&[])).is_ok());
}

#[test]
fn a_tree_creates_nothing_below_a_file() {
    let mut tree = Tree::new();
    assert!(tree.write_file(&p(&["a"]), &vec![1]).is_ok());
    assert_eq!(tree.create_dir_all(&p(&["a", "b"])).err(), Some(TreeError::NotADirectory));
    assert!(tree.get(&p(&["a", "b"])).is_none());
    assert_eq!(tree.create_dir_all(&p(&["x", "y"])).err(), None);
    assert!(tree.write_file(&p(&["x", "f"]), &vec![2]).is_ok());
    assert_eq!(
        tree.create_dir_all(&p(&["x", "f", "deep", "er"])).err(),
        Some(TreeError::NotADirectory)
    );
    assert!(tree.get(&p(&["x", "f", "deep"])).is_none());
}

#[test]
fn a_tree_writes_files_only_into_directories_that_exist() {
    let mut tree = Tree::new();
    assert_eq!(tree.write_file(&p(&[]), &vec![]).err(), Some(TreeError::IsADirectory));
    assert_eq!(tree.write_file(&p(&["a", "f"]), &vec![1]).err(), Some(TreeError::NoParent));
    assert!(tree.create_dir_all(&p(&["a"])).is_ok());
    assert!(tree.write_file(&p(&["a", "f"]), &vec![1, 2]).is_ok());
    assert!(tree.holds_file(&p(&["a", "f"]), &vec![1, 2]));
    assert!(!tree.holds_file(&p(&["a", "f"]), &vec![1]));
    assert!(!tree.holds_file(&p(&["a", "f"]), &vec![1, 3]));
    assert_eq!(tree.write_file(&p(&["a"]), &vec![1]).err(), Some(TreeError::IsADirectory));
    assert_eq!(
        tree.write_file(&p(&["a", "f", "g"]), &vec![1]).err(),
        Some(TreeError::NotADirectory)
    );
}

#[test]
fn a_tree_overwrites_a_file() {
    let mut tree = Tree::new();
    assert!(tree.write_file(&p(&["f"]), &vec![1, 2, 3]).is_ok());
    assert!(tree.write_file(&p(&["f"]), &vec![9]).is_ok());
    assert!(tree.holds_file(&p(&["f"]), &vec![9]));
    match tree.get(&p(&["f"])) {
        Some(Node::File(bytes)) => assert_eq!(bytes, &vec![9]),
        _ => panic!("the file is there"),
    }
}

#[test]
fn refusals_are_put_in_words() {
    assert_eq!(describe(TreeError::NotADirectory), "a file is in the way of a directory");
    assert_eq!(describe(TreeError::IsADirectory), "a directory is in the way of the file");
    assert_eq!(describe(TreeError::NoParent), "the directory for the file does not exist");
    assert_eq!(UNREADABLE_SOURCE, "the file cannot be read");
}

#[test]
fn a_listing_is_a_tree_only_with_parents_first_and_no_duplicates() {
    assert!(SourceTree::new().is_well_formed());
    assert!(project().is_well_formed());

    let mut root_entry = SourceTree::new();
    root_entry.add(p(&[]), SourceNode::Directory, false);
    assert!(!root_entry.is_well_formed());

    let mut twice = SourceTree::new();
    twice.add(p(&["a"]), SourceNode::Directory, false);
    twice.add(p(&["a"]), SourceNode::File(vec![]), false);
    assert!(!twice.is_well_formed());

    let mut orphan = SourceTree::new();
    orphan.add(p(&["a", "b"]), SourceNode::File(vec![]), false);
    assert!(!orphan.is_well_formed());

    let mut child_first = SourceTree::new();
    child_first.add(p(&["a", "b"]), SourceNode::File(vec![]), false);
    child_first.add(p(&["a"]), SourceNode::Directory, false);
    assert!(!child_first.is_well_formed());

    let mut below_file = SourceTree::new();
    below_file.add(p(&["a"]), SourceNode::File(vec![]), false);
    below_file.add(p(&["a", "b"]), SourceNode::File(vec![]), false);
    assert!(!below_file.is_well_formed());
}

#[test]
fn a_walk_leaves_out_what_is_matched_or_denied_and_all_below_it() {
    let rules = IgnoreRuleSet::publishing();
    let tree = project();
    assert!(tree.hides(&rules, &p(&["Source"])));
    assert!(tree.hides(&rules, &p(&["Source", "Mod.cs"])));
    assert!(tree.hides(&rules, &p(&[".git", "HEAD"])));
    assert!(tree.hides(&rules, &p(&["rimpub.toml"])));
    assert!(tree.hides(&rules, &p(&["Mod.pdb"])));
    assert!(!tree.hides(&rules, &p(&["About", "About.xml"])));
    assert!(!tree.hides(&rules, &p(&["Textures"])));

    let items = tree.walk(&rules);
    let mut seen: Vec<Vec<String>> = Vec::new();
    for item in &items {
        match item {
            WalkItem::Entry(e) => seen.push(e.relative.clone()),
            WalkItem::Unreadable(_) => panic!("every entry can be read"),
        }
    }
    assert_eq!(
        seen,
        vec![
            p(&[]),
            p(&["About"]),
            p(&["About", "About.xml"]),
            p(&["Assemblies"]),
            p(&["Assemblies", "Mod.dll"]),
            p(&["Textures"]),
            p(&["README.md"]),
        ]
    );
}

#[test]
fn a_walk_reports_kinds_and_what_it_cannot_read() {
    let rules = IgnoreRuleSet::publishing();
    let mut tree = SourceTree::new();
    tree.add(p(&["d"]), SourceNode::Directory, false);
    tree.add(p(&["f"]), SourceNode::File(vec![1]), false);
    tree.add(p(&["s"]), SourceNode::SealedFile, false);
    tree.add(p(&["l"]), SourceNode::Other, false);
    tree.add(p(&["b"]), SourceNode::Broken("too many levels of links".to_string()), false);
    let items = tree.walk(&rules);
    assert_eq!(items.len(), 6);
    assert!(matches!(&items[0], WalkItem::Entry(e) if e.relative.is_empty() && e.kind == EntryKind::Directory));
    assert!(matches!(&items[1], WalkItem::Entry(e) if e.kind == EntryKind::Directory));
    assert!(matches!(&items[2], WalkItem::Entry(e) if e.kind == EntryKind::File));
    assert!(matches!(&items[3], WalkItem::Entry(e) if e.kind == EntryKind::File));
    assert!(matches!(&items[4], WalkItem::Entry(e) if e.kind == EntryKind::Other));
    assert!(matches!(&items[5], WalkItem::Unreadable(d) if d == "too many levels of links"));
}

#[test]
fn find_gives_what_the_source_holds() {
    let tree = project();
    assert!(matches!(tree.find(&p(&["About"])), Some(SourceNode::Directory)));
    match tree.find(&p(&["README.md"])) {
        Some(SourceNode::File(bytes)) => assert_eq!(bytes, &b"# Mod".to_vec()),
        _ => panic!("the file is listed"),
    }
    assert!(tree.find(&p(&["nothing"])).is_none());
}

#[test]
fn mirror_brings_over_every_included_file_with_its_bytes() {
    let rules = IgnoreRuleSet::publishing();
    let source = project();
    let mut destination = Tree::new();
    assert!(mirror(&source, &mut destination, &rules).is_ok());
    assert!(destination.holds_directory(&p(&["About"])));
    assert!(destination.holds_file(&p(&["About", "About.xml"]), &b"<ModMetaData/>".to_vec()));
    assert!(destination.holds_directory(&p(&["Assemblies"])));
    assert!(destination.holds_file(&p(&["Assemblies", "Mod.dll"]), &vec![0x4d, 0x5a, 0x90, 0x00]));
    assert!(destination.holds_file(&p(&["README.md"]), &b"# Mod".to_vec()));
}

#[test]
fn a_leading_dot_alone_excludes_nothing() {
    let rules = IgnoreRuleSet::publishing();
    let mut source = SourceTree::new();
    source.add(p(&[".editorconfig"]), SourceNode::File(b"root = true".to_vec()), false);
    source.add(p(&[".github"]), SourceNode::Directory, false);
    source.add(p(&[".github", "ci.yml"]), SourceNode::File(vec![1]), false);
    assert!(rules.should_include(".editorconfig", false));
    assert!(!source.hides(&rules, &p(&[".github", "ci.yml"])));
    let mut destination = Tree::new();
    assert!(mirror(&source, &mut destination, &rules).is_ok());
    assert!(destination.holds_file(&p(&[".editorconfig"]), &b"root = true".to_vec()));
    assert!(destination.holds_directory(&p(&[".github"])));
    assert!(destination.holds_file(&p(&[".github", "ci.yml"]), &vec![1]));
}

#[test]
fn mirror_creates_empty_directories() {
    let rules = IgnoreRuleSet::publishing();
    let mut destination = Tree::new();
    assert!(mirror(&project(), &mut destination, &rules).is_ok());
    assert!(destination.holds_directory(&p(&["Textures"])));
}

#[test]
fn mirror_leaves_out_what_the_rules_match() {
    let rules = IgnoreRuleSet::publishing();
    let mut destination = Tree::new();
    assert!(mirror(&project(), &mut destination, &rules).is_ok());
    assert!(destination.get(&p(&["Source"])).is_none());
    assert!(destination.get(&p(&["Source", "Mod.cs"])).is_none());
    assert!(destination.get(&p(&["Mod.pdb"])).is_none());
}

#[test]
fn mirror_never_brings_over_denied_names() {
    let rules = IgnoreRuleSet::publishing();
    let mut destination = Tree::new();
    assert!(mirror(&project(), &mut destination, &rules).is_ok());
    assert!(destination.get(&p(&[".git"])).is_none());
    assert!(destination.get(&p(&[".git", "HEAD"])).is_none());
    assert!(destination.get(&p(&[".gitignore"])).is_none());
    assert!(destination.get(&p(&[".rimpub-ignore"])).is_none());
    assert!(destination.get(&p(&["rimpub.toml"])).is_none());
}

#[test]
fn denied_names_stay_out_even_if_a_walk_yields_them() {
    let rules = IgnoreRuleSet::publishing();
    let mut source = SourceTree::new();
    source.add(p(&[".git"]), SourceNode::Directory, false);
    source.add(p(&[".git", "HEAD"]), SourceNode::File(vec![1]), false);
    source.add(p(&["sub"]), SourceNode::Directory, false);
    source.add(p(&["sub", ".rimpub.toml"]), SourceNode::File(vec![2]), false);
    source.add(p(&["sub", "kept"]), SourceNode::File(vec![3]), false);
    let items = vec![
        WalkItem::Entry(entry(&[".git"], EntryKind::Directory)),
        WalkItem::Entry(entry(&[".git", "HEAD"], EntryKind::File)),
        WalkItem::Entry(entry(&["sub", ".rimpub.toml"], EntryKind::File)),
        WalkItem::Entry(entry(&["sub", "kept"], EntryKind::File)),
    ];
    let mut destination = Tree::new();
    assert!(mirror_items(&items, &source, &mut destination, &rules).is_ok());
    assert!(destination.get(&p(&[".git"])).is_none());
    assert!(destination.get(&p(&[".git", "HEAD"])).is_none());
    assert!(destination.get(&p(&["sub", ".rimpub.toml"])).is_none());
    assert!(destination.holds_directory(&p(&["sub"])));
    assert!(destination.holds_file(&p(&["sub", "kept"]), &vec![3]));
}

#[test]
fn a_file_makes_its_directories_even_if_the_walk_did_not_yield_them() {
    let rules = IgnoreRuleSet::publishing();
    let mut source = SourceTree::new();
    source.add(p(&["a"]), SourceNode::Directory, false);
    source.add(p(&["a", "b"]), SourceNode::Directory, false);
    source.add(p(&["a", "b", "f"]), SourceNode::File(vec![7]), false);
    let items = vec![WalkItem::Entry(entry(&["a", "b", "f"], EntryKind::File))];
    let mut destination = Tree::new();
    assert!(mirror_items(&items, &source, &mut destination, &rules).is_ok());
    assert!(destination.holds_directory(&p(&["a"])));
    assert!(destination.holds_directory(&p(&["a", "b"])));
    assert!(destination.holds_file(&p(&["a", "b", "f"]), &vec![7]));
}

#[test]
fn mirror_overwrites_files_and_keeps_what_it_does_not_touch() {
    let rules = IgnoreRuleSet::publishing();
    let mut destination = Tree::new();
    assert!(destination.write_file(&p(&["README.md"]), &b"old".to_vec()).is_ok());
    assert!(destination.write_file(&p(&["stale.txt"]), &b"stale".to_vec()).is_ok());
    assert!(destination.create_dir_all(&p(&["About"])).is_ok());
    assert!(mirror(&project(), &mut destination, &rules).is_ok());
    assert!(destination.holds_file(&p(&["README.md"]), &b"# Mod".to_vec()));
    assert!(destination.holds_file(&p(&["stale.txt"]), &b"stale".to_vec()));
    assert!(destination.holds_directory(&p(&["About"])));
}

#[test]
fn one_unreadable_file_among_ten_leaves_nine_copied() {
    let rules = IgnoreRuleSet::publishing();
    let mut source = SourceTree::new();
    for i in 0..10u8 {
        let name = format!("file{}.txt", i);
        if i == 4 {
            source.add(vec![name], SourceNode::SealedFile, false);
        } else {
            source.add(vec![name], SourceNode::File(vec![i, i, i]), false);
        }
    }
    let mut destination = Tree::new();
    let failures = mirror(&source, &mut destination, &rules).err().unwrap();
    assert_eq!(failures.len(), 1);
    match &failures[0] {
        MirrorFailure::Filesystem { path, detail } => {
            assert_eq!(path, &p(&["file4.txt"]));
            assert_eq!(detail, "the file cannot be read");
        }
        _ => panic!("the failure is of a copy"),
    }
    for i in 0..10u8 {
        let path = vec![format!("file{}.txt", i)];
        if i == 4 {
            assert!(destination.get(&path).is_none());
        } else {
            assert!(destination.holds_file(&path, &vec![i, i, i]));
        }
    }
}

#[test]
fn what_a_walk_cannot_read_fails_without_stopping_the_rest() {
    let rules = IgnoreRuleSet::publishing();
    let mut source = SourceTree::new();
    source.add(p(&["a"]), SourceNode::File(vec![1]), false);
    source.add(p(&["bad"]), SourceNode::Broken("input/output error".to_string()), false);
    source.add(p(&["z"]), SourceNode::File(vec![2]), false);
    let mut destination = Tree::new();
    let failures = mirror(&source, &mut destination, &rules).err().unwrap();
    assert_eq!(failures.len(), 1);
    assert!(matches!(&failures[0], MirrorFailure::Walk(d) if d == "input/output error"));
    assert!(destination.holds_file(&p(&["a"]), &vec![1]));
    assert!(destination.holds_file(&p(&["z"]), &vec![2]));
}

#[test]
fn a_file_in_the_way_of_a_directory_fails_that_entry_only() {
    let rules = IgnoreRuleSet::publishing();
    let mut source = SourceTree::new();
    source.add(p(&["a"]), SourceNode::Directory, false);
    source.add(p(&["a", "f"]), SourceNode::File(vec![1]), false);
    source.add(p(&["b"]), SourceNode::File(vec![2]), false);
    let mut destination = Tree::new();
    assert!(destination.write_file(&p(&["a"]), &vec![0]).is_ok());
    let failures = mirror(&source, &mut destination, &rules).err().unwrap();
    assert_eq!(failures.len(), 2);
    match &failures[0] {
        MirrorFailure::Filesystem { path, detail } => {
            assert_eq!(path, &p(&["a"]));
            assert_eq!(detail, "a file is in the way of a directory");
        }
        _ => panic!("the directory fails"),
    }
    match &failures[1] {
        MirrorFailure::Filesystem { path, detail } => {
            assert_eq!(path, &p(&["a", "f"]));
            assert_eq!(detail, "a file is in the way of a directory");
        }
        _ => panic!("the file below it fails"),
    }
    assert!(destination.holds_file(&p(&["a"]), &vec![0]));
    assert!(destination.holds_file(&p(&["b"]), &vec![2]));
}

#[test]
fn a_directory_in_the_way_of_a_file_fails_that_entry() {
    let rules = IgnoreRuleSet::publishing();
    let mut source = SourceTree::new();
    source.add(p(&["a"]), SourceNode::File(vec![1]), false);
    let mut destination = Tree::new();
    assert!(destination.create_dir_all(&p(&["a"])).is_ok());
    let failures = mirror(&source, &mut destination, &rules).err().unwrap();
    assert_eq!(failures.len(), 1);
    assert!(matches!(&failures[0], MirrorFailure::Filesystem { detail, .. }
        if detail == "a directory is in the way of the file"));
    assert!(destination.holds_directory(&p(&["a"])));
}

#[test]
fn perform_adds_to_the_report_only_what_failed() {
    let rules = IgnoreRuleSet::publishing();
    let mut source = SourceTree::new();
    source.add(p(&["ok"]), SourceNode::File(vec![1]), false);
    let mut destination = Tree::new();
    let mut report = MirrorReport::new();
    perform(&rules, &source, &mut destination, &mut report,
        &WalkItem::Entry(entry(&["ok"], EntryKind::File)));
    assert_eq!(report.failures.len(), 0);
    perform(&rules, &source, &mut destination, &mut report,
        &WalkItem::Entry(entry(&["missing"], EntryKind::File)));
    assert_eq!(report.failures.len(), 1);
    perform(&rules, &source, &mut destination, &mut report,
        &WalkItem::Unreadable("gone".to_string()));
    assert_eq!(report.failures.len(), 2);
    assert!(destination.holds_file(&p(&["ok"]), &vec![1]));
    assert!(destination.get(&p(&["missing"])).is_none());
}
