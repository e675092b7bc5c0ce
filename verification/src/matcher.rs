//! Which entries of a project are published.
//!
//! An entry stays out of the published copy when any layer of ignore rules
//! matches it, or when its name is one of the few that are never published:
//! the version control directory and its ignore file, the tool's own ignore
//! file and its configuration files. Evaluating ignore patterns is the
//! walker's work; its verdict arrives here as a `bool`.

use vstd::prelude::*;
use crate::paths::names_of;
use crate::text::same_text;

verus! {

/// The directory in which the version control system keeps its data.
pub const VCS_DIRECTORY_NAME: &'static str = ".git";

/// The version control system's ignore file.
pub const VCS_IGNORE_FILE_NAME: &'static str = ".gitignore";

/// The ignore file that lists what a publish leaves out.
pub const PUBLISH_IGNORE_FILE_NAME: &'static str = ".rimpub-ignore";

/// The configuration file that a publish reads in the working directory.
pub const PUBLISH_CONFIG_FILE_NAME: &'static str = "rimpub.toml";

/// The configuration file that `generate` writes in the working directory.
pub const PROJECT_CONFIG_FILE_NAME: &'static str = ".rimpub.toml";

/// The names that are never published.
pub open spec fn standard_denylist() -> Seq<Seq<char>> {
    seq![
        VCS_DIRECTORY_NAME@,
        VCS_IGNORE_FILE_NAME@,
        PUBLISH_IGNORE_FILE_NAME@,
        PUBLISH_CONFIG_FILE_NAME@,
        PROJECT_CONFIG_FILE_NAME@,
    ]
}

/// Whether some name on `path` is in `denylist`.
pub open spec fn path_denied(denylist: Seq<Seq<char>>, path: Seq<Seq<char>>) -> bool {
    exists|k: int| 0 <= k < path.len() && denylist.contains(#[trigger] path[k])
}

/// The sources of exclusion of one walk.
#[derive(Debug)]
pub struct IgnoreRuleSet {
    /// Honour the version control system's ignore files found along the walk.
    pub vcs_ignore: bool,
    /// Honour the exclude file inside the version control directory.
    pub vcs_exclude: bool,
    /// Honour the user's global version control ignore file.
    pub vcs_global: bool,
    /// Honour the version control system's rules only inside a repository.
    pub require_repository: bool,
    /// Honour ignore files that belong to no version control system.
    pub generic_ignore: bool,
    /// Leave out entries whose names begin with a dot.
    pub skip_hidden: bool,
    /// The name of the project's own ignore files, found along the walk.
    pub custom_ignore_filename: String,
    /// Names that are excluded whatever the rule files say.
    pub denylist: Vec<String>,
}

/// What an [`IgnoreRuleSet`] stands for.
pub struct IgnoreRuleSetView {
    pub vcs_ignore: bool,
    pub vcs_exclude: bool,
    pub vcs_global: bool,
    pub require_repository: bool,
    pub generic_ignore: bool,
    pub skip_hidden: bool,
    pub custom_ignore_filename: Seq<char>,
    pub denylist: Seq<Seq<char>>,
}

impl View for IgnoreRuleSet {
    type V = IgnoreRuleSetView;

    open spec fn view(&self) -> IgnoreRuleSetView {
        IgnoreRuleSetView {
            vcs_ignore: self.vcs_ignore,
            vcs_exclude: self.vcs_exclude,
            vcs_global: self.vcs_global,
            require_repository: self.require_repository,
            generic_ignore: self.generic_ignore,
            skip_hidden: self.skip_hidden,
            custom_ignore_filename: self.custom_ignore_filename@,
            denylist: names_of(self.denylist@),
        }
    }
}

/// The rule set of a publish: every layer of rule files of the version
/// control system, whether or not the project lies in a repository, the
/// project's own ignore file name, and the standard denylist. Nothing else
/// excludes an entry: no other kind of ignore file, and no leading dot.
pub open spec fn publishing_rules() -> IgnoreRuleSetView {
    IgnoreRuleSetView {
        vcs_ignore: true,
        vcs_exclude: true,
        vcs_global: true,
        require_repository: false,
        generic_ignore: false,
        skip_hidden: false,
        custom_ignore_filename: PUBLISH_IGNORE_FILE_NAME@,
        denylist: standard_denylist(),
    }
}

/// The version control directory and its ignore file, the tool's ignore
/// file and both of its configuration files are on the standard denylist.
pub proof fn standard_denylist_names()
    ensures
        standard_denylist().contains(VCS_DIRECTORY_NAME@),
        standard_denylist().contains(VCS_IGNORE_FILE_NAME@),
        standard_denylist().contains(PUBLISH_IGNORE_FILE_NAME@),
        standard_denylist().contains(PUBLISH_CONFIG_FILE_NAME@),
        standard_denylist().contains(PROJECT_CONFIG_FILE_NAME@),
{
    assert(standard_denylist()[0] == VCS_DIRECTORY_NAME@);
    assert(standard_denylist()[1] == VCS_IGNORE_FILE_NAME@);
    assert(standard_denylist()[2] == PUBLISH_IGNORE_FILE_NAME@);
    assert(standard_denylist()[3] == PUBLISH_CONFIG_FILE_NAME@);
    assert(standard_denylist()[4] == PROJECT_CONFIG_FILE_NAME@);
}

impl IgnoreRuleSet {
    /// The rule set of a publish.
    pub fn publishing() -> (r: IgnoreRuleSet)
        ensures
            r@ == publishing_rules(),
    {
        let mut denylist: Vec<String> = Vec::new();
        denylist.push(VCS_DIRECTORY_NAME.to_owned());
        denylist.push(VCS_IGNORE_FILE_NAME.to_owned());
        denylist.push(PUBLISH_IGNORE_FILE_NAME.to_owned());
        denylist.push(PUBLISH_CONFIG_FILE_NAME.to_owned());
        denylist.push(PROJECT_CONFIG_FILE_NAME.to_owned());
        assert(names_of(denylist@) =~= standard_denylist());
        IgnoreRuleSet {
            vcs_ignore: true,
            vcs_exclude: true,
            vcs_global: true,
            require_repository: false,
            generic_ignore: false,
            skip_hidden: false,
            custom_ignore_filename: PUBLISH_IGNORE_FILE_NAME.to_owned(),
            denylist,
        }
    }

    /// Whether `name` is on the denylist.
    pub fn denies(&self, name: &str) -> (r: bool)
        ensures
            r == self@.denylist.contains(name@),
    {
        let mut i: usize = 0;
        while i < self.denylist.len()
            invariant
                i <= self.denylist.len(),
                forall|k: int| 0 <= k < i ==> self.denylist@[k]@ != name@,
            decreases self.denylist.len() - i,
        {
            if same_text(self.denylist[i].as_str(), name) {
                assert(names_of(self.denylist@)[i as int] == name@);
                return true;
            }
            i += 1;
        }
        false
    }

    /// Whether an entry called `name` is walked into and published, given
    /// the verdict `matched` of the rule files on it.
    pub fn should_include(&self, name: &str, matched: bool) -> (r: bool)
        ensures
            r == (!matched && !self@.denylist.contains(name@)),
    {
        !matched && !self.denies(name)
    }

    /// Whether some name on `path` is on the denylist.
    pub fn denies_path(&self, path: &Vec<String>) -> (r: bool)
        ensures
            r == path_denied(self@.denylist, names_of(path@)),
    {
        let mut i: usize = 0;
        while i < path.len()
            invariant
                i <= path.len(),
                forall|k: int| 0 <= k < i ==> !self@.denylist.contains(#[trigger] names_of(path@)[k]),
            decreases path.len() - i,
        {
            if self.denies(path[i].as_str()) {
                assert(self@.denylist.contains(names_of(path@)[i as int]));
                return true;
            }
            i += 1;
        }
        false
    }
}

} // verus!
