//! The rules that propose corrected commands, and how their proposals are
//! gathered and ordered.
use crate::cli::command::{CommandView, CorrectedCommand, CorrectedView, CrabCommand, SideEffect};
use crate::shell::Shell;
use crate::text;
use vstd::prelude::*;

pub mod ag_literal;
pub mod apt_get_search;
pub mod apt_list_upgradable;
pub mod apt_upgrade;
pub mod cargo;
pub mod cd_cs;
pub mod cd_parent;
pub mod brew_link;
pub mod brew_uninstall;
pub mod brew_update_formula;
pub mod cpp11;
pub mod django_south_merge;
pub mod docker_login;
pub mod dry;
pub mod fix_alt_space;
pub mod choco_install;
pub mod cp_create_destination;
pub mod docker_image_being_used_by_container;
pub mod apt_get;
pub mod cat_dir;
pub mod git_clone_missing;
pub mod brew_install;
pub mod brew_reinstall;
pub mod cargo_no_command;
pub mod conda_mistype;
pub mod cd_mkdir;
pub mod dirty_untar;
pub mod dirty_unzip;
pub mod chmod_x;
pub mod composer_not_command;
pub mod aws_cli;
pub mod az_cli;
pub mod git_add_force;
pub mod git_branch_delete;
pub mod git_branch_delete_checked_out;
pub mod git_clone;
pub mod git_clone_git_clone;
pub mod git_commit_add;
pub mod git_commit_reset;
pub mod git_main_master;
pub mod git_hook_bypass;
pub mod git_diff_no_index;
pub mod git_help_aliased;
pub mod git_merge;
pub mod git_pull;
pub mod git_not_command;
pub mod git_lfs_mistype;
pub mod git_bisect_usage;
pub mod git_fix_stash;
pub mod git_branch_0flag;
pub mod git_branch_exists;
pub mod git_flag_after_filename;
pub mod git_add;
pub mod git_checkout;
pub mod cd_correction;
pub mod organize;
pub mod utils;

verus! {

/// Which rule a `Rule` is.
#[derive(Debug, Clone, Copy, PartialEq, Eq, Structural)]
pub enum RuleKind {
    AgLiteral,
    AptGetSearch,
    AptListUpgradable,
    AptUpgrade,
    Cargo,
    CdCs,
    CdParent,
    BrewLink,
    BrewUninstall,
    BrewUpdateFormula,
    Cpp11,
    DjangoSouthMerge,
    DockerLogin,
    Dry,
    FixAltSpace,
    ChocoInstall,
    CpCreateDestination,
    DockerImageBeingUsedByContainer,
    AptGet,
    CatDir,
    GitCloneMissing,
    BrewInstall,
    BrewReinstall,
    CargoNoCommand,
    CondaMistype,
    CdMkdir,
    DirtyUntar,
    DirtyUnzip,
    ChmodX,
    ComposerNotCommand,
    AwsCli,
    AzCli,
    GitAddForce,
    GitBranchDelete,
    GitBranchDeleteCheckedOut,
    GitClone,
    GitCloneGitClone,
    GitCommitAdd,
    GitCommitReset,
    GitMainMaster,
    GitHookBypass,
    GitDiffNoIndex,
    GitHelpAliased,
    GitMerge,
    GitPull,
    GitNotCommand,
    GitLfsMistype,
    GitBisectUsage,
    GitFixStash,
    GitBranch0flag,
    GitBranchExists,
    GitFlagAfterFilename,
    GitAdd,
    GitCheckout,
    CdCorrection,
}

/// A rule: its name, settings, and which rule it is.
#[derive(Debug)]
pub struct Rule {
    pub name: String,
    pub enabled_by_default: bool,
    pub priority: u16,
    pub requires_output: bool,
    pub kind: RuleKind,
    pub side_effect: Option<SideEffect>,
}

impl Rule {
    /// A rule; absent settings take their defaults: enabled, priority 1000,
    /// output required.
    pub fn new(
        name: String,
        enabled_by_default: Option<bool>,
        priority: Option<u16>,
        requires_output: Option<bool>,
        kind: RuleKind,
        side_effect: Option<SideEffect>,
    ) -> (r: Rule)
        ensures
            r.name@ == name@,
            r.enabled_by_default == match enabled_by_default {
                Some(b) => b,
                None => true,
            },
            r.priority == match priority {
                Some(p) => p,
                None => 1000,
            },
            r.requires_output == match requires_output {
                Some(b) => b,
                None => true,
            },
            r.kind == kind,
            r.side_effect == side_effect,
    {
        Rule {
            name,
            enabled_by_default: match enabled_by_default {
                Some(b) => b,
                None => true,
            },
            priority: match priority {
                Some(p) => p,
                None => 1000,
            },
            requires_output: match requires_output {
                Some(b) => b,
                None => true,
            },
            kind,
            side_effect,
        }
    }
}

/// What the program around the library found out about the file system, the
/// installed programs, git and the current directory, for the rules that
/// depend on them.
pub struct Facts {
    /// `which` finds the program that the command runs (`apt_get`).
    pub program_found: bool,
    /// `which` finds the command's only word (`git_clone_missing`).
    pub word_found: bool,
    /// The command's second word names a directory (`cat_dir`).
    pub argument_is_dir: bool,
    /// The pathspec that git did not know exists on disk (`git_add`).
    pub pathspec_exists: bool,
    /// The file that the command runs exists (`chmod_x`).
    pub script_exists: bool,
    /// The owner of that file may execute it (`chmod_x`).
    pub script_executable: bool,
    /// The archive that the command unzips can be read and holds more than
    /// one entry (`dirty_unzip`).
    pub zip_spills: bool,
    /// The listing of `git branch -a` (`git_checkout`).
    pub branch_listing: String,
    /// The current directory (`cd_correction`).
    pub current_dir: String,
    /// Directories that were listed (`cd_correction`) ...
    pub listed_dirs: Vec<String>,
    /// ... and, for each, the paths of its subdirectories.
    pub sub_dirs: Vec<Vec<String>>,
}

/// Every kind of rule, in the order in which the rules are tried.
pub open spec fn all_kinds() -> Seq<RuleKind> {
    seq![RuleKind::AgLiteral, RuleKind::AptGet, RuleKind::AptGetSearch, RuleKind::AptListUpgradable, RuleKind::AptUpgrade, RuleKind::AwsCli, RuleKind::AzCli, RuleKind::BrewInstall, RuleKind::BrewLink, RuleKind::BrewReinstall, RuleKind::BrewUninstall, RuleKind::BrewUpdateFormula, RuleKind::Cargo, RuleKind::CargoNoCommand, RuleKind::CatDir, RuleKind::CdCorrection, RuleKind::CdCs, RuleKind::CdMkdir, RuleKind::CdParent, RuleKind::ChmodX, RuleKind::ChocoInstall, RuleKind::ComposerNotCommand, RuleKind::CondaMistype, RuleKind::CpCreateDestination, RuleKind::Cpp11, RuleKind::DirtyUntar, RuleKind::DirtyUnzip, RuleKind::DjangoSouthMerge, RuleKind::DockerImageBeingUsedByContainer, RuleKind::DockerLogin, RuleKind::Dry, RuleKind::FixAltSpace, RuleKind::GitAdd, RuleKind::GitAddForce, RuleKind::GitBisectUsage, RuleKind::GitBranch0flag, RuleKind::GitBranchDelete, RuleKind::GitBranchDeleteCheckedOut, RuleKind::GitBranchExists, RuleKind::GitCheckout, RuleKind::GitClone, RuleKind::GitCloneGitClone, RuleKind::GitCloneMissing, RuleKind::GitCommitAdd, RuleKind::GitCommitReset, RuleKind::GitDiffNoIndex, RuleKind::GitFixStash, RuleKind::GitFlagAfterFilename, RuleKind::GitHelpAliased, RuleKind::GitHookBypass, RuleKind::GitLfsMistype, RuleKind::GitMainMaster, RuleKind::GitMerge, RuleKind::GitNotCommand, RuleKind::GitPull]
}

/// The name of the rule of kind `k`.
pub open spec fn default_name(k: RuleKind) -> Seq<char> {
    match k {
        RuleKind::AgLiteral => "ag_literal"@,
        RuleKind::AptGet => "apt_get"@,
        RuleKind::AptGetSearch => "apt_get_search"@,
        RuleKind::AptListUpgradable => "apt_list_upgradable"@,
        RuleKind::AptUpgrade => "apt_upgrade"@,
        RuleKind::AwsCli => "aws_cli"@,
        RuleKind::AzCli => "az_cli"@,
        RuleKind::BrewInstall => "brew_install"@,
        RuleKind::BrewLink => "brew_link"@,
        RuleKind::BrewReinstall => "brew_reinstall"@,
        RuleKind::BrewUninstall => "brew_uninstall"@,
        RuleKind::BrewUpdateFormula => "brew_update_formula"@,
        RuleKind::Cargo => "cargo"@,
        RuleKind::CargoNoCommand => "cargo_no_command"@,
        RuleKind::CatDir => "cat_dir"@,
        RuleKind::CdCorrection => "cd_correction"@,
        RuleKind::CdCs => "cd_cs"@,
        RuleKind::CdMkdir => "cd_mkdir"@,
        RuleKind::CdParent => "cd_parent"@,
        RuleKind::ChmodX => "chmod_x"@,
        RuleKind::ChocoInstall => "choco_install"@,
        RuleKind::ComposerNotCommand => "composer_not_command"@,
        RuleKind::CondaMistype => "conda_mistype"@,
        RuleKind::CpCreateDestination => "cp_create_destination"@,
        RuleKind::Cpp11 => "cpp11"@,
        RuleKind::DirtyUntar => "tar"@,
        RuleKind::DirtyUnzip => "dirty_unzip"@,
        RuleKind::DjangoSouthMerge => "django_south_merge"@,
        RuleKind::DockerImageBeingUsedByContainer => "docker_image_being_used_by_container"@,
        RuleKind::DockerLogin => "docker_login"@,
        RuleKind::Dry => "dry"@,
        RuleKind::FixAltSpace => "fix_alt_space"@,
        RuleKind::GitAdd => "git_add"@,
        RuleKind::GitAddForce => "git_add_force"@,
        RuleKind::GitBisectUsage => "git_merge"@,
        RuleKind::GitBranch0flag => "git_branch_0flag"@,
        RuleKind::GitBranchDelete => "git_branch_delete"@,
        RuleKind::GitBranchDeleteCheckedOut => "git_branch_delete_checked_out"@,
        RuleKind::GitBranchExists => "git_branch_exists"@,
        RuleKind::GitCheckout => "git_checkout"@,
        RuleKind::GitClone => "git_clone"@,
        RuleKind::GitCloneGitClone => "git_clone_git_clone"@,
        RuleKind::GitCloneMissing => "git_clone_missing"@,
        RuleKind::GitCommitAdd => "git_commit_add"@,
        RuleKind::GitCommitReset => "git_commit_reset"@,
        RuleKind::GitDiffNoIndex => "git_diff_no_index"@,
        RuleKind::GitFixStash => "git_fix_stash"@,
        RuleKind::GitFlagAfterFilename => "git_flag_after_filename"@,
        RuleKind::GitHelpAliased => "git_help_aliased"@,
        RuleKind::GitHookBypass => "git_hook_bypass"@,
        RuleKind::GitLfsMistype => "git_lfs_mistype"@,
        RuleKind::GitMainMaster => "git_main_master"@,
        RuleKind::GitMerge => "git_merge"@,
        RuleKind::GitNotCommand => "git_not_command"@,
        RuleKind::GitPull => "git_pull"@,
    }
}

/// The priority that a rule of kind `k` has.
pub open spec fn default_priority(k: RuleKind) -> u16 {
    match k {
        RuleKind::Dry => 900,
        RuleKind::AptGet => 4000,
        RuleKind::GitHookBypass => 1100,
        RuleKind::GitMainMaster => 1200,
        _ => 1000,
    }
}

/// Whether a rule of kind `k` needs the command's output.
pub open spec fn default_requires_output(k: RuleKind) -> bool {
    k != RuleKind::GitHookBypass
}

/// What must happen before a correction of a rule of kind `k` runs.
pub open spec fn default_side_effect(k: RuleKind) -> Option<SideEffect> {
    match k {
        RuleKind::DirtyUntar => Some(SideEffect::DirtyUntar),
        RuleKind::DirtyUnzip => Some(SideEffect::DirtyUnzip),
        _ => None,
    }
}

/// The rule of kind `k` matches `c`, given the facts `f`.
pub open spec fn kind_matches(k: RuleKind, c: CommandView, f: Facts) -> bool {
    match k {
        RuleKind::AgLiteral => ag_literal::matches(c),
        RuleKind::AptGet => apt_get::matches_given(c, f.program_found),
        RuleKind::AptGetSearch => apt_get_search::matches(c),
        RuleKind::AptListUpgradable => apt_list_upgradable::matches(c),
        RuleKind::AptUpgrade => apt_upgrade::matches(c),
        RuleKind::AwsCli => aws_cli::matches(c),
        RuleKind::AzCli => az_cli::matches(c),
        RuleKind::BrewInstall => brew_install::matches(c),
        RuleKind::BrewLink => brew_link::matches(c),
        RuleKind::BrewReinstall => brew_reinstall::matches(c),
        RuleKind::BrewUninstall => brew_uninstall::matches(c),
        RuleKind::BrewUpdateFormula => brew_update_formula::matches(c),
        RuleKind::Cargo => cargo::matches(c),
        RuleKind::CargoNoCommand => cargo_no_command::matches(c),
        RuleKind::CatDir => cat_dir::matches_given(c, f.argument_is_dir),
        RuleKind::CdCorrection => cd_correction::matches(c),
        RuleKind::CdCs => c.parts.len() > 0 && cd_cs::matches(c),
        RuleKind::CdMkdir => cd_mkdir::matches(c),
        RuleKind::CdParent => cd_parent::matches(c),
        RuleKind::ChmodX => chmod_x::matches_given(c, f.script_exists, f.script_executable),
        RuleKind::ChocoInstall => choco_install::matches(c),
        RuleKind::ComposerNotCommand => composer_not_command::matches(c),
        RuleKind::CondaMistype => conda_mistype::matches(c),
        RuleKind::CpCreateDestination => cp_create_destination::matches(c),
        RuleKind::Cpp11 => cpp11::matches(c),
        RuleKind::DirtyUntar => dirty_untar::matches(c),
        RuleKind::DirtyUnzip => dirty_unzip::matches_given(c, f.zip_spills),
        RuleKind::DjangoSouthMerge => django_south_merge::matches(c),
        RuleKind::DockerImageBeingUsedByContainer => docker_image_being_used_by_container::matches(c),
        RuleKind::DockerLogin => docker_login::matches(c),
        RuleKind::Dry => dry::matches(c),
        RuleKind::FixAltSpace => fix_alt_space::matches(c),
        RuleKind::GitAdd => utils::git::is_git(c) && git_add::matches_given(utils::git::git_expanded(c), f.pathspec_exists),
        RuleKind::GitAddForce => git_add_force::matches(c),
        RuleKind::GitBisectUsage => git_bisect_usage::matches(c),
        RuleKind::GitBranch0flag => git_branch_0flag::matches(c),
        RuleKind::GitBranchDelete => git_branch_delete::matches(c),
        RuleKind::GitBranchDeleteCheckedOut => git_branch_delete_checked_out::matches(c),
        RuleKind::GitBranchExists => git_branch_exists::matches(c),
        RuleKind::GitCheckout => git_checkout::matches(c),
        RuleKind::GitClone => git_clone::matches(c),
        RuleKind::GitCloneGitClone => git_clone_git_clone::matches(c),
        RuleKind::GitCloneMissing => git_clone_missing::matches_given(c, f.word_found),
        RuleKind::GitCommitAdd => git_commit_add::matches(c),
        RuleKind::GitCommitReset => git_commit_reset::matches(c),
        RuleKind::GitDiffNoIndex => git_diff_no_index::matches(c),
        RuleKind::GitFixStash => git_fix_stash::matches(c),
        RuleKind::GitFlagAfterFilename => git_flag_after_filename::matches(c),
        RuleKind::GitHelpAliased => git_help_aliased::matches(c),
        RuleKind::GitHookBypass => git_hook_bypass::matches(c),
        RuleKind::GitLfsMistype => git_lfs_mistype::matches(c),
        RuleKind::GitMainMaster => git_main_master::matches(c),
        RuleKind::GitMerge => git_merge::matches(c),
        RuleKind::GitNotCommand => git_not_command::matches(c),
        RuleKind::GitPull => git_pull::matches(c),
    }
}

/// The corrections of the rule of kind `k` can be computed for `c` (the
/// inputs on which computing them would fail are left out).
pub open spec fn kind_defined(k: RuleKind, c: CommandView, f: Facts) -> bool {
    match k {
        RuleKind::AgLiteral => true,
        RuleKind::AptGet => apt_get::executable_defined(c),
        RuleKind::AptGetSearch => text::is_boundary(c.script, 7),
        RuleKind::AptListUpgradable => true,
        RuleKind::AptUpgrade => true,
        RuleKind::AwsCli => aws_cli::new_commands_defined(c),
        RuleKind::AzCli => az_cli::new_commands_defined(c),
        RuleKind::BrewInstall => brew_install::new_commands_defined(c),
        RuleKind::BrewLink => c.parts.len() > 1,
        RuleKind::BrewReinstall => true,
        RuleKind::BrewUninstall => c.parts.len() > 1,
        RuleKind::BrewUpdateFormula => true,
        RuleKind::Cargo => true,
        RuleKind::CargoNoCommand => cargo_no_command::new_commands_defined(c),
        RuleKind::CatDir => true,
        RuleKind::CdCorrection => cd_correction::new_commands_given(c, f.current_dir@, f.listed_dirs.deep_view(), f.sub_dirs.deep_view()) is Some,
        RuleKind::CdCs => text::is_boundary(c.script, 2),
        RuleKind::CdMkdir => true,
        RuleKind::CdParent => true,
        RuleKind::ChmodX => chmod_x::new_commands_defined(c),
        RuleKind::ChocoInstall => true,
        RuleKind::ComposerNotCommand => true,
        RuleKind::CondaMistype => conda_mistype::new_commands_defined(c),
        RuleKind::CpCreateDestination => c.parts.len() > 0,
        RuleKind::Cpp11 => true,
        RuleKind::DirtyUntar => dirty_untar::new_commands_defined(c),
        RuleKind::DirtyUnzip => dirty_unzip::new_commands_defined(c),
        RuleKind::DjangoSouthMerge => true,
        RuleKind::DockerImageBeingUsedByContainer => c.output is Some,
        RuleKind::DockerLogin => true,
        RuleKind::Dry => c.parts.len() >= 1,
        RuleKind::FixAltSpace => true,
        RuleKind::GitAdd => true,
        RuleKind::GitAddForce => true,
        RuleKind::GitBisectUsage => true,
        RuleKind::GitBranch0flag => true,
        RuleKind::GitBranchDelete => true,
        RuleKind::GitBranchDeleteCheckedOut => true,
        RuleKind::GitBranchExists => true,
        RuleKind::GitCheckout => git_checkout::listing_ok(f.branch_listing@),
        RuleKind::GitClone => true,
        RuleKind::GitCloneGitClone => true,
        RuleKind::GitCloneMissing => true,
        RuleKind::GitCommitAdd => true,
        RuleKind::GitCommitReset => true,
        RuleKind::GitDiffNoIndex => true,
        RuleKind::GitFixStash => true,
        RuleKind::GitFlagAfterFilename => true,
        RuleKind::GitHelpAliased => true,
        RuleKind::GitHookBypass => true,
        RuleKind::GitLfsMistype => true,
        RuleKind::GitMainMaster => true,
        RuleKind::GitMerge => true,
        RuleKind::GitNotCommand => true,
        RuleKind::GitPull => c.output matches Some(o) ==> text::lines(o).len() >= 3,
    }
}

/// The corrections of the rule of kind `k` for `c`.
pub open spec fn kind_new_commands(k: RuleKind, c: CommandView, sh: Shell, f: Facts) -> Seq<Seq<char>> {
    match k {
        RuleKind::AgLiteral => ag_literal::new_commands(c),
        RuleKind::AptGet => apt_get::new_commands(c, sh),
        RuleKind::AptGetSearch => apt_get_search::new_commands(c),
        RuleKind::AptListUpgradable => apt_list_upgradable::new_commands(c),
        RuleKind::AptUpgrade => seq!["apt upgrade"@],
        RuleKind::AwsCli => aws_cli::new_commands(c),
        RuleKind::AzCli => az_cli::new_commands(c),
        RuleKind::BrewInstall => brew_install::new_commands(c),
        RuleKind::BrewLink => brew_link::new_commands(c),
        RuleKind::BrewReinstall => brew_reinstall::new_commands(c),
        RuleKind::BrewUninstall => brew_uninstall::new_commands(c),
        RuleKind::BrewUpdateFormula => brew_update_formula::new_commands(c),
        RuleKind::Cargo => seq!["cargo build"@],
        RuleKind::CargoNoCommand => cargo_no_command::new_commands(c),
        RuleKind::CatDir => cat_dir::new_commands(c),
        RuleKind::CdCorrection => cd_correction::new_commands_given(c, f.current_dir@, f.listed_dirs.deep_view(), f.sub_dirs.deep_view())->0,
        RuleKind::CdCs => cd_cs::new_commands(c),
        RuleKind::CdMkdir => cd_mkdir::new_commands(c),
        RuleKind::CdParent => seq!["cd .."@],
        RuleKind::ChmodX => chmod_x::new_commands(c, sh),
        RuleKind::ChocoInstall => choco_install::new_commands(c),
        RuleKind::ComposerNotCommand => composer_not_command::new_commands(c),
        RuleKind::CondaMistype => conda_mistype::new_commands(c),
        RuleKind::CpCreateDestination => cp_create_destination::new_commands(c, sh),
        RuleKind::Cpp11 => cpp11::new_commands(c),
        RuleKind::DirtyUntar => dirty_untar::new_commands(c, sh),
        RuleKind::DirtyUnzip => dirty_unzip::new_commands(c),
        RuleKind::DjangoSouthMerge => django_south_merge::new_commands(c),
        RuleKind::DockerImageBeingUsedByContainer => docker_image_being_used_by_container::new_commands(c),
        RuleKind::DockerLogin => docker_login::new_commands(c),
        RuleKind::Dry => dry::new_commands(c),
        RuleKind::FixAltSpace => fix_alt_space::new_commands(c),
        RuleKind::GitAdd => if utils::git::is_git(c) { git_add::new_commands_given(utils::git::git_expanded(c), sh, f.pathspec_exists) } else { Seq::<Seq<char>>::empty() },
        RuleKind::GitAddForce => git_add_force::new_commands(c),
        RuleKind::GitBisectUsage => git_bisect_usage::new_commands(c),
        RuleKind::GitBranch0flag => git_branch_0flag::new_commands(c),
        RuleKind::GitBranchDelete => git_branch_delete::new_commands(c, sh),
        RuleKind::GitBranchDeleteCheckedOut => git_branch_delete_checked_out::new_commands(c, sh),
        RuleKind::GitBranchExists => git_branch_exists::new_commands(c, sh),
        RuleKind::GitCheckout => git_checkout::new_commands(c, sh, f.branch_listing@),
        RuleKind::GitClone => git_clone::new_commands(c),
        RuleKind::GitCloneGitClone => git_clone_git_clone::new_commands(c),
        RuleKind::GitCloneMissing => git_clone_missing::new_commands(c),
        RuleKind::GitCommitAdd => git_commit_add::new_commands(c),
        RuleKind::GitCommitReset => git_commit_reset::new_commands(c),
        RuleKind::GitDiffNoIndex => git_diff_no_index::new_commands(c),
        RuleKind::GitFixStash => git_fix_stash::new_commands(c),
        RuleKind::GitFlagAfterFilename => git_flag_after_filename::new_commands(c),
        RuleKind::GitHelpAliased => git_help_aliased::new_commands(c),
        RuleKind::GitHookBypass => git_hook_bypass::new_commands(c),
        RuleKind::GitLfsMistype => git_lfs_mistype::new_commands(c),
        RuleKind::GitMainMaster => git_main_master::new_commands(c),
        RuleKind::GitMerge => git_merge::new_commands(c),
        RuleKind::GitNotCommand => git_not_command::new_commands(c),
        RuleKind::GitPull => git_pull::new_commands(c, sh),
    }
}

/// The corrections that a rule proposes: none when it needs output and there
/// is none, when it does not match, or when its corrections cannot be
/// computed.
pub open spec fn rule_proposals(
    k: RuleKind,
    requires_output: bool,
    c: CommandView,
    sh: Shell,
    f: Facts,
) -> Seq<Seq<char>> {
    if requires_output && c.output is None {
        Seq::<Seq<char>>::empty()
    } else if kind_matches(k, c, f) && kind_defined(k, c, f) {
        kind_new_commands(k, c, sh, f)
    } else {
        Seq::<Seq<char>>::empty()
    }
}

/// The priority of the `n`-th correction (from 0) of a rule of priority `p`:
/// `n + 1` times `p`, at most the largest `u16`.
pub open spec fn priority_at(p: u16, n: int) -> u16 {
    if (n + 1) * p <= 65535 {
        ((n + 1) * p) as u16
    } else {
        65535
    }
}

/// The corrected commands made of a rule's corrections.
pub open spec fn corrected(cmds: Seq<Seq<char>>, side_effect: Option<SideEffect>, p: u16) -> Seq<
    CorrectedView,
> {
    Seq::new(
        cmds.len(),
        |n: int| CorrectedView { script: cmds[n], side_effect: side_effect, priority: priority_at(p, n) },
    )
}

/// The corrected commands that the rules of the kinds `kinds` propose, in
/// turn.
pub open spec fn all_proposals(kinds: Seq<RuleKind>, c: CommandView, sh: Shell, f: Facts) -> Seq<
    CorrectedView,
>
    decreases kinds.len(),
{
    if kinds.len() == 0 {
        Seq::<CorrectedView>::empty()
    } else {
        let k = kinds.last();
        all_proposals(kinds.drop_last(), c, sh, f) + corrected(
            rule_proposals(k, default_requires_output(k), c, sh, f),
            default_side_effect(k),
            default_priority(k),
        )
    }
}

/// The corrected commands for `c`: what every rule proposes, organized.
pub open spec fn corrected_commands(c: CommandView, sh: Shell, f: Facts) -> Seq<CorrectedView> {
    organize::organized(all_proposals(all_kinds(), c, sh, f))
}

fn apt_get_defined(command: &CrabCommand) -> (r: bool)
    ensures
        r == apt_get::executable_defined(command@),
{
    command.script_parts.len() > 0 && (!text::str_eq(command.script_parts[0].as_str(), "sudo")
        || command.script_parts.len() > 1)
}

fn chmod_x_defined(command: &CrabCommand) -> (r: bool)
    ensures
        r == chmod_x::new_commands_defined(command@),
{
    if command.script_parts.len() > 0 {
        assert(command.script_parts.deep_view()[0] == command.script_parts@[0]@);
        text::str_is_boundary(command.script_parts[0].as_str(), 2)
    } else {
        false
    }
}

fn git_pull_defined(command: &CrabCommand) -> (r: bool)
    ensures
        r == (command@.output matches Some(o) ==> text::lines(o).len() >= 3),
{
    match &command.output {
        Some(o) => text::str_lines(o.as_str()).len() >= 3,
        None => true,
    }
}

fn git_add_matches(command: &mut CrabCommand, exists: bool) -> (r: bool)
    ensures
        r == (utils::git::is_git(old(command)@) && git_add::matches_given(
            utils::git::git_expanded(old(command)@),
            exists,
        )),
        *final(command) == *old(command),
{
    if !utils::git::is_git_command(command) {
        return false;
    }
    let expanded = utils::git::expand_git_alias(command);
    git_add::mockable_match_rule(&expanded, Some(exists))
}

fn git_add_new_commands(command: &mut CrabCommand, system_shell: &Shell, exists: bool) -> (r: Vec<
    String,
>)
    ensures
        r.deep_view() == (if utils::git::is_git(old(command)@) {
            git_add::new_commands_given(utils::git::git_expanded(old(command)@), *system_shell, exists)
        } else {
            Seq::<Seq<char>>::empty()
        }),
        *final(command) == *old(command),
{
    if !utils::git::is_git_command(command) {
        return Vec::new();
    }
    let expanded = utils::git::expand_git_alias(command);
    git_add::mockable_get_new_command(&expanded, Some(system_shell), Some(exists))
}

/// The corrections of the rule of kind `kind` for the command, given the
/// facts; none when it does not match or its corrections cannot be computed.
fn kind_proposals(kind: RuleKind, command: &mut CrabCommand, system_shell: &Shell, facts: &Facts) -> (r:
    Vec<String>)
    ensures
        r.deep_view() == (if kind_matches(kind, old(command)@, *facts) && kind_defined(
            kind,
            old(command)@,
            *facts,
        ) {
            kind_new_commands(kind, old(command)@, *system_shell, *facts)
        } else {
            Seq::<Seq<char>>::empty()
        }),
        *final(command) == *old(command),
{
    match kind {
        RuleKind::AgLiteral => {
            if ag_literal::match_rule(command, Some(system_shell)) {
                ag_literal::get_new_command(command, Some(system_shell))
            } else {
                Vec::new()
            }
        },
        RuleKind::AptGet => {
            if apt_get::_match_rule(command, Some(system_shell), Some(facts.program_found)) && apt_get_defined(command) {
                apt_get::get_new_command(command, Some(system_shell))
            } else {
                Vec::new()
            }
        },
        RuleKind::AptGetSearch => {
            if apt_get_search::match_rule(command, Some(system_shell)) && text::str_is_boundary(command.script.as_str(), 7) {
                apt_get_search::get_new_command(command, Some(system_shell))
            } else {
                Vec::new()
            }
        },
        RuleKind::AptListUpgradable => {
            if apt_list_upgradable::match_rule(command, Some(system_shell)) {
                apt_list_upgradable::get_new_command(command, Some(system_shell))
            } else {
                Vec::new()
            }
        },
        RuleKind::AptUpgrade => {
            if apt_upgrade::match_rule(command, Some(system_shell)) {
                apt_upgrade::get_new_command(command, Some(system_shell))
            } else {
                Vec::new()
            }
        },
        RuleKind::AwsCli => {
            if aws_cli::match_rule(command, Some(system_shell)) && aws_cli::new_commands_available(command) {
                aws_cli::get_new_command(command, Some(system_shell))
            } else {
                Vec::new()
            }
        },
        RuleKind::AzCli => {
            if az_cli::match_rule(command, Some(system_shell)) && az_cli::new_commands_available(command) {
                az_cli::get_new_command(command, Some(system_shell))
            } else {
                Vec::new()
            }
        },
        RuleKind::BrewInstall => {
            if brew_install::match_rule(command, Some(system_shell)) && brew_install::new_commands_available(command) {
                brew_install::get_new_command(command, Some(system_shell))
            } else {
                Vec::new()
            }
        },
        RuleKind::BrewLink => {
            if brew_link::match_rule(command, Some(system_shell)) && command.script_parts.len() > 1 {
                brew_link::get_new_command(command, Some(system_shell))
            } else {
                Vec::new()
            }
        },
        RuleKind::BrewReinstall => {
            if brew_reinstall::match_rule(command, Some(system_shell)) {
                brew_reinstall::get_new_command(command, Some(system_shell))
            } else {
                Vec::new()
            }
        },
        RuleKind::BrewUninstall => {
            if brew_uninstall::match_rule(command, Some(system_shell)) && command.script_parts.len() > 1 {
                brew_uninstall::get_new_command(command, Some(system_shell))
            } else {
                Vec::new()
            }
        },
        RuleKind::BrewUpdateFormula => {
            if brew_update_formula::match_rule(command, Some(system_shell)) {
                brew_update_formula::get_new_command(command, Some(system_shell))
            } else {
                Vec::new()
            }
        },
        RuleKind::Cargo => {
            if cargo::match_rule(command, Some(system_shell)) {
                cargo::get_new_command(command, Some(system_shell))
            } else {
                Vec::new()
            }
        },
        RuleKind::CargoNoCommand => {
            if cargo_no_command::match_rule(command, Some(system_shell)) && cargo_no_command::new_commands_available(command) {
                cargo_no_command::get_new_command(command, Some(system_shell))
            } else {
                Vec::new()
            }
        },
        RuleKind::CatDir => {
            if cat_dir::mockable_match_rule(command, Some(system_shell), facts.argument_is_dir) {
                cat_dir::get_new_command(command, Some(system_shell))
            } else {
                Vec::new()
            }
        },
        RuleKind::CdCorrection => {
            if cd_correction::match_rule(command, Some(system_shell)) {
                match cd_correction::get_new_command_given(command, facts.current_dir.as_str(), &facts.listed_dirs, &facts.sub_dirs) {
                    Some(cmds) => cmds,
                    None => Vec::new(),
                }
            } else {
                Vec::new()
            }
        },
        RuleKind::CdCs => {
            if command.script_parts.len() > 0 && cd_cs::match_rule(command, Some(system_shell)) && text::str_is_boundary(command.script.as_str(), 2) {
                cd_cs::get_new_command(command, Some(system_shell))
            } else {
                Vec::new()
            }
        },
        RuleKind::CdMkdir => {
            if cd_mkdir::match_rule(command, Some(system_shell)) {
                cd_mkdir::get_new_command(command, Some(system_shell))
            } else {
                Vec::new()
            }
        },
        RuleKind::CdParent => {
            if cd_parent::match_rule(command, Some(system_shell)) {
                cd_parent::get_new_command(command, Some(system_shell))
            } else {
                Vec::new()
            }
        },
        RuleKind::ChmodX => {
            if chmod_x::match_rule_given(command, facts.script_exists, facts.script_executable) && chmod_x_defined(command) {
                chmod_x::get_new_command(command, Some(system_shell))
            } else {
                Vec::new()
            }
        },
        RuleKind::ChocoInstall => {
            if choco_install::match_rule(command, Some(system_shell)) {
                choco_install::get_new_command(command, Some(system_shell))
            } else {
                Vec::new()
            }
        },
        RuleKind::ComposerNotCommand => {
            if composer_not_command::match_rule(command, Some(system_shell)) {
                composer_not_command::get_new_command(command, Some(system_shell))
            } else {
                Vec::new()
            }
        },
        RuleKind::CondaMistype => {
            if conda_mistype::match_rule(command, Some(system_shell)) && conda_mistype::new_commands_available(command) {
                conda_mistype::get_new_command(command, Some(system_shell))
            } else {
                Vec::new()
            }
        },
        RuleKind::CpCreateDestination => {
            if cp_create_destination::match_rule(command, Some(system_shell)) && command.script_parts.len() > 0 {
                cp_create_destination::get_new_command(command, Some(system_shell))
            } else {
                Vec::new()
            }
        },
        RuleKind::Cpp11 => {
            if cpp11::match_rule(command, Some(system_shell)) {
                cpp11::get_new_command(command, Some(system_shell))
            } else {
                Vec::new()
            }
        },
        RuleKind::DirtyUntar => {
            if dirty_untar::match_rule(command, Some(system_shell)) && dirty_untar::new_commands_available(command) {
                dirty_untar::get_new_command(command, Some(system_shell))
            } else {
                Vec::new()
            }
        },
        RuleKind::DirtyUnzip => {
            if dirty_unzip::match_rule_given(command, facts.zip_spills) && dirty_unzip::new_commands_available(command) {
                dirty_unzip::get_new_command(command, Some(system_shell))
            } else {
                Vec::new()
            }
        },
        RuleKind::DjangoSouthMerge => {
            if django_south_merge::match_rule(command, Some(system_shell)) {
                django_south_merge::get_new_command(command, Some(system_shell))
            } else {
                Vec::new()
            }
        },
        RuleKind::DockerImageBeingUsedByContainer => {
            if docker_image_being_used_by_container::match_rule(command, Some(system_shell)) && command.output.is_some() {
                docker_image_being_used_by_container::get_new_command(command, Some(system_shell))
            } else {
                Vec::new()
            }
        },
        RuleKind::DockerLogin => {
            if docker_login::match_rule(command, Some(system_shell)) {
                docker_login::get_new_command(command, Some(system_shell))
            } else {
                Vec::new()
            }
        },
        RuleKind::Dry => {
            if dry::match_rule(command, Some(system_shell)) && command.script_parts.len() >= 1 {
                dry::get_new_command(command, Some(system_shell))
            } else {
                Vec::new()
            }
        },
        RuleKind::FixAltSpace => {
            if fix_alt_space::match_rule(command, Some(system_shell)) {
                fix_alt_space::get_new_command(command, Some(system_shell))
            } else {
                Vec::new()
            }
        },
        RuleKind::GitAdd => {
            if git_add_matches(command, facts.pathspec_exists) {
                git_add_new_commands(command, system_shell, facts.pathspec_exists)
            } else {
                Vec::new()
            }
        },
        RuleKind::GitAddForce => {
            if git_add_force::match_rule(command, Some(system_shell)) {
                git_add_force::get_new_command(command, Some(system_shell))
            } else {
                Vec::new()
            }
        },
        RuleKind::GitBisectUsage => {
            if git_bisect_usage::match_rule(command, Some(system_shell)) {
                git_bisect_usage::get_new_command(command, Some(system_shell))
            } else {
                Vec::new()
            }
        },
        RuleKind::GitBranch0flag => {
            if git_branch_0flag::match_rule(command, Some(system_shell)) {
                git_branch_0flag::get_new_command(command, Some(system_shell))
            } else {
                Vec::new()
            }
        },
        RuleKind::GitBranchDelete => {
            if git_branch_delete::match_rule(command, Some(system_shell)) {
                git_branch_delete::get_new_command(command, Some(system_shell))
            } else {
                Vec::new()
            }
        },
        RuleKind::GitBranchDeleteCheckedOut => {
            if git_branch_delete_checked_out::match_rule(command, Some(system_shell)) {
                git_branch_delete_checked_out::get_new_command(command, Some(system_shell))
            } else {
                Vec::new()
            }
        },
        RuleKind::GitBranchExists => {
            if git_branch_exists::match_rule(command, Some(system_shell)) {
                git_branch_exists::get_new_command(command, Some(system_shell))
            } else {
                Vec::new()
            }
        },
        RuleKind::GitCheckout => {
            if git_checkout::match_rule(command, Some(system_shell)) && git_checkout::listing_fits(facts.branch_listing.as_str()) {
                git_checkout::get_new_command_given(command, Some(system_shell), facts.branch_listing.as_str())
            } else {
                Vec::new()
            }
        },
        RuleKind::GitClone => {
            if git_clone::match_rule(command, Some(system_shell)) {
                git_clone::get_new_command(command, Some(system_shell))
            } else {
                Vec::new()
            }
        },
        RuleKind::GitCloneGitClone => {
            if git_clone_git_clone::match_rule(command, Some(system_shell)) {
                git_clone_git_clone::get_new_command(command, Some(system_shell))
            } else {
                Vec::new()
            }
        },
        RuleKind::GitCloneMissing => {
            if git_clone_missing::match_rule_given(command, facts.word_found) {
                git_clone_missing::get_new_command(command, Some(system_shell))
            } else {
                Vec::new()
            }
        },
        RuleKind::GitCommitAdd => {
            if git_commit_add::match_rule(command, Some(system_shell)) {
                git_commit_add::get_new_command(command, Some(system_shell))
            } else {
                Vec::new()
            }
        },
        RuleKind::GitCommitReset => {
            if git_commit_reset::match_rule(command, Some(system_shell)) {
                git_commit_reset::get_new_command(command, Some(system_shell))
            } else {
                Vec::new()
            }
        },
        RuleKind::GitDiffNoIndex => {
            if git_diff_no_index::match_rule(command, Some(system_shell)) {
                git_diff_no_index::get_new_command(command, Some(system_shell))
            } else {
                Vec::new()
            }
        },
        RuleKind::GitFixStash => {
            if git_fix_stash::match_rule(command, Some(system_shell)) {
                git_fix_stash::get_new_command(command, Some(system_shell))
            } else {
                Vec::new()
            }
        },
        RuleKind::GitFlagAfterFilename => {
            if git_flag_after_filename::match_rule(command, Some(system_shell)) {
                git_flag_after_filename::get_new_command(command, Some(system_shell))
            } else {
                Vec::new()
            }
        },
        RuleKind::GitHelpAliased => {
            if git_help_aliased::match_rule(command, Some(system_shell)) {
                git_help_aliased::get_new_command(command, Some(system_shell))
            } else {
                Vec::new()
            }
        },
        RuleKind::GitHookBypass => {
            if git_hook_bypass::match_rule(command, Some(system_shell)) {
                git_hook_bypass::get_new_command(command, Some(system_shell))
            } else {
                Vec::new()
            }
        },
        RuleKind::GitLfsMistype => {
            if git_lfs_mistype::match_rule(command, Some(system_shell)) {
                git_lfs_mistype::get_new_command(command, Some(system_shell))
            } else {
                Vec::new()
            }
        },
        RuleKind::GitMainMaster => {
            if git_main_master::match_rule(command, Some(system_shell)) {
                git_main_master::get_new_command(command, Some(system_shell))
            } else {
                Vec::new()
            }
        },
        RuleKind::GitMerge => {
            if git_merge::match_rule(command, Some(system_shell)) {
                git_merge::get_new_command(command, Some(system_shell))
            } else {
                Vec::new()
            }
        },
        RuleKind::GitNotCommand => {
            if git_not_command::match_rule(command, Some(system_shell)) {
                git_not_command::get_new_command(command, Some(system_shell))
            } else {
                Vec::new()
            }
        },
        RuleKind::GitPull => {
            if git_pull::match_rule(command, Some(system_shell)) && git_pull_defined(command) {
                git_pull::get_new_command(command, Some(system_shell))
            } else {
                Vec::new()
            }
        },
    }
}

impl Rule {
    /// Whether the rule matches the command, given the facts: never when the
    /// rule needs output and there is none. Whichever rule it is, the command
    /// is left as it was.
    pub fn is_match(&self, command: &mut CrabCommand, system_shell: &Shell, facts: &Facts) -> (r: bool)
        ensures
            r == (!(self.requires_output && old(command)@.output is None) && kind_matches(
                self.kind,
                old(command)@,
                *facts,
            )),
            *final(command) == *old(command),
    {
        if self.requires_output && command.output.is_none() {
            return false;
        }
        match self.kind {
            RuleKind::AgLiteral => ag_literal::match_rule(command, Some(system_shell)),
            RuleKind::AptGet => apt_get::_match_rule(command, Some(system_shell), Some(facts.program_found)),
            RuleKind::AptGetSearch => apt_get_search::match_rule(command, Some(system_shell)),
            RuleKind::AptListUpgradable => apt_list_upgradable::match_rule(command, Some(system_shell)),
            RuleKind::AptUpgrade => apt_upgrade::match_rule(command, Some(system_shell)),
            RuleKind::AwsCli => aws_cli::match_rule(command, Some(system_shell)),
            RuleKind::AzCli => az_cli::match_rule(command, Some(system_shell)),
            RuleKind::BrewInstall => brew_install::match_rule(command, Some(system_shell)),
            RuleKind::BrewLink => brew_link::match_rule(command, Some(system_shell)),
            RuleKind::BrewReinstall => brew_reinstall::match_rule(command, Some(system_shell)),
            RuleKind::BrewUninstall => brew_uninstall::match_rule(command, Some(system_shell)),
            RuleKind::BrewUpdateFormula => brew_update_formula::match_rule(command, Some(system_shell)),
            RuleKind::Cargo => cargo::match_rule(command, Some(system_shell)),
            RuleKind::CargoNoCommand => cargo_no_command::match_rule(command, Some(system_shell)),
            RuleKind::CatDir => cat_dir::mockable_match_rule(command, Some(system_shell), facts.argument_is_dir),
            RuleKind::CdCorrection => cd_correction::match_rule(command, Some(system_shell)),
            RuleKind::CdCs => command.script_parts.len() > 0 && cd_cs::match_rule(command, Some(system_shell)),
            RuleKind::CdMkdir => cd_mkdir::match_rule(command, Some(system_shell)),
            RuleKind::CdParent => cd_parent::match_rule(command, Some(system_shell)),
            RuleKind::ChmodX => chmod_x::match_rule_given(command, facts.script_exists, facts.script_executable),
            RuleKind::ChocoInstall => choco_install::match_rule(command, Some(system_shell)),
            RuleKind::ComposerNotCommand => composer_not_command::match_rule(command, Some(system_shell)),
            RuleKind::CondaMistype => conda_mistype::match_rule(command, Some(system_shell)),
            RuleKind::CpCreateDestination => cp_create_destination::match_rule(command, Some(system_shell)),
            RuleKind::Cpp11 => cpp11::match_rule(command, Some(system_shell)),
            RuleKind::DirtyUntar => dirty_untar::match_rule(command, Some(system_shell)),
            RuleKind::DirtyUnzip => dirty_unzip::match_rule_given(command, facts.zip_spills),
            RuleKind::DjangoSouthMerge => django_south_merge::match_rule(command, Some(system_shell)),
            RuleKind::DockerImageBeingUsedByContainer => docker_image_being_used_by_container::match_rule(command, Some(system_shell)),
            RuleKind::DockerLogin => docker_login::match_rule(command, Some(system_shell)),
            RuleKind::Dry => dry::match_rule(command, Some(system_shell)),
            RuleKind::FixAltSpace => fix_alt_space::match_rule(command, Some(system_shell)),
            RuleKind::GitAdd => git_add_matches(command, facts.pathspec_exists),
            RuleKind::GitAddForce => git_add_force::match_rule(command, Some(system_shell)),
            RuleKind::GitBisectUsage => git_bisect_usage::match_rule(command, Some(system_shell)),
            RuleKind::GitBranch0flag => git_branch_0flag::match_rule(command, Some(system_shell)),
            RuleKind::GitBranchDelete => git_branch_delete::match_rule(command, Some(system_shell)),
            RuleKind::GitBranchDeleteCheckedOut => git_branch_delete_checked_out::match_rule(command, Some(system_shell)),
            RuleKind::GitBranchExists => git_branch_exists::match_rule(command, Some(system_shell)),
            RuleKind::GitCheckout => git_checkout::match_rule(command, Some(system_shell)),
            RuleKind::GitClone => git_clone::match_rule(command, Some(system_shell)),
            RuleKind::GitCloneGitClone => git_clone_git_clone::match_rule(command, Some(system_shell)),
            RuleKind::GitCloneMissing => git_clone_missing::match_rule_given(command, facts.word_found),
            RuleKind::GitCommitAdd => git_commit_add::match_rule(command, Some(system_shell)),
            RuleKind::GitCommitReset => git_commit_reset::match_rule(command, Some(system_shell)),
            RuleKind::GitDiffNoIndex => git_diff_no_index::match_rule(command, Some(system_shell)),
            RuleKind::GitFixStash => git_fix_stash::match_rule(command, Some(system_shell)),
            RuleKind::GitFlagAfterFilename => git_flag_after_filename::match_rule(command, Some(system_shell)),
            RuleKind::GitHelpAliased => git_help_aliased::match_rule(command, Some(system_shell)),
            RuleKind::GitHookBypass => git_hook_bypass::match_rule(command, Some(system_shell)),
            RuleKind::GitLfsMistype => git_lfs_mistype::match_rule(command, Some(system_shell)),
            RuleKind::GitMainMaster => git_main_master::match_rule(command, Some(system_shell)),
            RuleKind::GitMerge => git_merge::match_rule(command, Some(system_shell)),
            RuleKind::GitNotCommand => git_not_command::match_rule(command, Some(system_shell)),
            RuleKind::GitPull => git_pull::match_rule(command, Some(system_shell)),
        }
    }

    /// The corrections that the rule proposes for the command, given the facts.
    pub fn proposals(&self, command: &mut CrabCommand, system_shell: &Shell, facts: &Facts) -> (r: Vec<
        String,
    >)
        ensures
            r.deep_view() == rule_proposals(
                self.kind,
                self.requires_output,
                old(command)@,
                *system_shell,
                *facts,
            ),
            *final(command) == *old(command),
    {
        if self.requires_output && command.output.is_none() {
            return Vec::new();
        }
        kind_proposals(self.kind, command, system_shell, facts)
    }

    /// The rule's corrections as corrected commands: the `n`-th (from 0) gets
    /// `n + 1` times the rule's priority, and the rule's side effect.
    pub fn get_corrected_commands(&self, command: &mut CrabCommand, system_shell: &Shell, facts: &Facts) -> (r:
        Vec<CorrectedCommand>)
        ensures
            organize::views(r@) == corrected(
                rule_proposals(self.kind, self.requires_output, old(command)@, *system_shell, *facts),
                self.side_effect,
                self.priority,
            ),
            *final(command) == *old(command),
    {
        let cmds = self.proposals(command, system_shell, facts);
        let ghost cv = cmds.deep_view();
        let mut out: Vec<CorrectedCommand> = Vec::new();
        let mut rest = cmds;
        let mut n: usize = 0;
        let total = rest.len();
        while rest.len() > 0
            invariant
                n + rest.len() == total,
                total == cv.len(),
                rest.deep_view() == cv.skip(n as int),
                organize::views(out@) == corrected(cv.take(n as int), self.side_effect, self.priority),
            decreases rest.len(),
        {
            let ghost before_rest = rest.deep_view();
            let script = rest.remove(0);
            assert(rest.deep_view() =~= cv.skip(n + 1)) by {
                assert forall|k: int| 0 <= k < rest.deep_view().len() implies rest.deep_view()[k]
                    == cv.skip(n + 1)[k] by {
                    assert(rest.deep_view()[k] == before_rest[k + 1]);
                }
            }
            assert(script@ == cv[n as int]) by {
                assert(before_rest[0] == cv.skip(n as int)[0]);
            }
            assert((n as int + 1) * (self.priority as int) <= 0x1_0000_0000_0000_0000 * 0x1_0000)
                by (nonlinear_arith)
                requires
                    n < 0x1_0000_0000_0000_0000,
                    self.priority < 0x1_0000,
            ;
            let q: u128 = (n as u128 + 1) * (self.priority as u128);
            let priority: u16 = if q <= 65535 {
                q as u16
            } else {
                65535
            };
            assert(priority == priority_at(self.priority, n as int));
            let item = CorrectedCommand::new(script, self.side_effect, priority);
            let ghost before = organize::views(out@);
            out.push(item);
            assert(organize::views(out@) =~= corrected(cv.take(n + 1), self.side_effect, self.priority)) by {
                assert(organize::views(out@) =~= before.push(item@));
            }
            n = n + 1;
        }
        assert(cv.take(n as int) =~= cv);
        out
    }
}

/// Every rule, in the order in which they are tried.
pub fn get_rules() -> (r: Vec<Rule>)
    ensures
        r@.len() == all_kinds().len(),
        forall|i: int|
            0 <= i < r@.len() ==> (#[trigger] r@[i]).kind == all_kinds()[i] && r@[i].name@
                == default_name(r@[i].kind) && r@[i].enabled_by_default && r@[i].priority == default_priority(r@[i].kind) && r@[i].requires_output
                == default_requires_output(r@[i].kind) && r@[i].side_effect == default_side_effect(
                r@[i].kind,
            ),
{
    let mut rules: Vec<Rule> = Vec::new();
    rules.push(ag_literal::get_rule());
    rules.push(apt_get::get_rule());
    rules.push(apt_get_search::get_rule());
    rules.push(apt_list_upgradable::get_rule());
    rules.push(apt_upgrade::get_rule());
    rules.push(aws_cli::get_rule());
    rules.push(az_cli::get_rule());
    rules.push(brew_install::get_rule());
    rules.push(brew_link::get_rule());
    rules.push(brew_reinstall::get_rule());
    rules.push(brew_uninstall::get_rule());
    rules.push(brew_update_formula::get_rule());
    rules.push(cargo::get_rule());
    rules.push(cargo_no_command::get_rule());
    rules.push(cat_dir::get_rule());
    rules.push(cd_correction::get_rule());
    rules.push(cd_cs::get_rule());
    rules.push(cd_mkdir::get_rule());
    rules.push(cd_parent::get_rule());
    rules.push(chmod_x::get_rule());
    rules.push(choco_install::get_rule());
    rules.push(composer_not_command::get_rule());
    rules.push(conda_mistype::get_rule());
    rules.push(cp_create_destination::get_rule());
    rules.push(cpp11::get_rule());
    rules.push(dirty_untar::get_rule());
    rules.push(dirty_unzip::get_rule());
    rules.push(django_south_merge::get_rule());
    rules.push(docker_image_being_used_by_container::get_rule());
    rules.push(docker_login::get_rule());
    rules.push(dry::get_rule());
    rules.push(fix_alt_space::get_rule());
    rules.push(git_add::get_rule());
    rules.push(git_add_force::get_rule());
    rules.push(git_bisect_usage::get_rule());
    rules.push(git_branch_0flag::get_rule());
    rules.push(git_branch_delete::get_rule());
    rules.push(git_branch_delete_checked_out::get_rule());
    rules.push(git_branch_exists::get_rule());
    rules.push(git_checkout::get_rule());
    rules.push(git_clone::get_rule());
    rules.push(git_clone_git_clone::get_rule());
    rules.push(git_clone_missing::get_rule());
    rules.push(git_commit_add::get_rule());
    rules.push(git_commit_reset::get_rule());
    rules.push(git_diff_no_index::get_rule());
    rules.push(git_fix_stash::get_rule());
    rules.push(git_flag_after_filename::get_rule());
    rules.push(git_help_aliased::get_rule());
    rules.push(git_hook_bypass::get_rule());
    rules.push(git_lfs_mistype::get_rule());
    rules.push(git_main_master::get_rule());
    rules.push(git_merge::get_rule());
    rules.push(git_not_command::get_rule());
    rules.push(git_pull::get_rule());
    assert(rules@.len() == all_kinds().len());
    rules
}

/// The corrected commands for the command: what every rule proposes, given
/// the facts, sorted by priority with each text once.
pub fn get_corrected_commands(command: &mut CrabCommand, system_shell: &Shell, facts: &Facts) -> (r: Vec<
    CorrectedCommand,
>)
    ensures
        organize::views(r@) == corrected_commands(old(command)@, *system_shell, *facts),
        *final(command) == *old(command),
{
    let rules = get_rules();
    let ghost kinds = all_kinds();
    let ghost c = command@;
    let ghost untouched = *command;
    let mut all: Vec<CorrectedCommand> = Vec::new();
    let mut i: usize = 0;
    while i < rules.len()
        invariant
            i <= rules.len(),
            rules@.len() == kinds.len(),
            kinds == all_kinds(),
            command@ == c,
            *command == untouched,
            forall|j: int|
                0 <= j < rules@.len() ==> (#[trigger] rules@[j]).kind == kinds[j]
                    && rules@[j].enabled_by_default && rules@[j].priority == default_priority(
                    rules@[j].kind,
                ) && rules@[j].requires_output == default_requires_output(rules@[j].kind)
                    && rules@[j].side_effect == default_side_effect(rules@[j].kind),
            organize::views(all@) == all_proposals(kinds.take(i as int), c, *system_shell, *facts),
        decreases rules.len() - i,
    {
        let rule = &rules[i];
        let mut found = rule.get_corrected_commands(command, system_shell, facts);
        let ghost before = organize::views(all@);
        let ghost added = organize::views(found@);
        all.append(&mut found);
        assert(organize::views(all@) =~= before + added);
        assert(kinds.take(i + 1).drop_last() =~= kinds.take(i as int));
        assert(kinds.take(i + 1).last() == kinds[i as int]);
        i = i + 1;
    }
    assert(kinds.take(i as int) =~= kinds);
    organize::organize_commands(all)
}

proof fn lemma_proposal_in_all(ks: Seq<RuleKind>, c: CommandView, sh: Shell, f: Facts, i: int, n: int)
    requires
        0 <= i < ks.len(),
        0 <= n < rule_proposals(ks[i], default_requires_output(ks[i]), c, sh, f).len(),
    ensures
        all_proposals(ks, c, sh, f).contains(
            corrected(
                rule_proposals(ks[i], default_requires_output(ks[i]), c, sh, f),
                default_side_effect(ks[i]),
                default_priority(ks[i]),
            )[n],
        ),
    decreases ks.len(),
{
    let init = ks.drop_last();
    let head = all_proposals(init, c, sh, f);
    let k = ks.last();
    let tail = corrected(
        rule_proposals(k, default_requires_output(k), c, sh, f),
        default_side_effect(k),
        default_priority(k),
    );
    let all = all_proposals(ks, c, sh, f);
    assert(all == head + tail);
    if i == ks.len() - 1 {
        assert(all[head.len() + n] == tail[n]);
    } else {
        assert(init[i] == ks[i]);
        lemma_proposal_in_all(init, c, sh, f, i, n);
        let w = choose|w: int| 0 <= w < head.len() && head[w] == corrected(
            rule_proposals(ks[i], default_requires_output(ks[i]), c, sh, f),
            default_side_effect(ks[i]),
            default_priority(ks[i]),
        )[n];
        assert(all[w] == head[w]);
    }
}

proof fn lemma_all_from_rules(ks: Seq<RuleKind>, c: CommandView, sh: Shell, f: Facts, w: int)
    requires
        0 <= w < all_proposals(ks, c, sh, f).len(),
    ensures
        exists|i: int, n: int|
            0 <= i < ks.len() && 0 <= n < rule_proposals(
                ks[i],
                default_requires_output(ks[i]),
                c,
                sh,
                f,
            ).len() && all_proposals(ks, c, sh, f)[w] == #[trigger] corrected(
                rule_proposals(ks[i], default_requires_output(ks[i]), c, sh, f),
                default_side_effect(ks[i]),
                default_priority(ks[i]),
            )[n],
    decreases ks.len(),
{
    let init = ks.drop_last();
    let head = all_proposals(init, c, sh, f);
    let k = ks.last();
    let props = rule_proposals(k, default_requires_output(k), c, sh, f);
    let tail = corrected(props, default_side_effect(k), default_priority(k));
    let all = all_proposals(ks, c, sh, f);
    assert(all == head + tail);
    if w < head.len() {
        lemma_all_from_rules(init, c, sh, f, w);
        let (i, n) = choose|i: int, n: int|
            0 <= i < init.len() && 0 <= n < rule_proposals(
                init[i],
                default_requires_output(init[i]),
                c,
                sh,
                f,
            ).len() && head[w] == #[trigger] corrected(
                rule_proposals(init[i], default_requires_output(init[i]), c, sh, f),
                default_side_effect(init[i]),
                default_priority(init[i]),
            )[n];
        assert(ks[i] == init[i]);
        assert(all[w] == head[w]);
    } else {
        let i = ks.len() - 1;
        let n = w - head.len();
        assert(all[w] == tail[n]);
        assert(ks[i] == k);
    }
}

/// The corrected commands are sorted by priority, lowest first, and no two
/// have the same text; each of them is a correction that some rule proposes,
/// with that rule's side effect and the priority of its place among the
/// rule's corrections; every correction that a rule proposes is offered (as
/// the one of its text with the lowest priority).
pub proof fn lemma_corrected_commands(c: CommandView, sh: Shell, f: Facts)
    ensures
        organize::priorities_sorted(corrected_commands(c, sh, f)),
        forall|i: int, j: int|
            0 <= i < j < corrected_commands(c, sh, f).len() ==> (#[trigger] corrected_commands(
                c,
                sh,
                f,
            )[i]).script != (#[trigger] corrected_commands(c, sh, f)[j]).script,
        forall|w: int|
            0 <= w < corrected_commands(c, sh, f).len() ==> exists|i: int, n: int|
                0 <= i < all_kinds().len() && 0 <= n < rule_proposals(
                    all_kinds()[i],
                    default_requires_output(all_kinds()[i]),
                    c,
                    sh,
                    f,
                ).len() && #[trigger] corrected_commands(c, sh, f)[w] == corrected(
                    rule_proposals(all_kinds()[i], default_requires_output(all_kinds()[i]), c, sh, f),
                    default_side_effect(all_kinds()[i]),
                    default_priority(all_kinds()[i]),
                )[n],
        forall|i: int, n: int|
            0 <= i < all_kinds().len() && 0 <= n < rule_proposals(
                all_kinds()[i],
                default_requires_output(all_kinds()[i]),
                c,
                sh,
                f,
            ).len() ==> organize::has_script(
                corrected_commands(c, sh, f),
                #[trigger] rule_proposals(
                    all_kinds()[i],
                    default_requires_output(all_kinds()[i]),
                    c,
                    sh,
                    f,
                )[n],
            ),
{
    let ks = all_kinds();
    let all = all_proposals(ks, c, sh, f);
    let r = corrected_commands(c, sh, f);
    organize::lemma_organized(all);
    assert forall|w: int| 0 <= w < r.len() implies exists|i: int, n: int|
        0 <= i < ks.len() && 0 <= n < rule_proposals(ks[i], default_requires_output(ks[i]), c, sh, f).len()
            && #[trigger] r[w] == corrected(
            rule_proposals(ks[i], default_requires_output(ks[i]), c, sh, f),
            default_side_effect(ks[i]),
            default_priority(ks[i]),
        )[n] by {
        assert(all.contains(r[w]));
        let v = choose|v: int| 0 <= v < all.len() && all[v] == r[w];
        lemma_all_from_rules(ks, c, sh, f, v);
    }
    assert forall|i: int, n: int|
        0 <= i < ks.len() && 0 <= n < rule_proposals(ks[i], default_requires_output(ks[i]), c, sh, f).len()
        implies organize::has_script(
        r,
        #[trigger] rule_proposals(ks[i], default_requires_output(ks[i]), c, sh, f)[n],
    ) by {
        lemma_proposal_in_all(ks, c, sh, f, i, n);
        let x = corrected(
            rule_proposals(ks[i], default_requires_output(ks[i]), c, sh, f),
            default_side_effect(ks[i]),
            default_priority(ks[i]),
        )[n];
        let v = choose|v: int| 0 <= v < all.len() && all[v] == x;
        assert(organize::has_script(r, all[v].script));
    }
}

} // verus!
