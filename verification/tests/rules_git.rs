use ohcrab::cli::command::CrabCommand;
use ohcrab::rules::{
    git_add, git_add_force, git_bisect_usage, git_branch_0flag, git_branch_delete,
    git_branch_delete_checked_out, git_branch_exists, git_checkout, git_clone, git_clone_git_clone,
    git_commit_add, git_commit_reset, git_diff_no_index, git_fix_stash, git_flag_after_filename,
    git_help_aliased, git_hook_bypass, git_lfs_mistype, git_main_master, git_merge, git_not_command,
    git_pull,
};
use ohcrab::shell::Shell;

fn with_stdout(script: &str, stdout: &str) -> CrabCommand {
    CrabCommand::new(script.to_owned(), Some(stdout.to_owned()), None)
}

fn pathspec_error(target: &str) -> String {
    format!("error: pathspec '{}' did not match any file(s) known to git.", target)
}

#[test]
fn git_add_cases() {
    for script in ["git submodule update unknown", "git commit unknown"] {
        let command = with_stdout(script, &pathspec_error("unknown"));
        assert!(git_add::mockable_match_rule(&command, Some(true)));
        assert!(!git_add::mockable_match_rule(&command, Some(false)));
    }
    assert_eq!(
        git_add::mockable_get_new_command(
            &with_stdout("git submodule update unknown", &pathspec_error("unknown")),
            Some(&Shell::Bash),
            Some(true)
        )[0],
        "git add -- unknown && git submodule update unknown"
    );
    assert_eq!(
        git_add::mockable_get_new_command(
            &with_stdout("git commit unknown", &pathspec_error("unknown")),
            Some(&Shell::Bash),
            Some(true)
        )[0],
        "git add -- unknown && git commit unknown"
    );
    assert!(!git_add::match_rule(&mut with_stdout("ls unknown", &pathspec_error("unknown")), None));
}

const ADD_FORCE_OUTPUT: &str = "The following paths are ignored by one of your .gitignore files:\n\
dist/app.js\n\
dist/background.js\n\
dist/options.js\n\
Use -f if you really want to add them.\n";

#[test]
fn git_add_force_cases() {
    assert!(git_add_force::match_rule(&mut with_stdout("git add dist/*.js", ADD_FORCE_OUTPUT), None));
    assert!(!git_add_force::match_rule(&mut with_stdout("git add dist/*.js", ""), None));
    assert_eq!(
        git_add_force::get_new_command(&mut with_stdout("git add dist/*.js", ADD_FORCE_OUTPUT), None),
        vec!["git add --force dist/*.js"]
    );
}

const BISECT_OUTPUT: &str =
    "usage: git bisect [help|start|bad|good|new|old|terms|skip|next|reset|visualize|replay|log|run]";

#[test]
fn git_bisect_usage_cases() {
    for script in ["git bisect strt", "git bisect rset", "git bisect goood"] {
        assert!(git_bisect_usage::match_rule(&mut with_stdout(script, BISECT_OUTPUT), None));
    }
    for script in ["git bisect", "git bisect start", "git bisect good"] {
        assert!(!git_bisect_usage::match_rule(&mut with_stdout(script, ""), None));
    }
    assert_eq!(
        git_bisect_usage::get_new_command(&mut with_stdout("git bisect goood", BISECT_OUTPUT), Some(&Shell::Bash)),
        vec!["git bisect good", "git bisect old", "git bisect bad"]
    );
    assert_eq!(git_bisect_usage::get_rule().name, "git_merge");
}

const BRANCH_EXISTS_0FLAG: &str = "fatal: A branch named 'bar' already exists.";

#[test]
fn git_branch_0flag_cases() {
    for script in [
        "git branch 0a",
        "git branch 0d",
        "git branch 0f",
        "git branch 0r",
        "git branch 0v",
        "git branch 0d foo",
        "git branch 0D foo",
    ] {
        assert!(git_branch_0flag::match_rule(&mut with_stdout(script, BRANCH_EXISTS_0FLAG), None), "{}", script);
    }
    for script in ["git branch -a", "git branch -r", "git branch -v", "git branch -d foo", "git branch -D foo"] {
        assert!(!git_branch_0flag::match_rule(&mut with_stdout(script, ""), None), "{}", script);
    }
    for (script, expected) in [
        ("git branch 0a", vec!["git branch -D 0a", "git branch -a"]),
        ("git branch 0v", vec!["git branch -D 0v", "git branch -v"]),
        ("git branch 0d foo", vec!["git branch -D 0d", "git branch -d foo"]),
        ("git branch 0D foo", vec!["git branch -D 0D", "git branch -D foo"]),
        ("git branch 0l 'maint-*'", vec!["git branch -D 0l", "git branch -l 'maint-*'"]),
        ("git branch 0u upstream", vec!["git branch -D 0u", "git branch -u upstream"]),
    ] {
        assert_eq!(
            git_branch_0flag::get_new_command(&mut with_stdout(script, BRANCH_EXISTS_0FLAG), Some(&Shell::Bash)),
            expected
        );
    }
    assert_eq!(
        git_branch_0flag::get_new_command(&mut with_stdout("git branch 0a", ""), None),
        vec!["git branch -a"]
    );
}

#[test]
fn git_branch_delete_cases() {
    let output = "error: The branch 'foo' is not fully merged.\nIf you are sure you want to delete it, run 'git branch -D foo'.";
    assert!(git_branch_delete::match_rule(&mut with_stdout("git branch -d foo", output), None));
    assert!(!git_branch_delete::match_rule(&mut with_stdout("git branch -d foo", ""), None));
    assert!(!git_branch_delete::match_rule(&mut with_stdout("git commit", output), None));
    assert_eq!(
        git_branch_delete::get_new_command(&mut with_stdout("git branch -d foo", output), None),
        vec!["git branch -D foo"]
    );
}

#[test]
fn git_branch_delete_branch_list_cases() {
    for (script, is_match) in [
        ("git branch list", true),
        ("", false),
        ("git commit", false),
        ("git branch", false),
        ("git stash list", false),
    ] {
        assert_eq!(git_branch_delete::match_rule(&mut with_stdout(script, ""), None), is_match);
    }
    assert_eq!(
        git_branch_delete::get_new_command(&mut with_stdout("git branch list", ""), Some(&Shell::Bash)),
        vec!["git branch --delete list && git branch"]
    );
    assert_eq!(
        git_branch_delete::get_new_command(&mut with_stdout("git branch list", ""), Some(&Shell::Fish)),
        vec!["git branch --delete list; and git branch"]
    );
}

const CHECKED_OUT: &str = "error: Cannot delete branch 'foo' checked out at '/bar/foo'";

#[test]
fn git_branch_delete_checked_out_cases() {
    assert!(git_branch_delete_checked_out::match_rule(&mut with_stdout("git branch -d foo", CHECKED_OUT), None));
    assert!(git_branch_delete_checked_out::match_rule(&mut with_stdout("git branch -D foo", CHECKED_OUT), None));
    assert!(!git_branch_delete_checked_out::match_rule(
        &mut with_stdout("git branch -d foo", "Deleted branch foo (was a1b2c3d)."),
        None
    ));
    assert!(!git_branch_delete_checked_out::match_rule(
        &mut with_stdout("git branch -D foo", "Deleted branch foo (was a1b2c3d)."),
        None
    ));
    for script in ["git branch -d foo", "git branch -D foo"] {
        assert_eq!(
            git_branch_delete_checked_out::get_new_command(&mut with_stdout(script, CHECKED_OUT), Some(&Shell::Bash)),
            vec!["git checkout master && git branch -D foo"]
        );
    }
}

#[test]
fn git_branch_exists_cases() {
    let template = "fatal: A branch named '#' already exists.";
    for (script, src) in [
        ("git branch foo", "foo"),
        ("git checkout bar", "bar"),
        ("git checkout -b \"let's-push-this\"", "\"let's-push-this\""),
    ] {
        assert!(git_branch_exists::match_rule(&mut with_stdout(script, &template.replace('#', src)), None));
        assert!(!git_branch_exists::match_rule(&mut with_stdout(script, ""), None));
    }
    for (script, src, branch) in [
        ("git branch foo", "foo", "foo"),
        ("git checkout bar", "bar", "bar"),
        ("git checkout -b \"let's-push-this\"", "let's-push-this", "let\\'s-push-this"),
    ] {
        let expected: Vec<String> = [
            "git branch -d # && git branch #",
            "git branch -d # && git checkout -b #",
            "git branch -D # && git branch #",
            "git branch -D # && git checkout -b #",
            "git checkout #",
        ]
        .iter()
        .map(|s| s.replace('#', branch))
        .collect();
        let mut command = with_stdout(script, &template.replace('#', src));
        assert_eq!(git_branch_exists::get_new_command(&mut command, Some(&Shell::Bash)), expected);
    }
}

fn did_not_match(target: &str, did_you_forget: bool) -> String {
    let mut error = format!("error: pathspec '{}' did not match any file(s) known to git.", target);
    if did_you_forget {
        error = format!("{}\nDid you forget to 'git add'?'", error);
    }
    error
}

#[test]
fn git_checkout_cases() {
    assert!(git_checkout::match_rule(&mut with_stdout("git checkout unknown", &did_not_match("unknown", false)), None));
    assert!(git_checkout::match_rule(&mut with_stdout("git commit unknown", &did_not_match("unknown", false)), None));
    assert!(!git_checkout::match_rule(
        &mut with_stdout("git submodule update unknown", &did_not_match("unknown", true)),
        None
    ));
    assert!(!git_checkout::match_rule(&mut with_stdout("git checkout known", ""), None));
    assert!(!git_checkout::match_rule(&mut with_stdout("git commit known", ""), None));
}

#[test]
fn git_checkout_branches() {
    let cases: Vec<(&str, Vec<&str>)> = vec![
        ("", vec![]),
        ("* master", vec!["master"]),
        ("  remotes/origin/master", vec!["master"]),
        ("  remotes/origin/test/1", vec!["test/1"]),
        ("  remotes/origin/test/1/2/3", vec!["test/1/2/3"]),
        ("  test/1", vec!["test/1"]),
        ("  test/1/2/3", vec!["test/1/2/3"]),
        ("  remotes/origin/HEAD -> origin/master", vec![]),
        ("  just-another-branch", vec!["just-another-branch"]),
        ("* master\n  just-another-branch", vec!["master", "just-another-branch"]),
        (
            "* master\n  remotes/origin/master\n  just-another-branch",
            vec!["master", "master", "just-another-branch"],
        ),
    ];
    for (listing, expected) in cases {
        assert_eq!(git_checkout::get_branches(listing), expected);
    }
}

#[test]
fn git_checkout_new_commands() {
    let cases: Vec<(&str, &str, String, Vec<&str>)> = vec![
        ("", "git checkout unknown", did_not_match("unknown", false), vec!["git checkout -b unknown"]),
        ("", "git commit unknown", did_not_match("unknown", false), vec!["git branch unknown && git commit unknown"]),
        (
            "  test-random-branch-123",
            "git checkout tst-rdm-brnch-123",
            did_not_match("tst-rdm-brnch-123", false),
            vec!["git checkout test-random-branch-123", "git checkout -b tst-rdm-brnch-123"],
        ),
        (
            "  test-random-branch-123",
            "git commit tst-rdm-brnch-123",
            did_not_match("tst-rdm-brnch-123", false),
            vec!["git commit test-random-branch-123"],
        ),
    ];
    for (branches, script, output, expected) in cases {
        let command = with_stdout(script, &output);
        assert_eq!(git_checkout::mockable_get_new_command(&command, Some(&Shell::Bash), branches), expected);
        assert_eq!(git_checkout::get_new_command_given(&command, Some(&Shell::Bash), branches), expected);
    }
}

const CLONE_OUTPUT: &str = "\nfatal: Too many arguments.\n\nusage: git clone [<options>] [--] <repo> [<dir>]\n";

#[test]
fn git_clone_cases() {
    assert!(git_clone::match_rule(&mut with_stdout("git clone git clone foo", CLONE_OUTPUT), None));
    assert!(!git_clone::match_rule(&mut with_stdout("", ""), None));
    assert!(!git_clone::match_rule(&mut with_stdout("git branch", ""), None));
    assert!(!git_clone::match_rule(&mut with_stdout("git clone foo", ""), None));
    assert!(!git_clone::match_rule(&mut with_stdout("git clone foo bar baz", CLONE_OUTPUT), None));
    assert_eq!(
        git_clone::get_new_command(&mut with_stdout("git clone git clone foo", CLONE_OUTPUT), None),
        vec!["git clone foo"]
    );
    assert!(git_clone_git_clone::match_rule(&mut with_stdout("git clone git clone foo", CLONE_OUTPUT), None));
    assert!(!git_clone_git_clone::match_rule(&mut with_stdout("git clone foo", ""), None));
    assert!(!git_clone_git_clone::match_rule(&mut with_stdout("git clone foo bar baz", CLONE_OUTPUT), None));
    assert_eq!(
        git_clone_git_clone::get_new_command(&mut with_stdout("git clone git clone foo", CLONE_OUTPUT), Some(&Shell::Bash)),
        vec!["git clone foo"]
    );
}

#[test]
fn git_commit_add_cases() {
    assert!(git_commit_add::match_rule(&mut with_stdout("git commit -m \"test\"", "no changes added to commit"), None));
    assert!(git_commit_add::match_rule(&mut with_stdout("git commit", "no changes added to commit"), None));
    for (script, output) in [
        ("git commit -m \"test\"", " 1 file changed, 15 insertions(+), 14 deletions(-)"),
        ("git branch foo", ""),
        ("git checkout feature/test_commit", ""),
        ("git push", ""),
    ] {
        assert!(!git_commit_add::match_rule(&mut with_stdout(script, output), None));
    }
    assert_eq!(
        git_commit_add::get_new_command(&mut CrabCommand::new("git commit".to_owned(), None, None), None),
        vec!["git commit -a", "git commit -p"]
    );
    assert_eq!(
        git_commit_add::get_new_command(&mut CrabCommand::new("git commit -m \"foo\"".to_owned(), None, None), None),
        vec!["git commit -a -m \"foo\"", "git commit -p -m \"foo\""]
    );
}

#[test]
fn git_commit_reset_cases() {
    assert!(git_commit_reset::match_rule(&mut with_stdout("git commit -m \"test\"", "test output"), None));
    assert!(git_commit_reset::match_rule(&mut with_stdout("git commit", ""), None));
    for script in ["git branch foo", "git checkout feature/test_commit", "git push"] {
        assert!(!git_commit_reset::match_rule(&mut with_stdout(script, ""), None));
    }
    assert_eq!(
        git_commit_reset::get_new_command(&mut with_stdout("git commit -m \"test commit\"", ""), None),
        vec!["git reset HEAD~"]
    );
}

#[test]
fn git_diff_no_index_cases() {
    assert!(git_diff_no_index::match_rule(&mut with_stdout("git diff foo bar", ""), None));
    assert!(!git_diff_no_index::match_rule(&mut with_stdout("git diff --no-index foo bar", ""), None));
    assert!(!git_diff_no_index::match_rule(&mut with_stdout("git diff foo", ""), None));
    assert!(!git_diff_no_index::match_rule(&mut with_stdout("git diff foo bar baz", ""), None));
    assert_eq!(
        git_diff_no_index::get_new_command(&mut with_stdout("git diff foo bar", ""), None),
        vec!["git diff --no-index foo bar"]
    );
}

const GIT_STASH_ERR: &str = "\
usage: git stash list [<options>]
   or: git stash show [<stash>]
   or: git stash drop [-q|--quiet] [<stash>]
   or: git stash ( pop | apply ) [--index] [-q|--quiet] [<stash>]
   or: git stash branch <branchname> [<stash>]
   or: git stash [save [--patch] [-k|--[no-]keep-index] [-q|--quiet]
\t\t       [-u|--include-untracked] [-a|--all] [<message>]]
   or: git stash clear
";

#[test]
fn git_fix_stash_cases() {
    assert!(git_fix_stash::match_rule(&mut with_stdout("git stash opp", GIT_STASH_ERR), None));
    assert!(git_fix_stash::match_rule(&mut with_stdout("git stash Some message", GIT_STASH_ERR), None));
    assert!(git_fix_stash::match_rule(&mut with_stdout("git stash saev Some message", GIT_STASH_ERR), None));
    assert!(!git_fix_stash::match_rule(&mut with_stdout("git", GIT_STASH_ERR), None));
    assert_eq!(git_fix_stash::get_new_command(&mut with_stdout("git stash opp", GIT_STASH_ERR), None), vec!["git stash pop"]);
    assert_eq!(
        git_fix_stash::get_new_command(&mut with_stdout("git stash Some message", GIT_STASH_ERR), None),
        vec!["git stash save Some message"]
    );
    assert_eq!(
        git_fix_stash::get_new_command(&mut with_stdout("git stash saev Some message", GIT_STASH_ERR), None),
        vec!["git stash save Some message"]
    );
}

#[test]
fn git_flag_after_filename_cases() {
    for (script, output, is_match) in [
        ("git log README.md -p", "fatal: bad flag '-p' used after filename", true),
        ("git log README.md -p CONTRIBUTING.md", "fatal: bad flag '-p' used after filename", true),
        ("git log -p README.md --name-only", "fatal: bad flag '--name-only' used after filename", true),
        ("git log README.md -p", "fatal: option '-p' must come before non-option arguments", true),
        ("git log README.md -p CONTRIBUTING.md", "fatal: option '-p' must come before non-option arguments", true),
        ("git log -p README.md --name-only", "fatal: option '--name-only' must come before non-option arguments", true),
        ("git log README.md", "", false),
        ("git log -p README.md", "", false),
    ] {
        assert_eq!(git_flag_after_filename::match_rule(&mut with_stdout(script, output), None), is_match, "{}", script);
    }
    for (script, output, expected) in [
        ("git log README.md -p", "fatal: bad flag '-p' used after filename", "git log -p README.md"),
        ("git log README.md -p CONTRIBUTING.md", "fatal: bad flag '-p' used after filename", "git log -p README.md CONTRIBUTING.md"),
        ("git log -p README.md --name-only", "fatal: bad flag '--name-only' used after filename", "git log -p --name-only README.md"),
        ("git log README.md -p", "fatal: option '-p' must come before non-option arguments", "git log -p README.md"),
        (
            "git log README.md -p CONTRIBUTING.md",
            "fatal: option '-p' must come before non-option arguments",
            "git log -p README.md CONTRIBUTING.md",
        ),
        (
            "git log -p README.md --name-only",
            "fatal: option '--name-only' must come before non-option arguments",
            "git log -p --name-only README.md",
        ),
    ] {
        assert_eq!(
            git_flag_after_filename::get_new_command(&mut with_stdout(script, output), Some(&Shell::Bash)),
            vec![expected]
        );
    }
}

#[test]
fn git_help_aliased_cases() {
    assert!(git_help_aliased::match_rule(&mut with_stdout("git help st", "`git st' is aliased to `status'"), None));
    assert!(git_help_aliased::match_rule(&mut with_stdout("git help ds", "`git ds' is aliased to `diff --staged'"), None));
    assert!(!git_help_aliased::match_rule(&mut with_stdout("git help status", "GIT-STATUS(1)...Git Manual...GIT-STATUS(1)"), None));
    assert!(!git_help_aliased::match_rule(&mut with_stdout("git help diff", "GIT-DIFF(1)...Git Manual...GIT-DIFF(1)"), None));
    assert_eq!(
        git_help_aliased::get_new_command(&mut with_stdout("git help st", "`git st' is aliased to `status'"), None),
        vec!["git help status"]
    );
    assert_eq!(
        git_help_aliased::get_new_command(&mut with_stdout("git help ds", "`git ds' is aliased to `diff --staged'"), None),
        vec!["git help diff"]
    );
}

#[test]
fn git_hook_bypass_cases() {
    for script in ["git am", "git commit", "git commit -m 'foo bar'", "git push", "git push -u foo bar"] {
        assert!(git_hook_bypass::match_rule(&mut with_stdout(script, ""), None), "{}", script);
    }
    for script in ["git add foo", "git status", "git diff foo bar"] {
        assert!(!git_hook_bypass::match_rule(&mut with_stdout(script, ""), None), "{}", script);
    }
    for (script, expected) in [
        ("git am", "git am --no-verify"),
        ("git commit", "git commit --no-verify"),
        ("git commit -m 'foo bar'", "git commit --no-verify -m 'foo bar'"),
        ("git push", "git push --no-verify"),
        ("git push -p", "git push --no-verify -p"),
    ] {
        assert_eq!(git_hook_bypass::get_new_command(&mut with_stdout(script, ""), Some(&Shell::Bash)), vec![expected]);
    }
    let rule = git_hook_bypass::get_rule();
    assert_eq!(rule.priority, 1100);
    assert!(!rule.requires_output);
}

const LFS_MISTYPE: &str = "Error: unknown command \"evn\" for \"git-lfs\"\n\nDid you mean this?\n        env\n        ext\n\nRun 'git-lfs --help' for usage.\n";

#[test]
fn git_lfs_mistype_cases() {
    assert!(git_lfs_mistype::match_rule(&mut with_stdout("git lfs evn", LFS_MISTYPE), None));
    assert!(!git_lfs_mistype::match_rule(&mut with_stdout("git lfs env", "bash: git: command not found"), None));
    assert!(!git_lfs_mistype::match_rule(&mut with_stdout("docker lfs env", LFS_MISTYPE), None));
    assert_eq!(
        git_lfs_mistype::get_new_command(&mut with_stdout("git lfs evn", LFS_MISTYPE), Some(&Shell::Bash)),
        vec!["git lfs env", "git lfs ext"]
    );
}

fn output_branch(branch_name: Option<&str>) -> String {
    match branch_name {
        Some(b) => format!("error: pathspec '{}' did not match any file(s) known to git", b),
        None => "".to_owned(),
    }
}

#[test]
fn git_main_master_cases() {
    for (script, branch, is_match) in [
        ("git checkout main", Some("main"), true),
        ("git checkout master", Some("master"), true),
        ("git show main", Some("main"), true),
        ("git checkout master", None, false),
        ("git checkout main", None, false),
        ("git checkout wibble", Some("wibble"), false),
    ] {
        assert_eq!(git_main_master::match_rule(&mut with_stdout(script, &output_branch(branch)), None), is_match);
    }
    for (script, branch, expected) in [
        ("git checkout main", Some("main"), "git checkout master"),
        ("git checkout master", Some("master"), "git checkout main"),
        ("git checkout wibble", Some("wibble"), "git checkout wibble"),
    ] {
        assert_eq!(
            git_main_master::get_new_command(&mut with_stdout(script, &output_branch(branch)), Some(&Shell::Bash)),
            vec![expected]
        );
    }
    assert_eq!(git_main_master::get_rule().priority, 1200);
}

const MERGE_OUTPUT: &str = "merge: local - not something we can merge\n\nDid you mean this?\n\tremote/local";

#[test]
fn git_merge_cases() {
    assert!(git_merge::match_rule(&mut with_stdout("git merge test", MERGE_OUTPUT), None));
    assert!(!git_merge::match_rule(&mut with_stdout("git merge master", ""), None));
    assert!(!git_merge::match_rule(&mut with_stdout("ls", MERGE_OUTPUT), None));
    for (script, expected) in [
        ("git merge local", "git merge remote/local"),
        ("git merge -m \"test\" local", "git merge -m \"test\" remote/local"),
        ("git merge -m \"test local\" local", "git merge -m \"test local\" remote/local"),
    ] {
        assert_eq!(git_merge::get_new_command(&mut with_stdout(script, MERGE_OUTPUT), None)[0], expected);
    }
}

const GIT_NOT_COMMAND: &str = "git: 'brnch' is not a git command. See 'git --help'.\n\nThe most similar command is\nbranch\n";
const GIT_NOT_COMMAND_ONE_OF_THIS: &str = "git: 'st' is not a git command. See 'git --help'.\n\nThe most similar commands are\nstatus\nreset\nstage\nstash\nstats\n";
const GIT_NOT_COMMAND_CLOSEST: &str = "\ngit: 'tags' is not a git command. See 'git --help'.\n\nThe most similar commands are\n    stage\n    tag\n";

#[test]
fn git_not_command_cases() {
    assert!(git_not_command::match_rule(&mut with_stdout("git brnch", GIT_NOT_COMMAND), None));
    assert!(git_not_command::match_rule(&mut with_stdout("git st", GIT_NOT_COMMAND_ONE_OF_THIS), None));
    assert!(!git_not_command::match_rule(&mut with_stdout("ls brnch", GIT_NOT_COMMAND), None));
    assert!(!git_not_command::match_rule(&mut with_stdout("git branch", "* master"), None));
    assert_eq!(git_not_command::get_new_command(&mut with_stdout("git brnch", GIT_NOT_COMMAND), None), vec!["git branch"]);
    assert_eq!(
        git_not_command::get_new_command(&mut with_stdout("git st", GIT_NOT_COMMAND_ONE_OF_THIS), None),
        vec!["git reset", "git stage", "git stash"]
    );
    assert_eq!(
        git_not_command::get_new_command(&mut with_stdout("git tags", GIT_NOT_COMMAND_CLOSEST), None),
        vec!["git tag", "git stage"]
    );
}

const PULL_OUTPUT: &str = "There is no tracking information for the current branch.
Please specify which branch you want to merge with.
See git-pull(1) for details

    git pull <remote> <branch>

If you wish to set tracking information for this branch you can do so with:

    git branch --set-upstream-to=<remote>/<branch> master


";

#[test]
fn git_pull_cases() {
    assert!(git_pull::match_rule(&mut with_stdout("git pull", PULL_OUTPUT), None));
    assert!(!git_pull::match_rule(&mut with_stdout("git pull", ""), None));
    assert!(!git_pull::match_rule(&mut with_stdout("ls", PULL_OUTPUT), None));
    assert_eq!(
        git_pull::get_new_command(&mut with_stdout("git pull", PULL_OUTPUT), Some(&Shell::Bash))[0],
        "git branch --set-upstream-to=origin/master master && git pull"
    );
}

#[test]
fn git_alias_expansion() {
    let output = "trace: alias expansion: ci => commit\nno changes added to commit";
    let mut command = with_stdout("git ci", output);
    assert!(git_commit_add::match_rule(&mut command, None));
    assert_eq!(
        git_commit_add::get_new_command(&mut command, None),
        vec!["git commit -a", "git commit -p"]
    );
    assert_eq!(command.script, "git ci");
}
