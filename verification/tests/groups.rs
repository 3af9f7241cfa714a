use ohcrab::cli::command::CrabCommand;
use ohcrab::rules::utils::git::expanded_with_groups;
use ohcrab::rules::{
    aws_cli, brew_install, cargo_no_command, composer_not_command, conda_mistype, git_add,
    git_bisect_usage, git_branch_exists, git_checkout, git_flag_after_filename, git_lfs_mistype,
    git_merge, git_not_command,
};
use ohcrab::shell::Shell;

fn groups(items: &[Option<&str>]) -> Vec<Option<String>> {
    items.iter().map(|g| g.map(|s| s.to_owned())).collect()
}

fn cmd(script: &str) -> CrabCommand {
    CrabCommand::new(script.to_owned(), Some(String::new()), None)
}

#[test]
fn composer_corrections_from_groups() {
    let broken = Some(groups(&[Some("whole"), Some("udpate")]));
    let new = Some(groups(&[Some("whole"), Some("  update ")]));
    let alt = Some(groups(&[Some("whole"), Some("upgrade")]));
    assert_eq!(
        composer_not_command::commands_from_groups("composer udpate", &broken, &new, &alt),
        vec!["composer update"]
    );
    assert_eq!(
        composer_not_command::commands_from_groups("composer udpate", &broken, &None, &alt),
        vec!["composer upgrade"]
    );
    assert!(composer_not_command::commands_from_groups("composer udpate", &broken, &None, &None).is_empty());
    assert!(composer_not_command::commands_from_groups("composer udpate", &None, &new, &alt).is_empty());
}

#[test]
fn git_checkout_corrections_from_groups() {
    let g = Some(groups(&[Some("error"), Some("mastr")]));
    assert_eq!(git_checkout::pathspec_from_groups(&g), Some("mastr".to_owned()));
    assert_eq!(git_checkout::pathspec_from_groups(&None), None);
    let listing = "* main\n  master\n  remotes/origin/master\n";
    assert_eq!(
        git_checkout::commands_for_missing_pathspec(&cmd("git checkout mastr"), Some(&Shell::Bash), "mastr", listing),
        vec!["git checkout master", "git checkout -b mastr"]
    );
    assert_eq!(
        git_checkout::commands_for_missing_pathspec(&cmd("git commit zzz"), Some(&Shell::Bash), "zzz", ""),
        vec!["git branch zzz && git commit zzz"]
    );
}

#[test]
fn git_branch_exists_corrections_from_groups() {
    let g = Some(groups(&[Some("fatal"), Some("foo")]));
    assert_eq!(
        git_branch_exists::commands_from_groups(&Shell::Bash, &g),
        vec![
            "git branch -d foo && git branch foo",
            "git branch -d foo && git checkout -b foo",
            "git branch -D foo && git branch foo",
            "git branch -D foo && git checkout -b foo",
            "git checkout foo",
        ]
    );
    assert!(git_branch_exists::commands_from_groups(&Shell::Bash, &None).is_empty());
}

#[test]
fn aws_corrections_from_groups() {
    let mistake = groups(&[Some("whole"), Some("dynamdb")]);
    let all = vec![groups(&[Some("* dynamodb"), Some("dynamodb")]), groups(&[Some("* dlm"), Some("dlm")])];
    assert_eq!(
        aws_cli::commands_from_groups("aws dynamdb scan", &mistake, &all),
        vec!["aws dynamodb scan", "aws dlm scan"]
    );
}

#[test]
fn git_add_corrections_from_groups() {
    let g = Some(groups(&[Some("error"), Some("file.txt")]));
    assert_eq!(git_add::pathspec_from_groups(&g), Some("file.txt".to_owned()));
    assert_eq!(
        git_add::commands_for_file(&cmd("git commit file.txt"), &Shell::Bash, Some("file.txt".to_owned())),
        vec!["git add -- file.txt && git commit file.txt"]
    );
    assert_eq!(
        git_add::commands_for_file(&cmd("git commit"), &Shell::Fish, None),
        vec!["git add -- ; and git commit"]
    );
}

#[test]
fn other_corrections_from_groups() {
    assert_eq!(
        brew_install::commands_from_groups(&groups(&[Some("w"), Some("a, b or c")])),
        vec!["brew install a", "brew install b", "brew install c"]
    );
    assert_eq!(
        cargo_no_command::commands_from_groups("cargo buid", "buid", &groups(&[Some("w"), Some("build")])),
        vec!["cargo build"]
    );
    assert_eq!(
        conda_mistype::commands_from_groups(
            "conda lst",
            &vec![groups(&[Some("'conda lst'"), Some("lst")]), groups(&[Some("'conda list'"), Some("list")])]
        ),
        vec!["conda list"]
    );
    assert_eq!(
        git_merge::commands_from_groups(
            "git merge test",
            &Some(groups(&[Some("w"), Some("test")])),
            &Some(groups(&[Some("w"), Some("remotes/origin/test")]))
        ),
        vec!["git merge remotes/origin/test"]
    );
    assert!(git_merge::commands_from_groups("git merge test", &None, &None).is_empty());
    assert_eq!(
        git_flag_after_filename::commands_from_groups("git log README.md -p", &Some(groups(&[Some("w"), Some("-p")]))),
        vec!["git log -p README.md"]
    );
    assert_eq!(
        git_flag_after_filename::commands_from_groups("git log README.md -p", &None),
        vec!["git log README.md -p"]
    );
    assert_eq!(
        git_bisect_usage::commands_from_groups(
            &cmd("git bisect strt"),
            &Some(groups(&[Some("w"), Some("strt")])),
            &Some(groups(&[Some("w"), Some("start|bad|good")]))
        ),
        vec!["git bisect start"]
    );
    let lfs_output = "Error: unknown command \"evn\" for \"git-lfs\"\n\nDid you mean this?\n        env\n        ext\n\nRun 'git-lfs --help' for usage.";
    assert_eq!(
        git_lfs_mistype::commands_from_groups(&cmd("git lfs evn"), lfs_output, &Some(groups(&[Some("w"), Some("evn")]))),
        vec!["git lfs env", "git lfs ext"]
    );
    assert!(git_lfs_mistype::commands_from_groups(&cmd("git lfs evn"), lfs_output, &None).is_empty());
    let not_output = "git: 'brnch' is not a git command. See 'git --help'.\n\nThe most similar commands are\n\tbranch\n";
    assert_eq!(
        git_not_command::commands_from_groups(&cmd("git brnch"), not_output, &Some(groups(&[Some("w"), Some("brnch")]))),
        vec!["git branch"]
    );
}

#[test]
fn git_alias_expanded_from_groups() {
    let command = cmd("git com -m x");
    let expanded = expanded_with_groups(&command, &Some(groups(&[Some("w"), Some("com"), Some("commit")])));
    assert_eq!(expanded.script, "git commit -m x");
    let unchanged = expanded_with_groups(&command, &Some(groups(&[Some("w"), Some("com")])));
    assert_eq!(unchanged.script, "git com -m x");
}
