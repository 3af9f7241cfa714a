use ohcrab::cli::command::{prepare_command, CorrectedCommand, CrabCommand, SideEffect};
use ohcrab::rules::organize::organize_commands;
use ohcrab::rules::{cd_correction, get_corrected_commands, get_rules, Facts};
use ohcrab::shell::{get_bash_type, Shell};
use ohcrab::rules::utils::git::expand_git_alias;
use ohcrab::rules::utils::lies_within_dir;
use ohcrab::text;
use ohcrab::utils::{get_all_matched_commands, get_close_matches, get_closest, replace_argument, replace_command};

fn facts() -> Facts {
    Facts {
        program_found: true,
        word_found: true,
        argument_is_dir: false,
        pathspec_exists: false,
        script_exists: false,
        script_executable: true,
        zip_spills: false,
        branch_listing: String::new(),
        current_dir: "/home/user".to_owned(),
        listed_dirs: Vec::new(),
        sub_dirs: Vec::new(),
    }
}

#[test]
fn close_matches_are_ranked() {
    let poss = vec!["ape", "apple", "peach", "puppy"];
    assert_eq!(get_close_matches("appel", &poss, None, None), vec!["apple", "ape"]);
    assert_eq!(get_close_matches("appel", &poss, Some(1), None), vec!["apple"]);
    assert_eq!(get_close_matches("appel", &poss, Some(0), None), Vec::<&str>::new());
    assert_eq!(get_close_matches("appel", &Vec::new(), None, None), Vec::<&str>::new());
    assert_eq!(get_close_matches("apple", &poss, None, Some(100)), vec!["apple"]);
    assert_eq!(get_close_matches("", &vec![""], None, Some(100)), vec![""]);
}

#[test]
fn close_matches_keep_order_of_equal_scores() {
    let poss = vec!["status", "reset", "stage", "stash", "stats"];
    assert_eq!(get_close_matches("st", &poss, None, Some(10)), vec!["reset", "stage", "stash"]);
    assert_eq!(get_close_matches("st", &poss, Some(10), Some(10)), vec!["reset", "stage", "stash", "stats", "status"]);
}

#[test]
fn close_matches_respect_cutoff() {
    let poss = vec!["apply", "branch", "clear", "drop", "list", "pop", "save", "show"];
    assert_eq!(get_close_matches("opp", &poss, None, None), vec!["pop"]);
    assert_eq!(get_close_matches("Some", &poss, None, None), Vec::<&str>::new());
    // 2 * 2 / 6 is two thirds: it passes 66 percent and fails 67.
    assert_eq!(get_close_matches("opp", &vec!["pop"], None, Some(66)), vec!["pop"]);
    assert_eq!(get_close_matches("opp", &vec!["pop"], None, Some(67)), Vec::<&str>::new());
}

#[test]
fn closest_falls_back_to_first() {
    let poss = vec!["apply", "branch"];
    assert_eq!(get_closest("aply", &poss, None, false), Some("apply"));
    assert_eq!(get_closest("zzz", &poss, None, false), None);
    assert_eq!(get_closest("zzz", &poss, None, true), Some("apply"));
    assert_eq!(get_closest("zzz", &Vec::new(), None, true), None);
}

#[test]
fn replace_argument_cases() {
    assert_eq!(replace_argument("git commit -m foo", "commit", "commit -a"), "git commit -a -m foo");
    assert_eq!(replace_argument("git commit", "commit", "commit -a"), "git commit -a");
    assert_eq!(replace_argument("git push origin", "pull", "fetch"), "git push origin");
    assert_eq!(replace_argument("git merge local local", "local", "remote/local"), "git merge local remote/local");
}

#[test]
fn replace_command_cases() {
    let command = CrabCommand::new("git lfs evn".to_owned(), None, None);
    assert_eq!(replace_command(&command, "evn", vec![" env ", "ext"]), vec!["git lfs env", "git lfs ext"]);
    assert_eq!(replace_command(&command, "evn", vec![]), Vec::<String>::new());
}

#[test]
fn matched_commands_cases() {
    let output = "git: 'st' is not a git command.\n\nDid you mean this?\n  status\n\n  stash\nother";
    assert_eq!(get_all_matched_commands(output, None), vec!["status", "stash", "other"]);
    assert_eq!(get_all_matched_commands(output, Some(vec!["nothing"])), Vec::<String>::new());
    assert_eq!(
        get_all_matched_commands("a\nSEP\nb\nSEP\nc", Some(vec!["SEP"])),
        vec!["b", "c"]
    );
}

fn corrected(script: &str, priority: u16) -> CorrectedCommand {
    CorrectedCommand::new(script.to_owned(), None, priority)
}

#[test]
fn organize_sorts_and_removes_repeats() {
    let organized = organize_commands(vec![
        corrected("b", 2000),
        corrected("a", 1000),
        corrected("c", 1000),
        corrected("a", 500),
        corrected("b", 3000),
    ]);
    let scripts: Vec<(String, u16)> = organized.iter().map(|c| (c.script.clone(), c.priority)).collect();
    assert_eq!(
        scripts,
        vec![("a".to_owned(), 500), ("c".to_owned(), 1000), ("b".to_owned(), 2000)]
    );
    assert!(organize_commands(Vec::new()).is_empty());
}

#[test]
fn rules_are_listed() {
    let rules = get_rules();
    assert_eq!(rules.len(), 55);
    let apt_get = rules.iter().find(|r| r.name == "apt_get").unwrap();
    assert_eq!(apt_get.priority, 4000);
    let untar = rules.iter().find(|r| r.name == "tar").unwrap();
    assert_eq!(untar.side_effect, Some(SideEffect::DirtyUntar));
}

#[test]
fn corrected_commands_for_git_typo() {
    let output = "git: 'brnch' is not a git command. See 'git --help'.\n\nThe most similar command is\nbranch\n";
    let mut command = CrabCommand::new("git brnch".to_owned(), Some(output.to_owned()), None);
    let commands = get_corrected_commands(&mut command, &Shell::Bash, &facts());
    assert_eq!(commands[0].script, "git branch");
    assert_eq!(commands[0].priority, 1000);
    for pair in commands.windows(2) {
        assert!(pair[0].priority <= pair[1].priority);
        assert_ne!(pair[0].script, pair[1].script);
    }
}

#[test]
fn corrected_commands_priorities_grow_with_position() {
    let output = "no changes added to commit";
    let mut command = CrabCommand::new("git commit".to_owned(), Some(output.to_owned()), None);
    let commands = get_corrected_commands(&mut command, &Shell::Bash, &facts());
    let found: Vec<(String, u16)> = commands.iter().map(|c| (c.script.clone(), c.priority)).collect();
    assert!(found.contains(&("git commit -a".to_owned(), 1000)));
    assert!(found.contains(&("git commit -p".to_owned(), 2000)));
    assert!(found.contains(&("git reset HEAD~".to_owned(), 1000)));
    assert!(found.contains(&("git commit --no-verify".to_owned(), 1100)));
}

#[test]
fn corrected_commands_use_facts() {
    let mut command = CrabCommand::new("vim".to_owned(), Some("vim: command not found".to_owned()), None);
    let mut f = facts();
    f.program_found = false;
    let commands = get_corrected_commands(&mut command, &Shell::Bash, &f);
    assert!(commands.iter().any(|c| c.script == "sudo apt-get install vim && vim" && c.priority == 4000));
    f.program_found = true;
    let commands = get_corrected_commands(&mut command, &Shell::Bash, &f);
    assert!(!commands.iter().any(|c| c.script == "sudo apt-get install vim && vim"));
}

#[test]
fn corrected_commands_without_output() {
    let mut command = CrabCommand::new("git push".to_owned(), None, None);
    let commands = get_corrected_commands(&mut command, &Shell::Bash, &facts());
    let scripts: Vec<String> = commands.iter().map(|c| c.script.clone()).collect();
    assert_eq!(scripts, vec!["git push --no-verify"]);
}

#[test]
fn cd_correction_walks() {
    let no_dirs: Vec<String> = Vec::new();
    let no_listings: Vec<Vec<String>> = Vec::new();
    let output = "cd: foo: No such file or directory";
    let cmd = |s: &str| CrabCommand::new(s.to_owned(), Some(output.to_owned()), None);
    assert!(cd_correction::match_rule(&mut cmd("cd foo"), None));
    assert!(cd_correction::match_rule(&mut cmd("sudo cd foo"), None));
    assert!(!cd_correction::match_rule(&mut cmd("ls foo"), None));
    assert_eq!(cd_correction::get_new_command_given(&cmd("cd .."), "/home/user", &no_dirs, &no_listings), Some(vec!["cd \"/home\"".to_owned()]));
    assert_eq!(cd_correction::get_new_command_given(&cmd("cd ./../.."), "/home/user", &no_dirs, &no_listings), Some(vec!["cd \"/\"".to_owned()]));
    assert_eq!(cd_correction::get_new_command_given(&cmd("cd /.."), "/home/user", &no_dirs, &no_listings), None);
    assert_eq!(
        cd_correction::get_new_command_given(&cmd("cd foo"), "/home/user", &no_dirs, &no_listings),
        Some(vec!["mkdir -p foo && cd foo".to_owned()])
    );
    assert_eq!(
        cd_correction::get_new_command_given(&cmd("sudo cd .."), "/home/user", &no_dirs, &no_listings),
        Some(vec!["sudo cd \"/home\"".to_owned()])
    );
    assert_eq!(cd_correction::get_new_command_given(&cmd("cd"), "/home/user", &no_dirs, &no_listings), Some(Vec::new()));
}

#[test]
fn cd_correction_match_cases() {
    for (script, stderr, is_match) in [
        ("cd foo", "cd: foo: No such file or directory\n", true),
        ("cd foo/bar/baz", "cd: foo: No such file or directory", true),
        ("cd foo/bar/baz", "cd: can\"t cd to foo/bar/baz", true),
        ("cd /foo/bar/", "cd: The directory \"/foo/bar/\" does not exist", true),
        ("cd foo", "", false),
        ("", "", false),
    ] {
        let mut command = CrabCommand::new(script.to_owned(), None, Some(stderr.to_owned()));
        assert_eq!(cd_correction::match_rule(&mut command, None), is_match);
    }
}

#[test]
fn cd_correction_enters_close_directories() {
    let output = "cd: foo: No such file or directory";
    let cmd = |s: &str| CrabCommand::new(s.to_owned(), Some(output.to_owned()), None);
    let dirs = vec!["/".to_owned(), "/usr".to_owned()];
    let listings = vec![
        vec!["/bin".to_owned(), "/usr".to_owned()],
        vec!["/usr/lib".to_owned()],
    ];
    assert_eq!(
        cd_correction::walk_end(&cmd("cd /usr"), "/home/user", &dirs, &listings),
        Some(Some((true, "/usr".to_owned())))
    );
    assert_eq!(
        cd_correction::get_new_command_given(&cmd("cd /usr/"), "/home/user", &dirs, &listings),
        Some(vec!["cd \"/usr\"".to_owned()])
    );
    assert_eq!(
        cd_correction::walk_end(&cmd("cd /usr/zzzz"), "/home/user", &dirs, &listings),
        Some(Some((false, "/usr".to_owned())))
    );
    assert_eq!(
        cd_correction::walk_end(&cmd("cd /home/zzzz"), "/home/user", &dirs, &listings),
        Some(Some((false, "/".to_owned())))
    );
    assert_eq!(
        cd_correction::walk_end(&cmd("sudo cd /usr/.."), "/home/user", &dirs, &listings),
        Some(Some((true, "/".to_owned())))
    );
    assert_eq!(cd_correction::walk_end(&cmd("cd"), "/home/user", &dirs, &listings), None);
    assert!(cd_correction::is_listed(&dirs, "/usr"));
    assert!(!cd_correction::is_listed(&dirs, "/home"));
    assert_eq!(
        cd_correction::get_new_command_given(&cmd("cd /usr/zzzz"), "/home/user", &dirs, &listings),
        Some(vec!["mkdir -p /usr/zzzz && cd /usr/zzzz".to_owned()])
    );
}

#[test]
fn shells_join_commands() {
    assert_eq!(Shell::Bash.and(vec!["a", "b"]), "a && b");
    assert_eq!(Shell::Zsh.and(vec!["a", "b"]), "a && b");
    assert_eq!(Shell::Fish.and(vec!["a", "b"]), "a; and b");
    assert_eq!(Shell::PowerShell.and(vec!["a", "b"]), "(a) -and (b)");
    assert_eq!(get_bash_type("/usr/bin/zsh"), Shell::Zsh);
    assert_eq!(get_bash_type("pwsh"), Shell::PowerShell);
    assert_eq!(get_bash_type("fish"), Shell::Fish);
    assert_eq!(get_bash_type("sh"), Shell::Bash);
    assert_eq!(Shell::PowerShell.get_shell(), "pwsh");
}

#[test]
fn commands_are_split_and_joined() {
    let command = CrabCommand::new("git commit -m 'two words'".to_owned(), Some("out".to_owned()), Some("err".to_owned()));
    assert_eq!(command.script_parts, vec!["git", "commit", "-m", "two words"]);
    assert_eq!(command.output, Some("out\nerr".to_owned()));
    assert_eq!(command.describe(), "script: git commit -m 'two words', output: out\nerr");
    let updated = command.update(Some("ls -a".to_owned()), None, None);
    assert_eq!(updated.script_parts, vec!["ls", "-a"]);
    assert_eq!(updated.output, Some("out\nerr".to_owned()));
    assert_eq!(CrabCommand::new("x".to_owned(), Some("".to_owned()), Some("e".to_owned())).output, Some("e".to_owned()));
    assert_eq!(prepare_command(vec![" ls".to_owned(), "-a ".to_owned()]), "ls -a");
}

#[test]
fn organizing_twice_changes_nothing() {
    let once = organize_commands(vec![corrected("b", 3), corrected("a", 1), corrected("b", 2), corrected("c", 1)]);
    let first: Vec<(String, u16)> = once.iter().map(|c| (c.script.clone(), c.priority)).collect();
    let twice = organize_commands(once);
    let second: Vec<(String, u16)> = twice.iter().map(|c| (c.script.clone(), c.priority)).collect();
    assert_eq!(first, second);
    assert_eq!(first, vec![("a".to_owned(), 1), ("c".to_owned(), 1), ("b".to_owned(), 2)]);
}

#[test]
fn git_commands_without_alias_are_kept() {
    let command = CrabCommand::new("git st".to_owned(), Some("nothing to see".to_owned()), None);
    let expanded = expand_git_alias(&command);
    assert_eq!(expanded.script, "git st");
    let traced = CrabCommand::new(
        "git st -v".to_owned(),
        Some("trace: alias expansion: st => status --short\n".to_owned()),
        None,
    );
    let expanded = expand_git_alias(&traced);
    assert_eq!(expanded.script, "git status --short -v");
    assert_eq!(expanded.script_parts, vec!["git", "status", "--short", "-v"]);
}

#[test]
fn paths_within_directories() {
    assert!(lies_within_dir("/home/user/a", "/home/user"));
    assert!(lies_within_dir("/home/user", "/home/user/"));
    assert!(!lies_within_dir("/home/user2/a", "/home/user"));
    assert!(!lies_within_dir("/home", "/home/user"));
    assert!(lies_within_dir("/etc", "/"));
    assert!(ohcrab::rules::dirty_untar::side_effect_removes("a", "/tmp/x/a", true, "/tmp/x"));
    assert!(!ohcrab::rules::dirty_untar::side_effect_removes("._a", "/tmp/x/._a", true, "/tmp/x"));
    assert!(!ohcrab::rules::dirty_untar::side_effect_removes("d", "/tmp/x/d", false, "/tmp/x"));
    assert!(!ohcrab::rules::dirty_unzip::side_effect_removes("/etc/passwd", true, "/tmp/x"));
    assert!(ohcrab::rules::dirty_unzip::side_effect_removes("/tmp/x/d/e", true, "/tmp/x"));
}

#[test]
fn alias_functions() {
    let bash = Shell::Bash.app_alias("crab");
    assert!(bash.starts_with("function crab () {"));
    assert!(bash.contains("export OHCRAB_SHELL=bash;"));
    assert!(bash.contains("export OHCRAB_ALIAS=crab;"));
    assert!(Shell::Zsh.app_alias("fix").contains("export OHCRAB_SHELL=zsh;"));
    assert!(Shell::Fish.app_alias("crab").starts_with("function crab -d"));
    assert!(Shell::PowerShell.app_alias("crab").contains("$env:OHCRAB_ALIAS = 'crab';"));
}

#[test]
fn text_helpers() {
    assert_eq!(text::str_replace("a-b-c", "-", "+"), "a+b+c");
    assert_eq!(text::str_replacen("a-b-c", "-", "+", 1), "a+b-c");
    assert_eq!(text::str_replace("abc", "", "."), ".a.b.c.");
    assert_eq!(text::str_split("a/b//c", '/'), vec!["a", "b", "", "c"]);
    assert_eq!(text::str_words("  a \t b\n"), vec!["a", "b"]);
    assert_eq!(text::str_lines("a\r\nb\n"), vec!["a", "b"]);
    assert_eq!(text::str_trim(" \u{a0}x "), "x");
    assert_eq!(text::str_split_str("a, b, c", ", "), vec!["a", "b", "c"]);
    assert_eq!(text::str_from_byte("héllo", 3), "llo");
    assert!(text::str_is_boundary("héllo", 3));
    assert!(!text::str_is_boundary("héllo", 2));
    assert_eq!(text::str_before_char("a'b'c", '\''), "a");
    assert_eq!(text::str_after_char("a'b'c", '\''), "b'c");
}

#[test]
fn corrected_commands_skip_rules_that_cannot_answer() {
    let mut command = CrabCommand::new("git pull".to_owned(), Some("set-upstream".to_owned()), None);
    let commands = get_corrected_commands(&mut command, &Shell::Bash, &facts());
    assert!(commands.iter().all(|c| !c.script.contains("--set-upstream-to")));

    let output = "error: pathspec 'tst' did not match any file(s) known to git";
    let mut command = CrabCommand::new("git checkout tst".to_owned(), Some(output.to_owned()), None);
    let mut f = facts();
    f.branch_listing = "*".to_owned();
    assert!(!ohcrab::rules::git_checkout::listing_fits(&f.branch_listing));
    let commands = get_corrected_commands(&mut command, &Shell::Bash, &f);
    assert!(!commands.iter().any(|c| c.script == "git checkout -b tst"));
    f.branch_listing = "* master\n  test".to_owned();
    let commands = get_corrected_commands(&mut command, &Shell::Bash, &f);
    assert!(commands.iter().any(|c| c.script == "git checkout test"));
    assert!(commands.iter().any(|c| c.script == "git checkout -b tst"));
}

#[test]
fn corrected_commands_walk_from_current_directory() {
    let mut command = CrabCommand::new("cd ../..".to_owned(), Some("cd: no such file or directory".to_owned()), None);
    let commands = get_corrected_commands(&mut command, &Shell::Bash, &facts());
    assert!(commands.iter().any(|c| c.script == "cd \"/\""));
}
