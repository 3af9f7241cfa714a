use ohcrab::cli::command::CrabCommand;
use ohcrab::rules::{
    ag_literal, apt_get, apt_get_search, apt_list_upgradable, aws_cli, az_cli, brew_install,
    brew_link, brew_reinstall, brew_uninstall, brew_update_formula, cargo_no_command,
};
use ohcrab::shell::Shell;

fn with_stdout(script: &str, stdout: &str) -> CrabCommand {
    CrabCommand::new(script.to_owned(), Some(stdout.to_owned()), None)
}

fn with_stderr(script: &str, stderr: &str) -> CrabCommand {
    CrabCommand::new(script.to_owned(), None, Some(stderr.to_owned()))
}

const AG_STDERR: &str = "ERR: Bad regex! pcre_compile() failed at position 1: missing )\n\
    If you meant to search for a literal string, run ag with -Q\n";

#[test]
fn ag_literal_cases() {
    assert!(ag_literal::match_rule(&mut with_stderr("ag \\(", AG_STDERR), None));
    assert!(!ag_literal::match_rule(&mut with_stderr("ag foo", ""), None));
    assert_eq!(
        ag_literal::get_new_command(&mut with_stderr("ag \\(", AG_STDERR), None),
        vec!["ag -Q \\("]
    );
}

#[test]
fn apt_get_match_cases() {
    for (script, stdout, mock, expected) in [
        ("vim", "vim: command not found", Some(false), true),
        ("sudo vim", "vim: command not found", Some(false), true),
        (
            "vim",
            "The program \"vim\" is currently not installed. You can install it by typing: sudo apt install vim",
            Some(false),
            true,
        ),
        ("", "", Some(false), false),
        ("vim", "", Some(false), false),
        ("vim", "vim: command not found", Some(true), false),
        ("sudo vim", "vim: command not found", Some(true), false),
    ] {
        let mut command = with_stdout(script, stdout);
        assert_eq!(apt_get::_match_rule(&mut command, None, mock), expected, "{}", script);
    }
}

#[test]
fn apt_get_new_command_cases() {
    for (script, expected) in [
        ("vim", "sudo apt-get install vim && vim"),
        ("git init", "sudo apt-get install git && git init"),
        ("sudo vim", "sudo apt-get install vim && sudo vim"),
        ("sudo git init", "sudo apt-get install git && sudo git init"),
    ] {
        let mut command = with_stdout(script, "");
        assert_eq!(apt_get::get_new_command(&mut command, Some(&Shell::Bash))[0], expected);
    }
}

#[test]
fn apt_get_search_cases() {
    assert!(apt_get_search::match_rule(&mut with_stdout("apt-get search foo", ""), None));
    for script in [
        "ag foo",
        "apt-cache search foo",
        "aptitude search foo",
        "apt search foo",
        "apt-get install foo",
        "apt-get source foo",
        "apt-get clean",
        "apt-get remove",
        "apt-get update",
    ] {
        assert!(!apt_get_search::match_rule(&mut with_stdout(script, ""), None), "{}", script);
    }
}

const APT_FULL_ENGLISH_OUTPUT: &str = "
Hit:1 http://us.archive.ubuntu.com/ubuntu zesty InRelease
Fetched 89.2 kB in 0s (122 kB/s)
Reading package lists... Done
Building dependency tree
Reading state information... Done
8 packages can be upgraded. Run 'apt list --upgradable' to see them.
";

const APT_NO_MATCH_OUTPUT: &str = "
Hit:1 http://us.archive.ubuntu.com/ubuntu zesty InRelease
Reading package lists... Done
Building dependency tree
Reading state information... Done
All packages are up to date.
";

const APT_GERMAN_OUTPUT: &str = "Führen Sie »apt list --upgradable« aus, um sie anzuzeigen.";

#[test]
fn apt_list_upgradable_cases() {
    assert!(apt_list_upgradable::match_rule(&mut with_stdout("sudo apt update", APT_FULL_ENGLISH_OUTPUT), None));
    assert!(apt_list_upgradable::match_rule(&mut with_stdout("sudo apt update", APT_GERMAN_OUTPUT), None));
    assert!(!apt_list_upgradable::match_rule(&mut with_stdout("sudo apt update", APT_NO_MATCH_OUTPUT), None));
    for script in ["apt-cache search foo", "aptitude search foo", "apt search foo", "apt-get update"] {
        assert!(!apt_list_upgradable::match_rule(&mut with_stdout(script, ""), None));
    }
    for (script, stdout, expected) in [
        ("sudo apt update", APT_FULL_ENGLISH_OUTPUT, "sudo apt list --upgradable"),
        ("sudo apt update", APT_GERMAN_OUTPUT, "sudo apt list --upgradable"),
        ("apt update", APT_FULL_ENGLISH_OUTPUT, "apt list --upgradable"),
        ("apt update", APT_GERMAN_OUTPUT, "apt list --upgradable"),
    ] {
        assert_eq!(apt_list_upgradable::get_new_command(&mut with_stdout(script, stdout), None)[0], expected);
    }
}

const AWS_HEAD: &str = "usage: aws [options] <command> <subcommand> [<subcommand> ...] [parameters]\nTo see help text, you can run:\n\n  aws help\n  aws <command> help\n  aws <command> <subcommand> help\n";

#[test]
fn aws_cli_cases() {
    let misspelled_command = format!("{}aws: error: argument command: Invalid choice, valid choices are:\n\ndynamodb                                 | dynamodbstreams\nec2                                      | ecr\n\n\nInvalid choice: 'dynamdb', maybe you meant:\n\n  * dynamodb", AWS_HEAD);
    let misspelled_subcommand = format!("{}aws: error: argument operation: Invalid choice, valid choices are:\n\nquery                                    | scan\nupdate-item                              | update-table\n\n\nInvalid choice: 'scn', maybe you meant:\n\n  * scan", AWS_HEAD);
    let two_suggestions = format!("{}aws: error: argument operation: Invalid choice, valid choices are:\n\ndescribe-table                           | get-item\nlist-tables                              | put-item\n\n\nInvalid choice: 't-item', maybe you meant:\n\n  * put-item\n  * get-item", AWS_HEAD);
    let no_suggestion = format!("{}aws: error: argument command: Invalid choice, valid choices are:\n\ndynamodb                                 | dynamodbstreams\nec2                                      | ecr", AWS_HEAD);
    assert!(aws_cli::match_rule(&mut with_stdout("aws dynamdb scan", &misspelled_command), None));
    assert!(aws_cli::match_rule(&mut with_stdout("aws dynamodb scn", &misspelled_subcommand), None));
    assert!(aws_cli::match_rule(&mut with_stdout("aws dynamodb t-item", &two_suggestions), None));
    assert!(!aws_cli::match_rule(&mut with_stdout("aws dynamodb invalid", &no_suggestion), None));
    assert_eq!(
        aws_cli::get_new_command(&mut with_stdout("aws dynamdb scan", &misspelled_command), None),
        vec!["aws dynamodb scan"]
    );
    assert_eq!(
        aws_cli::get_new_command(&mut with_stdout("aws dynamodb scn", &misspelled_subcommand), None),
        vec!["aws dynamodb scan"]
    );
    assert_eq!(
        aws_cli::get_new_command(&mut with_stdout("aws dynamodb t-item", &two_suggestions), None),
        vec!["aws dynamodb put-item", "aws dynamodb get-item"]
    );
}

const AZ_NO_SUGGESTIONS: &str = "
az provider: error: the following arguments are required: _subcommand
usage: az provider [-h] {list,show,register,unregister,operation} ...
";

const AZ_MISSPELLED_COMMAND: &str = "
az: 'providers' is not in the 'az' command group. See 'az --help'.

The most similar choice to 'providers' is:
    provider
";

const AZ_MISSPELLED_SUBCOMMAND: &str = "
az provider: 'lis' is not in the 'az provider' command group. See 'az provider --help'.

The most similar choice to 'lis' is:
    list
";

#[test]
fn az_cli_cases() {
    assert!(az_cli::match_rule(&mut with_stdout("az providers", AZ_MISSPELLED_COMMAND), None));
    assert!(az_cli::match_rule(&mut with_stdout("az provider lis", AZ_MISSPELLED_SUBCOMMAND), None));
    assert!(!az_cli::match_rule(&mut with_stdout("az provider", AZ_NO_SUGGESTIONS), None));
    assert_eq!(
        az_cli::get_new_command(&mut with_stdout("az providers list", AZ_MISSPELLED_COMMAND), None),
        vec!["az provider list"]
    );
    assert_eq!(
        az_cli::get_new_command(&mut with_stdout("az provider lis", AZ_MISSPELLED_SUBCOMMAND), None),
        vec!["az provider list"]
    );
}

const BREW_ONE: &str = "Warning: No available formula with the name \"giss\". Did you mean gist?";
const BREW_TWO: &str = "Warning: No available formula with the name \"elasticserar\". Did you mean elasticsearch or elasticsearch@6?";
const BREW_THREE: &str = "Warning: No available formula with the name \"gitt\". Did you mean git, gitg or gist?";
const BREW_NO_ARGUMENT: &str = "Install a formula or cask. Additional options specific to a formula may be";
const BREW_ALREADY_INSTALLED: &str = "Warning: git-2.3.5 already installed";

#[test]
fn brew_install_cases() {
    assert!(brew_install::match_rule(&mut with_stdout("brew install giss", BREW_ONE), None));
    assert!(brew_install::match_rule(&mut with_stdout("brew install elasticserar", BREW_TWO), None));
    assert!(brew_install::match_rule(&mut with_stdout("brew install gitt", BREW_THREE), None));
    assert!(!brew_install::match_rule(&mut with_stdout("brew install git", BREW_ALREADY_INSTALLED), None));
    assert!(!brew_install::match_rule(&mut with_stdout("brew install", BREW_NO_ARGUMENT), None));
    assert_eq!(
        brew_install::get_new_command(&mut with_stdout("brew install giss", BREW_ONE), None),
        vec!["brew install gist"]
    );
    assert_eq!(
        brew_install::get_new_command(&mut with_stdout("brew install elasticsear", BREW_TWO), None),
        vec!["brew install elasticsearch", "brew install elasticsearch@6"]
    );
    assert_eq!(
        brew_install::get_new_command(&mut with_stdout("brew install gitt", BREW_THREE), None),
        vec!["brew install git", "brew install gitg", "brew install gist"]
    );
    assert_ne!(
        brew_install::get_new_command(&mut with_stdout("brew install aa", BREW_ONE), None),
        vec!["brew install aha"]
    );
}

const BREW_LINK_OUTPUT: &str = "Error: Could not symlink bin/gcp\nTarget /usr/local/bin/gcp\nalready exists. You may want to remove it:\n  rm '/usr/local/bin/gcp'\n\nTo force the link and overwrite all conflicting files:\n  brew link --overwrite coreutils\n\nTo list all files that would be deleted:\n  brew link --overwrite --dry-run coreutils\n";

#[test]
fn brew_link_cases() {
    assert!(brew_link::match_rule(&mut with_stdout("brew link coreutils", BREW_LINK_OUTPUT), None));
    assert!(brew_link::match_rule(&mut with_stdout("brew ln coreutils", BREW_LINK_OUTPUT), None));
    assert!(!brew_link::match_rule(&mut with_stdout("brew link coreutils", ""), None));
    assert_eq!(
        brew_link::get_new_command(&mut with_stdout("brew link coreutils", BREW_LINK_OUTPUT), None),
        vec!["brew link --overwrite --dry-run coreutils"]
    );
}

const BREW_REINSTALL_OUTPUT: &str = "Warning: crabtool 9.9 is already installed and up-to-date\nTo reinstall 9.9, run `brew reinstall crabtool`";

#[test]
fn brew_reinstall_cases() {
    assert!(brew_reinstall::match_rule(&mut with_stdout("brew install crabtool", BREW_REINSTALL_OUTPUT), None));
    assert!(!brew_reinstall::match_rule(&mut with_stdout("brew reinstall crabtool", ""), None));
    assert!(!brew_reinstall::match_rule(&mut with_stdout("brew install foo", ""), None));
    assert_eq!(
        brew_reinstall::get_new_command(&mut with_stdout("brew install foo", BREW_REINSTALL_OUTPUT), None),
        vec!["brew reinstall foo"]
    );
    assert_eq!(
        brew_reinstall::get_new_command(&mut with_stdout("brew install bar zap", BREW_REINSTALL_OUTPUT), None),
        vec!["brew reinstall bar zap"]
    );
}

const BREW_UNINSTALL_OUTPUT: &str = "Uninstalling /usr/local/Cellar/tbb/4.4-20160916... (118 files, 1.9M)\ntbb 4.4-20160526, 4.4-20160722 are still installed.\nRemove all versions with `brew uninstall --force tbb`.\n";

#[test]
fn brew_uninstall_cases() {
    for script in ["brew uninstall tbb", "brew rm tbb", "brew remove tbb"] {
        assert!(brew_uninstall::match_rule(&mut with_stdout(script, BREW_UNINSTALL_OUTPUT), None));
    }
    assert!(!brew_uninstall::match_rule(
        &mut with_stdout("brew remove gnuplot", "Uninstalling /usr/local/Cellar/gnuplot/5.0.4_1... (44 files, 2.3M)\n"),
        None
    ));
    assert_eq!(
        brew_uninstall::get_new_command(&mut with_stdout("brew uninstall tbb", BREW_UNINSTALL_OUTPUT), None),
        vec!["brew uninstall --force tbb"]
    );
}

const BREW_UPDATE_OUTPUT: &str = "Error: This command updates brew itself, and does not take formula names.\nUse `brew upgrade crabtool`.";

#[test]
fn brew_update_formula_cases() {
    assert!(brew_update_formula::match_rule(&mut with_stdout("brew update crabtool", BREW_UPDATE_OUTPUT), None));
    assert!(!brew_update_formula::match_rule(&mut with_stdout("brew upgrade foo", ""), None));
    assert!(!brew_update_formula::match_rule(&mut with_stdout("brew update", ""), None));
    for (script, formula) in [("brew update foo", "foo"), ("brew update bar zap", "bar zap")] {
        assert_eq!(
            brew_update_formula::get_new_command(&mut with_stdout(script, BREW_UPDATE_OUTPUT), None)[0],
            format!("brew upgrade {}", formula)
        );
    }
}

#[test]
fn cargo_no_command_cases() {
    let old = "No such subcommand\n\n        Did you mean `build`?\n";
    let new = "error: no such subcommand\n\n\tDid you mean `build`?\n";
    assert!(cargo_no_command::match_rule(&mut with_stdout("cargo buid", old), None));
    assert!(cargo_no_command::match_rule(&mut with_stdout("cargo buils", new), None));
    assert_eq!(cargo_no_command::get_new_command(&mut with_stdout("cargo buid", old), None), vec!["cargo build"]);
    assert_eq!(cargo_no_command::get_new_command(&mut with_stdout("cargo buils", new), None), vec!["cargo build"]);
}
