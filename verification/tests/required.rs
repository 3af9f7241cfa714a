use ohcrab::cli::command::CrabCommand;
use ohcrab::cli::parser::prepare_arguments;
use ohcrab::rules::{apt_get_search, apt_upgrade, brew_install, cargo, cd_cs};
use ohcrab::ARGUMENT_PLACEHOLDER;

#[test]
fn test_prepare_arguments() {
    for (input, exp_output) in [
        (
            vec![
                "arg1".to_owned(),
                "arg2".to_owned(),
                ARGUMENT_PLACEHOLDER.to_owned(),
                "arg3".to_owned(),
            ],
            vec!["arg3", "--", "arg1", "arg2"],
        ),
        (
            vec!["arg1".to_owned(), "arg2".to_owned(), "arg3".to_owned()],
            vec!["--", "arg1", "arg2", "arg3"],
        ),
        (
            vec!["-param".to_owned(), "arg2".to_owned(), "arg3".to_owned()],
            vec!["-param", "arg2", "arg3"],
        ),
    ] {
        assert_eq!(prepare_arguments(input), exp_output);
    }
}

#[test]
fn apt_get_search_test_get_new_command() {
    let mut command = CrabCommand::new("apt-get search foo".to_owned(), Some("".to_owned()), None);
    assert_eq!(apt_get_search::get_new_command(&mut command, None)[0], "apt-cache search foo");
}

#[test]
fn apt_upgrade_test_match_rule() {
    assert!(apt_upgrade::_match_rule(&CrabCommand::new(
        "apt list --upgradable".to_owned(),
        Some("multiple\nlines".to_owned()),
        None
    )));
    assert!(!apt_upgrade::_match_rule(&CrabCommand::new(
        "sudo apt list --upgradable".to_owned(),
        Some("multiple\nlines".to_owned()),
        None
    )));
    assert!(apt_upgrade::match_rule(
        &mut CrabCommand::new(
            "sudo apt list --upgradable".to_owned(),
            Some("multiple\nlines".to_owned()),
            None
        ),
        None
    ));
}

#[test]
fn test_suggestions() {
    assert_eq!(brew_install::get_suggestions("one".to_owned()), ["one"]);
    assert_eq!(brew_install::get_suggestions("one or two".to_owned()), ["one", "two"]);
    assert_eq!(
        brew_install::get_suggestions("one, two or three".to_owned()),
        ["one", "two", "three"]
    );
}

#[test]
fn cargo_test_match_rule() {
    assert!(cargo::match_rule(
        &mut CrabCommand::new("cargo".to_owned(), Some("multiple\nlines".to_owned()), None),
        None
    ));
    assert!(!cargo::match_rule(
        &mut CrabCommand::new("acargo".to_owned(), Some("multiple\nlines".to_owned()), None),
        None
    ));
}

#[test]
fn cd_cs_test_match_rule() {
    assert!(cd_cs::match_rule(
        &mut CrabCommand::new("cs".to_owned(), Some("cs: command not found".to_owned()), None),
        None
    ));
    assert!(cd_cs::match_rule(
        &mut CrabCommand::new("cs /etc/".to_owned(), Some("cs: command not found".to_owned()), None),
        None
    ));
}

#[test]
fn cd_cs_test_get_new_command() {
    assert_eq!(
        cd_cs::get_new_command(
            &mut CrabCommand::new("cs /etc/".to_owned(), Some("cs: command not found".to_owned()), None),
            None
        ),
        vec!["cd /etc/"]
    )
}
