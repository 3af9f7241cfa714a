use ohcrab::cli::command::CrabCommand;
use ohcrab::rules::{
    cat_dir, cd_mkdir, cd_parent, choco_install, composer_not_command, conda_mistype,
    cp_create_destination, cpp11,
};
use ohcrab::shell::Shell;

fn with_stdout(script: &str, stdout: &str) -> CrabCommand {
    CrabCommand::new(script.to_owned(), Some(stdout.to_owned()), None)
}

#[test]
fn cat_dir_cases() {
    for (script, stdout, is_match) in [
        ("cat foo", "cat: foo: Is a directory\n", true),
        ("cat /foo/bar/", "cat: /foo/bar/: Is a directory\n", true),
        ("cat cat", "cat: cat/: Is a directory\n", true),
        ("cat foo", "foo bar baz", false),
        ("cat foo bar", "foo bar baz", false),
        ("notcat foo bar", "some output", false),
    ] {
        let mut command = with_stdout(script, stdout);
        assert_eq!(cat_dir::mockable_match_rule(&mut command, None, is_match), is_match, "{}", script);
    }
    for (script, stdout, expected) in [
        ("cat foo", "cat: foo: Is a directory\n", vec!["ls foo"]),
        ("cat /foo/bar/", "cat: /foo/bar/: Is a directory\n", vec!["ls /foo/bar/"]),
        ("cat cat", "cat: cat/: Is a directory\n", vec!["ls cat"]),
    ] {
        assert_eq!(cat_dir::get_new_command(&mut with_stdout(script, stdout), None), expected);
    }
}

#[test]
fn cd_mkdir_cases() {
    for (script, stdout, is_match) in [
        ("cd foo", "cd: foo: No such file or directory", true),
        ("cd foo/bar/baz", "cd: foo: No such file or directory", true),
        ("cd foo/bar/baz", "cd: can't cd to foo/bar/baz", true),
        ("cd /foo/bar/", "cd: The directory \"/foo/bar/\" does not exist", true),
        ("cd foo", "", false),
        ("", "", false),
    ] {
        assert_eq!(cd_mkdir::match_rule(&mut with_stdout(script, stdout), None), is_match, "{}", script);
    }
    assert_eq!(cd_mkdir::get_new_command(&mut with_stdout("cd foo", ""), None), vec!["mkdir -p foo && cd foo"]);
    assert_eq!(
        cd_mkdir::get_new_command(&mut with_stdout("cd foo/bar/baz", ""), None),
        vec!["mkdir -p foo/bar/baz && cd foo/bar/baz"]
    );
    assert_eq!(
        cd_mkdir::get_new_command(&mut with_stdout("sudo cd foo", ""), None),
        vec!["sudo mkdir -p foo && cd foo"]
    );
}

#[test]
fn cd_parent_cases() {
    assert!(cd_parent::match_rule(&mut with_stdout("cd..", "cd..: command not found"), None));
    assert!(!cd_parent::match_rule(&mut with_stdout("", ""), None));
    assert_eq!(cd_parent::get_new_command(&mut with_stdout("cd..", ""), None)[0], "cd ..");
}

const PACKAGE_NOT_FOUND_ERROR: &str = "Chocolatey v0.10.15
Installing the following packages:
logstitcher
By installing you accept licenses for the packages.
logstitcher not installed. The package was not found with the source(s) listed.
 Source(s): 'https://chocolatey.org/api/v2/'
Chocolatey installed 0/1 packages. 1 packages failed.
";

#[test]
fn choco_install_cases() {
    for script in [
        "choco install logstitcher",
        "cinst logstitcher",
        "choco install logstitcher -y",
        "cinst logstitcher -y",
        "choco install logstitcher -y -n=test",
        "cinst logstitcher -y -n=test",
        "choco install logstitcher -y -n=test /env",
        "cinst logstitcher -y -n=test /env",
        "choco install chocolatey -y",
        "cinst chocolatey -y",
    ] {
        assert!(choco_install::match_rule(&mut with_stdout(script, PACKAGE_NOT_FOUND_ERROR), None), "{}", script);
    }
    for script in [
        "choco /?",
        "choco upgrade logstitcher",
        "cup logstitcher",
        "choco upgrade logstitcher -y",
        "cup logstitcher -y -n=test /env",
        "choco uninstall logstitcher",
        "cuninst logstitcher",
        "cuninst chocolatey -y",
    ] {
        assert!(!choco_install::match_rule(&mut with_stdout(script, ""), None), "{}", script);
    }
    for (script, expected) in [
        ("choco install logstitcher", "choco install logstitcher.install"),
        ("cinst logstitcher", "cinst logstitcher.install"),
        ("choco install logstitcher -y", "choco install logstitcher.install -y"),
        ("cinst logstitcher -y", "cinst logstitcher.install -y"),
        ("choco install logstitcher -y -n=test", "choco install logstitcher.install -y -n=test"),
        ("cinst logstitcher -y -n=test", "cinst logstitcher.install -y -n=test"),
        ("choco install logstitcher -y -n=test /env", "choco install logstitcher.install -y -n=test /env"),
        ("cinst logstitcher -y -n=test /env", "cinst logstitcher.install -y -n=test /env"),
        ("choco install chocolatey -y", "choco install chocolatey.install -y"),
    ] {
        assert_eq!(choco_install::get_new_command(&mut with_stdout(script, ""), None)[0], expected);
    }
}

const COMPOSER_NOT_COMMAND: &str = "\n\n                                    \n  [InvalidArgumentException]        \n  Command \"udpate\" is not defined.  \n  Did you mean this?                \n      update                        \n                                    \n\n\n";
const COMPOSER_NOT_COMMAND_ONE_OF_THIS: &str = "\n\n                                   \n  [InvalidArgumentException]       \n  Command \"pdate\" is not defined.  \n  Did you mean one of these?       \n      selfupdate                   \n      self-update                  \n      update                       \n                                   \n\n\n";
const COMPOSER_REQUIRE_INSTEAD_OF_INSTALL: &str = "Invalid argument package. Use \"composer require package\" instead to add packages to your composer.json.";

#[test]
fn composer_not_command_cases() {
    assert!(composer_not_command::match_rule(&mut with_stdout("composer udpate", COMPOSER_NOT_COMMAND), None));
    assert!(composer_not_command::match_rule(&mut with_stdout("composer pdate", COMPOSER_NOT_COMMAND_ONE_OF_THIS), None));
    assert!(composer_not_command::match_rule(
        &mut with_stdout("composer install package", COMPOSER_REQUIRE_INSTEAD_OF_INSTALL),
        None
    ));
    assert!(!composer_not_command::match_rule(&mut with_stdout("ls update", COMPOSER_NOT_COMMAND), None));
    assert_eq!(
        composer_not_command::get_new_command(&mut with_stdout("composer udpate", COMPOSER_NOT_COMMAND), None),
        vec!["composer update"]
    );
    assert_eq!(
        composer_not_command::get_new_command(&mut with_stdout("composer pdate", COMPOSER_NOT_COMMAND_ONE_OF_THIS), None),
        vec!["composer selfupdate"]
    );
    assert_eq!(
        composer_not_command::get_new_command(
            &mut with_stdout("composer install package", COMPOSER_REQUIRE_INSTEAD_OF_INSTALL),
            None
        ),
        vec!["composer require package"]
    );
}

#[test]
fn conda_mistype_cases() {
    let response = "\n\nCommandNotFoundError: No command 'conda lst'.\nDid you mean 'conda list'?\n\n";
    assert!(conda_mistype::match_rule(&mut with_stdout("conda lst", response), None));
    assert!(!conda_mistype::match_rule(&mut with_stdout("codna list", "bash: codna: command not found"), None));
    assert_eq!(conda_mistype::get_new_command(&mut with_stdout("conda lst", response), None), vec!["conda list"]);
}

#[test]
fn cp_create_destination_cases() {
    for (script, output, is_match) in [
        ("cp", "cp: directory foo does not exist\n", true),
        ("mv", "No such file or directory", true),
        ("cp", "", false),
        ("mv", "", false),
        ("ls", "No such file or directory", false),
    ] {
        assert_eq!(cp_create_destination::match_rule(&mut with_stdout(script, output), None), is_match);
    }
    for (script, output, expected) in [
        ("cp foo bar/", "cp: directory foo does not exist\n", "mkdir -p bar/ && cp foo bar/"),
        ("mv foo bar/", "No such file or directory", "mkdir -p bar/ && mv foo bar/"),
        ("cp foo bar/baz/", "cp: directory foo does not exist\n", "mkdir -p bar/baz/ && cp foo bar/baz/"),
    ] {
        assert_eq!(
            cp_create_destination::get_new_command(&mut with_stdout(script, output), Some(&Shell::Bash)),
            vec![expected]
        );
    }
    assert_eq!(
        cp_create_destination::get_new_command(&mut with_stdout("cp foo bar/", ""), Some(&Shell::Fish)),
        vec!["mkdir -p bar/; and cp foo bar/"]
    );
}

#[test]
fn cpp11_cases() {
    let gcc = "foo.cpp:1:1: error: This file requires compiler and library support for the ISO C++ 2011 standard. This support must be enabled with the -std=c++11 or -std=gnu++11 compiler options.";
    let clang = "bar.cpp:1:1: warning: using extended identifiers requires -std=c++11 or -std=gnu++11 [-Wc++11-extensions]";
    assert!(cpp11::match_rule(&mut with_stdout("g++ foo.cpp", gcc), None));
    assert!(cpp11::match_rule(&mut with_stdout("clang++ bar.cpp", clang), None));
    assert!(!cpp11::match_rule(
        &mut with_stdout("g++ baz.cpp", "baz.cpp:1:1: error: 'auto' type specifier is a C++11 extension"),
        None
    ));
    assert_eq!(cpp11::get_new_command(&mut with_stdout("g++ foo.cpp", gcc), None), vec!["g++ foo.cpp -std=c++11"]);
    assert_eq!(
        cpp11::get_new_command(&mut with_stdout("clang++ bar.cpp", clang), None),
        vec!["clang++ bar.cpp -std=c++11"]
    );
}
