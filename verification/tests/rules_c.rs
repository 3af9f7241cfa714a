use ohcrab::cli::command::{CrabCommand, SideEffect};
use ohcrab::rules::{
    chmod_x, dirty_untar, dirty_unzip, django_south_merge, docker_image_being_used_by_container,
    docker_login, dry, fix_alt_space, git_clone_missing,
};
use ohcrab::shell::Shell;

fn with_stdout(script: &str, stdout: &str) -> CrabCommand {
    CrabCommand::new(script.to_owned(), Some(stdout.to_owned()), None)
}

#[test]
fn chmod_x_cases() {
    assert!(chmod_x::match_rule_given(&with_stdout("./gradlew build", "gradlew: Permission denied"), true, false));
    assert!(chmod_x::match_rule_given(&with_stdout("./install.sh --help", "install.sh: permission denied"), true, false));
    assert!(!chmod_x::match_rule_given(&with_stdout("./gradlew build", "gradlew: Permission denied"), true, true));
    assert!(!chmod_x::match_rule_given(&with_stdout("./gradlew build", "gradlew: Permission denied"), false, false));
    assert!(!chmod_x::match_rule_given(&with_stdout("./gradlew build", "gradlew: error"), true, false));
    assert!(!chmod_x::match_rule_given(&with_stdout("gradlew build", "gradlew: Permission denied"), true, false));
    assert_eq!(
        chmod_x::get_new_command(&mut with_stdout("./gradlew build", ""), Some(&Shell::Bash))[0],
        "chmod +x gradlew && ./gradlew build"
    );
    assert_eq!(
        chmod_x::get_new_command(&mut with_stdout("./install.sh --help", ""), Some(&Shell::Bash))[0],
        "chmod +x install.sh && ./install.sh --help"
    );
}

#[test]
fn dirty_untar_new_commands() {
    let filenames: Vec<(fn(&str) -> String, fn(&str) -> String)> = vec![
        (|s| format!("foo{}", s), |_s| "foo".to_owned()),
        (|s| format!("\"foo bar{}\"", s), |_s| "'foo bar'".to_owned()),
    ];
    let scripts: Vec<(fn(&str) -> String, fn(&str, &str) -> String)> = vec![
        (|s| format!("tar xvf {}", s), |dir, f| format!("mkdir -p {dir} && tar xvf {f} -C {dir}", dir = dir, f = f)),
        (|s| format!("tar -xvf {}", s), |dir, f| format!("mkdir -p {dir} && tar -xvf {f} -C {dir}", dir = dir, f = f)),
        (
            |s| format!("tar --extract -f {}", s),
            |dir, f| format!("mkdir -p {dir} && tar --extract -f {f} -C {dir}", dir = dir, f = f),
        ),
    ];
    for (filename, quoted) in &filenames {
        for (script, fixed) in &scripts {
            for ext in dirty_untar::tar_extensions() {
                let mut command = with_stdout(&script(&filename(ext)), "");
                assert!(dirty_untar::match_rule(&mut command, None), "{}", command.script);
                assert_eq!(
                    dirty_untar::get_new_command(&mut command, Some(&Shell::Bash)),
                    vec![fixed(&quoted(ext), &filename(ext))]
                );
            }
        }
    }
    assert!(!dirty_untar::match_rule(&mut with_stdout("tar xvf foo.tar -C bar", ""), None));
    assert!(!dirty_untar::match_rule(&mut with_stdout("tar cvf foo.tar a b", ""), None));
    assert_eq!(dirty_untar::get_rule().side_effect, Some(SideEffect::DirtyUntar));
    assert_eq!(dirty_untar::get_rule().name, "tar");
}

#[test]
fn dirty_unzip_cases() {
    let command = with_stdout("unzip foo", "");
    assert_eq!(dirty_unzip::get_zipped_file(&command), Some("foo.zip".to_owned()));
    assert_eq!(dirty_unzip::get_zipped_file(&with_stdout("unzip -o foo.zip bar", "")), Some("foo.zip".to_owned()));
    assert!(dirty_unzip::match_rule_given(&command, true));
    assert!(!dirty_unzip::match_rule_given(&command, false));
    assert!(!dirty_unzip::match_rule_given(&with_stdout("unzip foo -d bar", ""), true));
    assert_eq!(dirty_unzip::get_new_command(&mut with_stdout("unzip foo", ""), None), vec!["unzip foo -d foo.zip"]);
    assert_eq!(
        dirty_unzip::get_new_command(&mut with_stdout("unzip 'foo bar.zip'", ""), None),
        vec!["unzip 'foo bar.zip' -d 'foo bar.zip'"]
    );
    assert_eq!(dirty_unzip::get_rule().side_effect, Some(SideEffect::DirtyUnzip));
}

const DJANGO_OUTPUT: &str = "Running migrations for app:
 ! Migration app:0003_auto... should not have been applied before app:0002_auto__add_field_query_due_date_ but was.
south.exceptions.InconsistentMigrationHistory: Inconsistent migration history
The following options are available:
    --merge: will just attempt the migration ignoring any potential dependency conflicts.
";

#[test]
fn django_south_merge_cases() {
    assert!(django_south_merge::match_rule(&mut with_stdout("./manage.py migrate", DJANGO_OUTPUT), None));
    assert!(django_south_merge::match_rule(&mut with_stdout("python manage.py migrate", DJANGO_OUTPUT), None));
    assert!(!django_south_merge::match_rule(&mut with_stdout("./manage.py migrate", ""), None));
    assert!(!django_south_merge::match_rule(&mut with_stdout("app migrate", DJANGO_OUTPUT), None));
    assert!(!django_south_merge::match_rule(&mut with_stdout("./manage.py test", DJANGO_OUTPUT), None));
    assert_eq!(
        django_south_merge::get_new_command(&mut with_stdout("./manage.py migrate auth", ""), None),
        vec!["./manage.py migrate auth --merge"]
    );
}

const DOCKER_ERR: &str = "Error response from daemon: conflict: unable to delete cd809b04b6ff (cannot be forced) - image is being used by running container e5e2591040d1";

#[test]
fn docker_image_being_used_by_container_cases() {
    assert!(docker_image_being_used_by_container::match_rule(&mut with_stdout("docker image rm -f cd809b04b6ff", DOCKER_ERR), None));
    assert!(!docker_image_being_used_by_container::match_rule(
        &mut with_stdout("docker image rm -f cd809b04b6ff", "bash: docker: command not found"),
        None
    ));
    assert!(!docker_image_being_used_by_container::match_rule(&mut with_stdout("git image rm -f cd809b04b6ff", DOCKER_ERR), None));
    assert_eq!(
        docker_image_being_used_by_container::get_new_command(&mut with_stdout("docker image rm -f cd809b04b6ff", DOCKER_ERR), None),
        vec!["docker container rm -f e5e2591040d1 && docker image rm -f cd809b04b6ff"]
    );
}

#[test]
fn docker_login_cases() {
    let pull = "r#\n    Sending build context to Docker daemon  118.8kB\nStep 1/6 : FROM foo/bar:fdb7c6d\npull access denied for foo/bar, repository does not exist or may require 'docker login'\n#";
    let push = "r#\n    The push refers to repository [artifactory:9090/foo/bar]\npush access denied for foo/bar, repository does not exist or may require 'docker login'\n#";
    let pushed = "r#\n    docker push artifactory:9090/foo/bar:fdb7c6d\nThe push refers to repository [artifactory:9090/foo/bar]\n71f3ad53dfe0: Pushed\ncb95fa0faeb1: Layer already exists\n#";
    assert!(docker_login::match_rule(&mut with_stdout("docker build -t artifactory:9090/foo/bar:fdb7c6d .", pull), None));
    assert!(docker_login::match_rule(&mut with_stdout("docker push artifactory:9090/foo/bar:fdb7c6d", push), None));
    assert!(!docker_login::match_rule(&mut with_stdout("docker push artifactory:9090/foo/bar:fdb7c6d", pushed), None));
    assert_eq!(
        docker_login::get_new_command(&mut with_stdout("docker build -t artifactory:9090/foo/bar:fdb7c6d .", ""), None),
        vec!["docker login && docker build -t artifactory:9090/foo/bar:fdb7c6d ."]
    );
    assert_eq!(
        docker_login::get_new_command(&mut with_stdout("docker push artifactory:9090/foo/bar:fdb7c6d", ""), None),
        vec!["docker login && docker push artifactory:9090/foo/bar:fdb7c6d"]
    );
}

#[test]
fn dry_cases() {
    assert!(dry::match_rule(&mut with_stdout("cd cd foo", ""), None));
    assert!(dry::match_rule(&mut with_stdout("git git push origin/master", ""), None));
    assert!(!dry::match_rule(&mut with_stdout("git push", ""), None));
    assert_eq!(dry::get_new_command(&mut with_stdout("cd cd foo", ""), None), vec!["cd foo"]);
    assert_eq!(
        dry::get_new_command(&mut with_stdout("git git push origin/master", ""), None),
        vec!["git push origin/master"]
    );
    assert_eq!(dry::get_rule().priority, 900);
}

#[test]
fn fix_alt_space_cases() {
    assert!(fix_alt_space::match_rule(
        &mut with_stdout("ps -ef |\u{00A0}grep foo", "-bash: \u{00A0}grep: command not found"),
        None
    ));
    assert!(!fix_alt_space::match_rule(&mut with_stdout("ps -ef | grep foo", ""), None));
    assert!(!fix_alt_space::match_rule(&mut with_stdout("", ""), None));
    assert_eq!(
        fix_alt_space::get_new_command(&mut with_stdout("ps -ef |\u{00A0}grep foo", ""), None),
        vec!["ps -ef | grep foo"]
    );
}

#[test]
fn git_clone_missing_cases() {
    let urls = [
        "https://github.com/nvbn/crabtool.git",
        "https://github.com/nvbn/crabtool",
        "http://github.com/nvbn/crabtool.git",
        "git@github.com:nvbn/crabtool.git",
        "git@github.com:nvbn/crabtool",
        "ssh://git@github.com:nvbn/crabtool.git",
    ];
    let outputs = ["No such file or directory", "not found", "is not recognised as"];
    for url in urls {
        for output in outputs {
            let mut command = with_stdout(url, output);
            assert!(git_clone_missing::match_rule_given(&command, false), "{}", url);
            assert!(git_clone_missing::match_rule(&mut command, None), "{}", url);
            assert_eq!(
                git_clone_missing::get_new_command(&mut command, None),
                vec![format!("git clone {}", url)]
            );
        }
    }
    for script in [
        "",
        "notacommand",
        "ssh git@github.com:nvbn/thefrick.git",
        "git clone foo",
        "git clone https://github.com/nvbn/crabtool.git",
        "github.com/nvbn/crabtool.git",
        "github.com:nvbn/crabtool.git",
        "git clone git clone ssh://git@github.com:nvbn/thefrick.git",
    ] {
        for output in ["No such file or directory", "not found", "is not recognised as", "some other output"] {
            assert!(!git_clone_missing::match_rule_given(&with_stdout(script, output), false), "{}", script);
        }
    }
    assert!(!git_clone_missing::match_rule_given(&with_stdout(urls[0], outputs[0]), true));
}
