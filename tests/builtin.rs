use minishell::builtin::{
    builtin_name, expand_home, finish_cd, finish_type, BuiltInCommand, BuiltinError, BuiltinName,
    Effect, ShellEnv,
};

fn words(ws: &[&str]) -> Vec<String> {
    ws.iter().map(|w| w.to_string()).collect()
}

fn env(home: Option<&str>, path: Option<&str>) -> ShellEnv {
    ShellEnv { home: home.map(|h| h.to_string()), path: path.map(|p| p.to_string()) }
}

#[test]
fn builtin_names_match_any_case() {
    let echo = BuiltInCommand::try_from_string("ECHO".to_string(), words(&["a", "b"]));
    assert_eq!(echo, Ok(BuiltInCommand::Echo(words(&["a", "b"]))));
    assert_eq!(BuiltInCommand::try_from_string("Pwd".to_string(), vec![]), Ok(BuiltInCommand::Pwd));
    let cd = BuiltInCommand::try_from_string("cD".to_string(), words(&["/tmp", "x"]));
    assert_eq!(cd, Ok(BuiltInCommand::Cd("/tmp".to_string())));
}

#[test]
fn other_names_are_not_builtins() {
    let r = BuiltInCommand::try_from_string("ls".to_string(), words(&["-l"]));
    assert_eq!(r, Err(BuiltinError::NotBuiltin));
    assert_eq!(builtin_name("Echo"), None);
    assert_eq!(builtin_name("type"), Some(BuiltinName::Type));
}

#[test]
fn cd_and_type_need_an_argument() {
    let r = BuiltInCommand::try_from_string("cd".to_string(), vec![]);
    assert_eq!(r, Err(BuiltinError::MissingArgument(BuiltinName::Cd)));
    let r = BuiltInCommand::try_from_string("type".to_string(), vec![]);
    assert_eq!(r, Err(BuiltinError::MissingArgument(BuiltinName::Type)));
    assert_eq!(BuiltinError::MissingArgument(BuiltinName::Cd).message(), "cd: missing argument");
}

#[test]
fn exit_reads_its_status() {
    assert_eq!(BuiltInCommand::try_from_string("exit".to_string(), vec![]), Ok(BuiltInCommand::Exit(0)));
    assert_eq!(BuiltInCommand::build(BuiltinName::Exit, words(&["3"])), Ok(BuiltInCommand::Exit(3)));
    assert_eq!(BuiltInCommand::build(BuiltinName::Exit, words(&["-7"])), Ok(BuiltInCommand::Exit(-7)));
    assert_eq!(BuiltInCommand::build(BuiltinName::Exit, words(&["+12"])), Ok(BuiltInCommand::Exit(12)));
}

#[test]
fn malformed_exit_status_is_an_error() {
    let r = BuiltInCommand::build(BuiltinName::Exit, words(&["abc"]));
    assert_eq!(r, Err(BuiltinError::MalformedExitCode("abc".to_string())));
    let message = r.unwrap_err().message();
    assert_eq!(message, "exit: abc: numeric argument required");
}

#[test]
fn echo_joins_with_single_spaces() {
    let e = BuiltInCommand::Echo(words(&["a", "b  c", "d"])).execute(&env(None, None));
    assert_eq!(e, Effect::Print("a b  c d".to_string()));
    let e = BuiltInCommand::Echo(vec![]).execute(&env(None, None));
    assert_eq!(e, Effect::Print(String::new()));
}

#[test]
fn cd_home_goes_to_home() {
    let e = BuiltInCommand::Cd("~".to_string()).execute(&env(Some("/home/me"), None));
    assert_eq!(e, Effect::ChangeDir { target: "/home/me".to_string(), shown: "~".to_string() });
    let e = BuiltInCommand::Cd("~/src".to_string()).execute(&env(Some("/home/me"), None));
    assert_eq!(e, Effect::ChangeDir { target: "/home/me/src".to_string(), shown: "~/src".to_string() });
}

#[test]
fn only_a_leading_tilde_expands() {
    assert_eq!(expand_home("a/~b", &Some("/h".to_string())), "a/~b");
    assert_eq!(expand_home("~~", &Some("/h".to_string())), "/h~");
    assert_eq!(expand_home("~", &None), "~");
}

#[test]
fn cd_to_missing_path_reports_one_line() {
    let m = finish_cd("/no/such/dir", false);
    assert_eq!(m, Some("cd: /no/such/dir: No such file or directory".to_string()));
    assert_eq!(finish_cd("/tmp", true), None);
}

#[test]
fn pwd_and_exit_effects() {
    assert_eq!(BuiltInCommand::Pwd.execute(&env(None, None)), Effect::PrintWorkingDir);
    assert_eq!(BuiltInCommand::Exit(4).execute(&env(None, None)), Effect::Terminate(4));
}

#[test]
fn type_of_a_builtin() {
    let e = BuiltInCommand::Type("echo".to_string()).execute(&env(None, Some("/bin")));
    assert_eq!(e, Effect::Print("echo is a shell builtin".to_string()));
}

#[test]
fn type_of_a_builtin_name_in_other_case_searches() {
    let e = BuiltInCommand::Type("ECHO".to_string()).execute(&env(None, Some("/bin")));
    assert_eq!(e, Effect::Search { name: "ECHO".to_string(), candidates: words(&["/bin/ECHO"]) });
}

#[test]
fn type_of_an_unknown_command() {
    let e = BuiltInCommand::Type("nonexistent_cmd_xyz".to_string()).execute(&env(None, Some("/usr/bin:/bin")));
    let candidates = words(&["/usr/bin/nonexistent_cmd_xyz", "/bin/nonexistent_cmd_xyz"]);
    assert_eq!(e, Effect::Search { name: "nonexistent_cmd_xyz".to_string(), candidates: candidates.clone() });
    let done = finish_type("nonexistent_cmd_xyz", &candidates, &vec![false, false]);
    assert_eq!(done, "nonexistent_cmd_xyz: not found");
}

#[test]
fn type_reports_the_first_existing_file() {
    let candidates = words(&["/a/ls", "/b/ls", "/c/ls"]);
    let done = finish_type("ls", &candidates, &vec![false, true, true]);
    assert_eq!(done, "ls is /b/ls");
}

#[test]
fn type_without_path_finds_nothing() {
    let e = BuiltInCommand::Type("ls".to_string()).execute(&env(None, None));
    assert_eq!(e, Effect::Search { name: "ls".to_string(), candidates: vec![] });
}
