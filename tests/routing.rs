use relay_gate::{route, Command};

fn ask_of(text: &str) -> String {
    match route(text) {
        Command::Ask(q) => q,
        _ => panic!("not a question"),
    }
}

#[test]
fn ask_command_takes_trimmed_argument() {
    assert_eq!(ask_of("/ask   hello world  "), "hello world");
}

#[test]
fn keyword_is_case_insensitive() {
    match route("/AddUser \t bob ") {
        Command::AddUser(u) => assert_eq!(u, "bob"),
        _ => panic!("expected an add"),
    }
    match route("/REMOVEUSER carol") {
        Command::RemoveUser(u) => assert_eq!(u, "carol"),
        _ => panic!("expected a removal"),
    }
}

#[test]
fn unit_commands() {
    assert!(matches!(route("/listusers"), Command::ListUsers));
    assert!(matches!(route("/Help"), Command::Help));
    assert!(matches!(route("/help   "), Command::Help));
}

#[test]
fn unit_command_with_argument_is_free_text() {
    assert_eq!(ask_of("/help me"), "/help me");
}

#[test]
fn unknown_keyword_is_free_text() {
    assert_eq!(ask_of("/weather tomorrow"), "/weather tomorrow");
    assert_eq!(ask_of("/"), "/");
}

#[test]
fn text_without_sigil_is_free_text() {
    assert_eq!(ask_of("what is rust?"), "what is rust?");
    assert_eq!(ask_of(" /ask x"), " /ask x");
    assert_eq!(ask_of(""), "");
}

#[test]
fn command_without_argument_has_empty_argument() {
    assert_eq!(ask_of("/ask"), "");
    match route("/adduser") {
        Command::AddUser(u) => assert_eq!(u, ""),
        _ => panic!("expected an add"),
    }
}

#[test]
fn keyword_ends_at_newline() {
    match route("/adduser\ndave") {
        Command::AddUser(u) => assert_eq!(u, "dave"),
        _ => panic!("expected an add"),
    }
}
