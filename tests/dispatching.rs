use relay_gate::{
    add_reply, answer_text, authorize, list_reply, plan, read_response, remove_reply,
    request_body, route, Action, Change, CompletionError, Decision, WhiteList,
    COMPLETION_MODEL,
};

const DENIED: &str = "⛔️ Access denied";
const FAILURE: &str = "Error contacting OpenAI.";

fn reply_of(a: Action) -> String {
    match a {
        Action::Reply(t) => t,
        _ => panic!("expected a reply"),
    }
}

fn store_of(v: &[&str]) -> WhiteList {
    WhiteList::from_users(v.iter().map(|s| s.to_string()).collect())
}

#[test]
fn admin_adds_then_user_asks() {
    let mut wl = WhiteList::new();
    let user = match plan("alice", Some("alice"), "/adduser bob", &wl) {
        Action::Add(u) => u,
        _ => panic!("expected an add"),
    };
    assert_eq!(user, "bob");
    let staged = wl.staged_add(&user);
    let change = wl.settle(staged, true);
    assert!(wl.is_allowed("bob"));
    assert_eq!(add_reply(&user, change), "✅ Added @bob");

    let prompt = match plan("alice", Some("bob"), "/ask hello", &wl) {
        Action::Complete(q) => q,
        _ => panic!("expected a question"),
    };
    assert_eq!(prompt, "hello");
    let body = "{\"choices\":[{\"message\":{\"role\":\"assistant\",\"content\":\"Hi there\"}}]}";
    assert_eq!(answer_text(read_response(200, body)), "Hi there");
}

#[test]
fn anonymous_add_is_denied() {
    let wl = store_of(&["a"]);
    let a = plan("alice", None, "/adduser eve", &wl);
    assert_eq!(reply_of(a), DENIED);
    assert!(!wl.is_allowed("eve"));
    assert_eq!(wl.list(), vec!["a".to_string()]);
}

#[test]
fn allowed_user_cannot_list() {
    let wl = store_of(&["bob"]);
    assert_eq!(reply_of(plan("alice", Some("bob"), "/listusers", &wl)), DENIED);
}

#[test]
fn server_error_gives_generic_reply() {
    let r = read_response(500, "{\"error\":{\"message\":\"boom\"}}");
    assert_eq!(r, Err(CompletionError::Status(500)));
    assert_eq!(answer_text(r), FAILURE);
}

#[test]
fn admin_lists_users() {
    let wl = store_of(&["bob", "carol"]);
    assert_eq!(
        reply_of(plan("alice", Some("alice"), "/listusers", &wl)),
        "👥 Whitelisted:\n@bob\n@carol"
    );
    assert_eq!(list_reply(&WhiteList::new()), "👥 Whitelisted:\n@");
}

#[test]
fn help_is_open_to_identified_senders() {
    let wl = WhiteList::new();
    let text = reply_of(plan("alice", Some("stranger"), "/help", &wl));
    assert!(text.starts_with("Available commands:"));
    assert!(text.contains("/adduser"));
    assert_eq!(reply_of(plan("alice", None, "/help", &wl)), DENIED);
}

#[test]
fn free_text_from_allowed_user_is_a_question() {
    let wl = store_of(&["bob"]);
    match plan("alice", Some("bob"), "how are you?", &wl) {
        Action::Complete(q) => assert_eq!(q, "how are you?"),
        _ => panic!("expected a question"),
    }
    assert_eq!(reply_of(plan("alice", Some("dan"), "how are you?", &wl)), DENIED);
}

#[test]
fn admin_removes_user() {
    match plan("alice", Some("alice"), "/removeuser bob", &store_of(&["bob"])) {
        Action::Remove(u) => assert_eq!(u, "bob"),
        _ => panic!("expected a removal"),
    }
    assert_eq!(reply_of(plan("alice", Some("bob"), "/removeuser bob", &store_of(&["bob"]))), DENIED);
}

#[test]
fn authorization_table() {
    let wl = store_of(&["bob"]);
    let ask = route("/ask x");
    let add = route("/adduser x");
    let rm = route("/removeuser x");
    let list = route("/listusers");
    let help = route("/help");
    for c in [&ask, &add, &rm, &list, &help] {
        assert_eq!(authorize("alice", None, &wl, c), Decision::Denied);
        assert_eq!(authorize("alice", Some("alice"), &wl, c), Decision::Admin);
    }
    assert_eq!(authorize("alice", Some("bob"), &wl, &ask), Decision::AllowedUser);
    assert_eq!(authorize("alice", Some("dan"), &wl, &ask), Decision::Denied);
    assert_eq!(authorize("alice", Some("bob"), &wl, &help), Decision::AllowedUser);
    assert_eq!(authorize("alice", Some("dan"), &wl, &help), Decision::AllowedUser);
    for c in [&add, &rm, &list] {
        assert_eq!(authorize("alice", Some("bob"), &wl, c), Decision::Denied);
        assert_eq!(authorize("alice", Some("dan"), &wl, c), Decision::Denied);
    }
    assert_eq!(authorize("alice", Some("Alice"), &wl, &add), Decision::Denied);
}

#[test]
fn change_replies() {
    assert_eq!(add_reply("bob", Change::Unchanged), "ℹ️ @bob already in whitelist");
    assert_eq!(remove_reply("bob", Change::Changed), "🗑 Removed @bob");
    assert_eq!(remove_reply("bob", Change::Unchanged), "⚠️ @bob was not in whitelist");
    assert_eq!(
        add_reply("bob", Change::NotSaved),
        "⚠️ Could not save the whitelist; nothing changed."
    );
}

#[test]
fn request_body_is_exact() {
    assert_eq!(
        request_body(COMPLETION_MODEL, "say \"hi\""),
        "{\"model\":\"gpt-4.1\",\"messages\":[{\"role\":\"user\",\"content\":\"say \\\"hi\\\"\"}]}"
    );
}

#[test]
fn response_without_choices_is_malformed() {
    assert_eq!(read_response(200, "{\"choices\":[]}"), Err(CompletionError::Malformed));
    assert_eq!(read_response(200, "<html>"), Err(CompletionError::Malformed));
    assert_eq!(read_response(404, ""), Err(CompletionError::Status(404)));
    assert_eq!(answer_text(Err(CompletionError::Transport)), FAILURE);
}
