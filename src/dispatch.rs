//! One inbound message to one action: a reply, a question for the completion
//! service, or a change to the allow-list; and the replies that follow them.

use vstd::prelude::*;
use vstd::string::*;
use crate::allowlist::{Change, WhiteList};
use crate::command::{named_command, route, routed, Command, CommandView};
use crate::policy::{authorize, decide, opt_text, Decision};

verus! {

/// What to do for one inbound message.
pub enum Action {
    /// Send this text back.
    Reply(String),
    /// Put this question to the completion service and send back the answer.
    Complete(String),
    /// Add this identity to the allow-list and report how it went.
    Add(String),
    /// Remove this identity from the allow-list and report how it went.
    Remove(String),
}

/// What an [`Action`] holds, as characters.
pub enum ActionView {
    Reply(Seq<char>),
    Complete(Seq<char>),
    Add(Seq<char>),
    Remove(Seq<char>),
}

impl View for Action {
    type V = ActionView;

    open spec fn view(&self) -> ActionView {
        match self {
            Action::Reply(t) => ActionView::Reply(t@),
            Action::Complete(q) => ActionView::Complete(q@),
            Action::Add(u) => ActionView::Add(u@),
            Action::Remove(u) => ActionView::Remove(u@),
        }
    }
}

/// The reply to a sender who may not do what they asked.
pub open spec fn denied_text() -> Seq<char> {
    "⛔️ Access denied"@
}

/// The command descriptions.
pub open spec fn help_text() -> Seq<char> {
    "Available commands:\n\n/ask — Ask something to GPT.\n/adduser — Add user to white list.\n/removeuser — Remove user from white list.\n/listusers — Show authorized users.\n/help — Show help"@
}

/// The identities separated by a line break and an `@`.
pub open spec fn joined(e: Seq<Seq<char>>) -> Seq<char>
    decreases e.len(),
{
    if e.len() == 0 {
        Seq::empty()
    } else if e.len() == 1 {
        e[0]
    } else {
        joined(e.drop_last()) + "\n@"@ + e.last()
    }
}

/// The listing of the allow-list, one `@identity` per line.
pub open spec fn list_text(e: Seq<Seq<char>>) -> Seq<char> {
    "👥 Whitelisted:\n@"@ + joined(e)
}

/// The reply when the allow-list could not be saved.
pub open spec fn not_saved_text() -> Seq<char> {
    "⚠️ Could not save the whitelist; nothing changed."@
}

/// The reply to an add of `u` that ended in `c`.
pub open spec fn add_text(u: Seq<char>, c: Change) -> Seq<char> {
    match c {
        Change::Changed => "✅ Added @"@ + u,
        Change::Unchanged => "ℹ️ @"@ + u + " already in whitelist"@,
        Change::NotSaved => not_saved_text(),
    }
}

/// The reply to a removal of `u` that ended in `c`.
pub open spec fn remove_text(u: Seq<char>, c: Change) -> Seq<char> {
    match c {
        Change::Changed => "🗑 Removed @"@ + u,
        Change::Unchanged => "⚠️ @"@ + u + " was not in whitelist"@,
        Change::NotSaved => not_saved_text(),
    }
}

/// What carrying out `cmd` comes to, on a list with entries `entries`.
pub open spec fn executed(cmd: CommandView, entries: Seq<Seq<char>>) -> ActionView {
    match cmd {
        CommandView::Help => ActionView::Reply(help_text()),
        CommandView::ListUsers => ActionView::Reply(list_text(entries)),
        CommandView::AddUser(u) => ActionView::Add(u),
        CommandView::RemoveUser(u) => ActionView::Remove(u),
        CommandView::Ask(q) => ActionView::Complete(q),
    }
}

/// The action for `text` from `sender`, given the administrator `admin` and
/// the allow-list with set `members` and entries `entries`.
pub open spec fn planned(
    admin: Seq<char>,
    sender: Option<Seq<char>>,
    text: Seq<char>,
    members: Set<Seq<char>>,
    entries: Seq<Seq<char>>,
) -> ActionView {
    let cmd = routed(text);
    if decide(admin, sender, members, cmd) == Decision::Denied {
        ActionView::Reply(denied_text())
    } else {
        executed(cmd, entries)
    }
}

/// The administrator's message is carried out whatever it asks, on the list or
/// not; an anonymous message is denied; free text from another sender goes to
/// the completion service as it stands exactly when the sender is on the list,
/// and is denied otherwise; an add, removal or listing from another sender is
/// denied.
pub proof fn law_plan_outcomes(
    admin: Seq<char>,
    sender: Option<Seq<char>>,
    text: Seq<char>,
    members: Set<Seq<char>>,
    entries: Seq<Seq<char>>,
)
    ensures
        sender == Some(admin) ==> planned(admin, sender, text, members, entries) == executed(
            routed(text),
            entries,
        ),
        sender is None ==> planned(admin, sender, text, members, entries) == ActionView::Reply(
            denied_text(),
        ),
        sender is Some && sender.unwrap() != admin && named_command(text) is None ==> planned(
            admin,
            sender,
            text,
            members,
            entries,
        ) == if members.contains(sender.unwrap()) {
            ActionView::Complete(text)
        } else {
            ActionView::Reply(denied_text())
        },
        sender is Some && sender.unwrap() != admin && (routed(text) is AddUser || routed(
            text,
        ) is RemoveUser || routed(text) is ListUsers) ==> planned(
            admin,
            sender,
            text,
            members,
            entries,
        ) == ActionView::Reply(denied_text()),
{
}

/// The listing of `store`.
pub fn list_reply(store: &WhiteList) -> (r: String)
    ensures
        r@ == list_text(store.entries()),
{
    let users = store.list();
    let mut out = String::from_str("👥 Whitelisted:\n@");
    let ghost head = out@;
    let mut i: usize = 0;
    while i < users.len()
        invariant
            i <= users@.len(),
            crate::json::texts_view(users@) == store.entries(),
            out@ == head + joined(store.entries().subrange(0, i as int)),
            head == "👥 Whitelisted:\n@"@,
        decreases users@.len() - i,
    {
        let ghost e = store.entries().subrange(0, i + 1);
        proof {
            assert(e.drop_last() =~= store.entries().subrange(0, i as int));
            assert(e.last() == users@[i as int]@);
        }
        if i > 0 {
            out.append("\n@");
        }
        out.append(users[i].as_str());
        assert(out@ =~= head + joined(e));
        i = i + 1;
    }
    assert(store.entries().subrange(0, i as int) =~= store.entries());
    out
}

/// The reply to an add of `user` that ended in `change`.
pub fn add_reply(user: &str, change: Change) -> (r: String)
    ensures
        r@ == add_text(user@, change),
{
    match change {
        Change::Changed => String::from_str("✅ Added @").concat(user),
        Change::Unchanged => String::from_str("ℹ️ @").concat(user).concat(" already in whitelist"),
        Change::NotSaved => String::from_str("⚠️ Could not save the whitelist; nothing changed."),
    }
}

/// The reply to a removal of `user` that ended in `change`.
pub fn remove_reply(user: &str, change: Change) -> (r: String)
    ensures
        r@ == remove_text(user@, change),
{
    match change {
        Change::Changed => String::from_str("🗑 Removed @").concat(user),
        Change::Unchanged => String::from_str("⚠️ @").concat(user).concat(" was not in whitelist"),
        Change::NotSaved => String::from_str("⚠️ Could not save the whitelist; nothing changed."),
    }
}

/// Routes `text`, authorizes `sender` for it against `store`, and says what
/// to do: a denial, the help text or the listing as a reply, a question, or a
/// change to the allow-list.
pub fn plan(admin: &str, sender: Option<&str>, text: &str, store: &WhiteList) -> (r: Action)
    ensures
        r@ == planned(admin@, opt_text(sender), text@, store@, store.entries()),
{
    let cmd = route(text);
    let decision = authorize(admin, sender, store, &cmd);
    if decision == Decision::Denied {
        return Action::Reply(String::from_str("⛔️ Access denied"));
    }
    match cmd {
        Command::Help => Action::Reply(
            String::from_str(
                "Available commands:\n\n/ask — Ask something to GPT.\n/adduser — Add user to white list.\n/removeuser — Remove user from white list.\n/listusers — Show authorized users.\n/help — Show help",
            ),
        ),
        Command::ListUsers => Action::Reply(list_reply(store)),
        Command::AddUser(u) => Action::Add(u),
        Command::RemoveUser(u) => Action::Remove(u),
        Command::Ask(q) => Action::Complete(q),
    }
}

} // verus!
