//! Who may do what: the administrator everything, allowed senders questions,
//! every sender with an identity the help text, anonymous senders nothing.

use vstd::prelude::*;
use crate::allowlist::WhiteList;
use crate::command::{Command, CommandView};
use crate::text::eq_text;

verus! {

/// The standing of a sender for one message.
#[derive(Clone, Copy, Debug, PartialEq, Eq, Structural)]
pub enum Decision {
    Admin,
    AllowedUser,
    Denied,
}

/// The characters of an optional text.
pub open spec fn opt_text<'a>(o: Option<&'a str>) -> Option<Seq<char>> {
    match o {
        Some(s) => Some(s@),
        None => None,
    }
}

/// The rules, first match wins: no identity is denied; the administrator is
/// admin; help is open to every identified sender; list changes and listings
/// are the administrator's; a question needs the sender on the allow-list.
pub open spec fn decide(
    admin: Seq<char>,
    sender: Option<Seq<char>>,
    members: Set<Seq<char>>,
    cmd: CommandView,
) -> Decision {
    match sender {
        None => Decision::Denied,
        Some(id) => if id == admin {
            Decision::Admin
        } else {
            match cmd {
                CommandView::Help => Decision::AllowedUser,
                CommandView::AddUser(_) => Decision::Denied,
                CommandView::RemoveUser(_) => Decision::Denied,
                CommandView::ListUsers => Decision::Denied,
                CommandView::Ask(_) => if members.contains(id) {
                    Decision::AllowedUser
                } else {
                    Decision::Denied
                },
            }
        },
    }
}

/// The decision for every combination of identity, administrator, command and
/// membership follows the rule table, one decision each.
pub proof fn law_authorization_table(
    admin: Seq<char>,
    sender: Option<Seq<char>>,
    members: Set<Seq<char>>,
    cmd: CommandView,
)
    ensures
        sender is None ==> decide(admin, sender, members, cmd) == Decision::Denied,
        sender == Some(admin) ==> decide(admin, sender, members, cmd) == Decision::Admin,
        sender matches Some(id) && id != admin ==> decide(admin, sender, members, cmd)
            != Decision::Admin,
        sender matches Some(id) && id != admin && cmd is Help ==> decide(
            admin,
            sender,
            members,
            cmd,
        ) == Decision::AllowedUser,
        sender matches Some(id) && id != admin && (cmd is AddUser || cmd is RemoveUser
            || cmd is ListUsers) ==> decide(admin, sender, members, cmd) == Decision::Denied,
        sender is Some && sender.unwrap() != admin && cmd is Ask ==> (decide(
            admin,
            sender,
            members,
            cmd,
        ) == Decision::AllowedUser <==> members.contains(sender.unwrap())),
        sender is Some && sender.unwrap() != admin && cmd is Ask ==> (decide(
            admin,
            sender,
            members,
            cmd,
        ) == Decision::Denied <==> !members.contains(sender.unwrap())),
{
}

/// The standing of `sender` for `cmd`, from the current allow-list.
pub fn authorize(admin: &str, sender: Option<&str>, store: &WhiteList, cmd: &Command) -> (r:
    Decision)
    ensures
        r == decide(admin@, opt_text(sender), store@, cmd@),
{
    match sender {
        None => Decision::Denied,
        Some(id) => {
            if eq_text(id, admin) {
                Decision::Admin
            } else {
                match cmd {
                    Command::Help => Decision::AllowedUser,
                    Command::AddUser(_) => Decision::Denied,
                    Command::RemoveUser(_) => Decision::Denied,
                    Command::ListUsers => Decision::Denied,
                    Command::Ask(_) => if store.is_allowed(id) {
                        Decision::AllowedUser
                    } else {
                        Decision::Denied
                    },
                }
            }
        },
    }
}

} // verus!
