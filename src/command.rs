//! Routing of inbound text: a command keyword after the `/` sigil, or free
//! text, which is a question for the completion service.

use vstd::prelude::*;
use vstd::string::*;
use crate::text::{is_blank, is_blank_char, trim_spaces, trimmed};

verus! {

/// A routed message.
pub enum Command {
    /// A question for the completion service.
    Ask(String),
    /// Put an identity on the allow-list.
    AddUser(String),
    /// Take an identity off the allow-list.
    RemoveUser(String),
    /// Show the allow-list.
    ListUsers,
    /// Show the command descriptions.
    Help,
}

/// What a [`Command`] holds, as characters.
pub enum CommandView {
    Ask(Seq<char>),
    AddUser(Seq<char>),
    RemoveUser(Seq<char>),
    ListUsers,
    Help,
}

impl View for Command {
    type V = CommandView;

    open spec fn view(&self) -> CommandView {
        match self {
            Command::Ask(q) => CommandView::Ask(q@),
            Command::AddUser(u) => CommandView::AddUser(u@),
            Command::RemoveUser(u) => CommandView::RemoveUser(u@),
            Command::ListUsers => CommandView::ListUsers,
            Command::Help => CommandView::Help,
        }
    }
}

/// The first index from `i` on that holds a blank, or the length of `s`.
pub open spec fn blank_from(s: Seq<char>, i: int) -> int
    decreases s.len() - i,
{
    if i >= s.len() {
        s.len() as int
    } else if is_blank(s[i]) {
        i
    } else {
        blank_from(s, i + 1)
    }
}

/// `a` and `k` are the same letter up to ASCII case (`k` in lower case).
pub open spec fn folds_to(a: char, k: char) -> bool {
    a == k || ('a' <= k && k <= 'z' && (a as u32) + 32 == (k as u32))
}

/// `tok` spells the lower-case keyword `kw`, in any ASCII case.
pub open spec fn spells(tok: Seq<char>, kw: Seq<char>) -> bool {
    tok.len() == kw.len() && forall|i: int| 0 <= i < tok.len() ==> folds_to(#[trigger] tok[i], kw[i])
}

/// The keyword of a text that starts with the sigil: up to the first blank.
pub open spec fn keyword_of(s: Seq<char>) -> Seq<char> {
    s.subrange(1, blank_from(s, 1))
}

/// The argument of a text that starts with the sigil: what follows the
/// keyword, trimmed.
pub open spec fn argument_of(s: Seq<char>) -> Seq<char> {
    trimmed(s.subrange(blank_from(s, 1), s.len() as int))
}

/// `s` starts with the command sigil.
pub open spec fn has_sigil(s: Seq<char>) -> bool {
    s.len() > 0 && s[0] == '/'
}

/// The command that `s` names, where it names one.
pub open spec fn named_command(s: Seq<char>) -> Option<CommandView> {
    if !has_sigil(s) {
        None
    } else {
        let kw = keyword_of(s);
        let arg = argument_of(s);
        if spells(kw, "ask"@) {
            Some(CommandView::Ask(arg))
        } else if spells(kw, "adduser"@) {
            Some(CommandView::AddUser(arg))
        } else if spells(kw, "removeuser"@) {
            Some(CommandView::RemoveUser(arg))
        } else if spells(kw, "listusers"@) && arg.len() == 0 {
            Some(CommandView::ListUsers)
        } else if spells(kw, "help"@) && arg.len() == 0 {
            Some(CommandView::Help)
        } else {
            None
        }
    }
}

/// The routing of `s`: the command it names, else a question made of the
/// whole text.
pub open spec fn routed(s: Seq<char>) -> CommandView {
    match named_command(s) {
        Some(c) => c,
        None => CommandView::Ask(s),
    }
}

/// Every text is routed to one command; a text that names no command (no
/// sigil, an unknown keyword, or arguments after a keyword that takes none) is
/// a question holding the whole text.
pub proof fn law_routing_total(s: Seq<char>)
    ensures
        named_command(s) is None ==> routed(s) == CommandView::Ask(s),
        named_command(s) matches Some(c) ==> routed(s) == c,
        !has_sigil(s) ==> routed(s) == CommandView::Ask(s),
        has_sigil(s) && !spells(keyword_of(s), "ask"@) && !spells(keyword_of(s), "adduser"@)
            && !spells(keyword_of(s), "removeuser"@) && !spells(keyword_of(s), "listusers"@)
            && !spells(keyword_of(s), "help"@) ==> routed(s) == CommandView::Ask(s),
{
}

proof fn lemma_blank_from(s: Seq<char>, i: int, k: int)
    requires
        0 <= i <= k <= s.len(),
        forall|j: int| i <= j < k ==> !is_blank(#[trigger] s[j]),
        k == s.len() || is_blank(s[k]),
    ensures
        blank_from(s, i) == k,
    decreases k - i,
{
    if i < k {
        lemma_blank_from(s, i + 1, k);
    }
}

/// Whether `tok` spells the lower-case keyword `kw` in any ASCII case.
fn spells_keyword(tok: &str, kw: &str) -> (r: bool)
    ensures
        r == spells(tok@, kw@),
{
    let n = tok.unicode_len();
    if n != kw.unicode_len() {
        return false;
    }
    let mut i: usize = 0;
    while i < n
        invariant
            n == tok@.len() == kw@.len(),
            i <= n,
            forall|j: int| 0 <= j < i ==> folds_to(#[trigger] tok@[j], kw@[j]),
        decreases n - i,
    {
        let a = tok.get_char(i);
        let k = kw.get_char(i);
        let same = a == k || ('a' <= k && k <= 'z' && (a as u32) + 32 == (k as u32));
        if !same {
            assert(!folds_to(tok@[i as int], kw@[i as int]));
            return false;
        }
        i = i + 1;
    }
    true
}

/// Routes an inbound text to the command it names, or to a question made of
/// the whole text.
pub fn route(text: &str) -> (r: Command)
    ensures
        r@ == routed(text@),
{
    let n = text.unicode_len();
    if n == 0 || text.get_char(0) != '/' {
        return Command::Ask(String::from_str(text));
    }
    let mut k: usize = 1;
    while k < n && !is_blank_char(text.get_char(k))
        invariant
            n == text@.len(),
            1 <= k <= n,
            forall|j: int| 1 <= j < k ==> !is_blank(#[trigger] text@[j]),
        decreases n - k,
    {
        k = k + 1;
    }
    proof {
        lemma_blank_from(text@, 1, k as int);
    }
    let tok = text.substring_char(1, k);
    let arg = trim_spaces(text.substring_char(k, n));
    if spells_keyword(tok, "ask") {
        Command::Ask(String::from_str(arg))
    } else if spells_keyword(tok, "adduser") {
        Command::AddUser(String::from_str(arg))
    } else if spells_keyword(tok, "removeuser") {
        Command::RemoveUser(String::from_str(arg))
    } else if spells_keyword(tok, "listusers") && arg.unicode_len() == 0 {
        Command::ListUsers
    } else if spells_keyword(tok, "help") && arg.unicode_len() == 0 {
        Command::Help
    } else {
        Command::Ask(String::from_str(text))
    }
}

} // verus!
