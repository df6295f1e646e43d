use vstd::prelude::*;
use crate::definition::Definition;
use crate::format::{console_text, format_console, format_reply, reply_line};
use crate::lookup::segments;
use crate::lookup::LookupError;
use crate::prelude::{dispatch, dispatched, PreludeTable};
use crate::provider::doc_url;
use crate::provider::AnalysisIndex;
use crate::text::{same_text, trim, trimmed};

verus! {

/// The command in a chat message `text` sent to `target` by someone, for a
/// bot named `me`. A direct message (to `me`) is a command as a whole; a
/// channel message is one only when it starts with `me` followed by `,` or
/// `:`, and the command is the rest. Either way the command is trimmed and
/// not empty.
pub open spec fn command_of(text: Seq<char>, target: Seq<char>, me: Seq<char>) -> Option<
    Seq<char>,
> {
    let t = trimmed(text);
    if target == me {
        if t.len() > 0 {
            Some(t)
        } else {
            None
        }
    } else if t.len() > me.len() && t.subrange(0, me.len() as int) == me && (t[me.len() as int]
        == ',' || t[me.len() as int] == ':') && trimmed(
        t.subrange(me.len() + 1int, t.len() as int),
    ).len() > 0 {
        Some(trimmed(t.subrange(me.len() + 1int, t.len() as int)))
    } else {
        None
    }
}

/// The reply to an empty lookup in a chat.
pub open spec fn no_results_line(cmd: Seq<char>) -> Seq<char> {
    "No results for \""@ + trimmed(cmd) + "\"."@
}

/// The console's answer to an empty lookup.
pub open spec fn no_results_console(query: Seq<char>) -> Seq<char> {
    "No results for \""@ + trimmed(query) + "\""@
}

/// The command a chat message holds for the bot, if any.
pub fn extract_command<'a>(text: &'a str, target: &str, me: &str) -> (r: Option<&'a str>)
    ensures
        r is None <==> command_of(text@, target@, me@) is None,
        r matches Some(c) ==> command_of(text@, target@, me@) == Some(c@),
{
    let t = trim(text);
    let n = t.unicode_len();
    if same_text(target, me) {
        if n > 0 {
            return Some(t);
        } else {
            return None;
        }
    }
    let m = me.unicode_len();
    if n <= m {
        return None;
    }
    let head = t.substring_char(0, m);
    if !same_text(head, me) {
        return None;
    }
    let c = t.get_char(m);
    if c != ',' && c != ':' {
        return None;
    }
    let rest = trim(t.substring_char(m + 1, n));
    if rest.unicode_len() == 0 {
        None
    } else {
        Some(rest)
    }
}

/// Where the reply to a message goes: the sender for a direct message (sent
/// to `me`), the channel otherwise.
pub fn reply_target<'a>(target: &'a str, sender: &'a str, me: &str) -> (r: &'a str)
    ensures
        r@ == (if target@ == me@ {
            sender@
        } else {
            target@
        }),
{
    if same_text(target, me) {
        sender
    } else {
        target
    }
}

/// The line a console reads as a query: its trimmed text, or `None` (the end
/// of the session) where that is empty.
pub fn console_query(line: &str) -> (r: Option<&str>)
    ensures
        r is None <==> trimmed(line@).len() == 0,
        r matches Some(q) ==> q@ == trimmed(line@),
{
    let t = trim(line);
    if t.unicode_len() == 0 {
        None
    } else {
        Some(t)
    }
}

/// `No results for "<cmd>".`, with `cmd` trimmed.
pub fn no_results_reply(cmd: &str) -> (r: String)
    ensures
        r@ == no_results_line(cmd@),
{
    let mut out = String::from_str("No results for \"");
    out.append(trim(cmd));
    out.append("\".");
    out
}

/// `No results for "<query>"`, with `query` trimmed.
pub fn no_results_text(query: &str) -> (r: String)
    ensures
        r@ == no_results_console(query@),
{
    let mut out = String::from_str("No results for \"");
    out.append(trim(query));
    out.append("\"");
    out
}

/// The chat reply for what a command resolved to: its reply line, or the
/// no-results line where it resolved to nothing or the lookup failed.
pub open spec fn chat_reply(cmd: Seq<char>, found: Result<Option<Definition>, LookupError>, url: Option<Seq<char>>) -> Seq<char> {
    match found {
        Ok(Some(d)) => reply_line(d, url),
        _ => no_results_line(cmd),
    }
}

/// The console's answer for what a query resolved to.
pub open spec fn console_answer(query: Seq<char>, found: Result<Option<Definition>, LookupError>, url: Option<Seq<char>>) -> Seq<char> {
    match found {
        Ok(Some(d)) => console_text(d, url),
        _ => no_results_console(query),
    }
}

pub open spec fn opt_view(u: Option<&str>) -> Option<Seq<char>> {
    match u {
        None => None,
        Some(s) => Some(s@),
    }
}

/// The chat reply for what `cmd` resolved to, with the documentation URL
/// where there is one.
pub fn reply_from(cmd: &str, found: &Result<Option<Definition>, LookupError>, url: Option<&str>) -> (r: String)
    ensures
        r@ == chat_reply(cmd@, *found, opt_view(url)),
{
    match found {
        Ok(Some(d)) => format_reply(d, url),
        _ => no_results_reply(cmd),
    }
}

/// The console's answer for what `query` resolved to, with the documentation
/// URL where there is one.
pub fn console_from(query: &str, found: &Result<Option<Definition>, LookupError>, url: Option<&str>) -> (r: String)
    ensures
        r@ == console_answer(query@, *found, opt_view(url)),
{
    match found {
        Ok(Some(d)) => format_console(d, url),
        _ => no_results_text(query),
    }
}

/// The documentation URL of what a lookup found, where the index has one.
fn url_of(index: &AnalysisIndex, found: &Result<Option<Definition>, LookupError>) -> (r: Option<String>)
    ensures
        !(found matches Ok(Some(_))) ==> r is None,
{
    match found {
        Ok(Some(d)) => match doc_url(index, &d.span) {
            Ok(u) => Some(u),
            Err(_) => None,
        },
        _ => None,
    }
}

fn as_opt_str(u: &Option<String>) -> (r: Option<&str>)
    ensures
        opt_view(r) == match u {
            None => None,
            Some(s) => Some(s@),
        },
{
    match u {
        Some(s) => Some(s.as_str()),
        None => None,
    }
}

/// The chat reply to a command: what `dispatch` answered, put by
/// `reply_from`. A failed lookup is answered like an empty one, so one
/// message never stops the bot.
pub fn reply_to_command(table: &PreludeTable, index: &AnalysisIndex, cmd: &str) -> (r: String)
    ensures
        segments(cmd@).len() == 0 ==> r@ == no_results_line(cmd@),
        exists|found: Result<Option<Definition>, LookupError>, url: Option<Seq<char>>|
            dispatched(table@, cmd@, found) && r@ == #[trigger] chat_reply(cmd@, found, url),
{
    let found = dispatch(table, index, cmd);
    let url = url_of(index, &found);
    let u = as_opt_str(&url);
    let r = reply_from(cmd, &found, u);
    assert(dispatched(table@, cmd@, found) && r@ == chat_reply(cmd@, found, opt_view(u)));
    r
}

/// The console's answer to a query: what `dispatch` answered, put by
/// `console_from`.
pub fn answer_query(table: &PreludeTable, index: &AnalysisIndex, query: &str) -> (r: String)
    ensures
        segments(query@).len() == 0 ==> r@ == no_results_console(query@),
        exists|found: Result<Option<Definition>, LookupError>, url: Option<Seq<char>>|
            dispatched(table@, query@, found) && r@ == #[trigger] console_answer(query@, found, url),
{
    let found = dispatch(table, index, query);
    let url = url_of(index, &found);
    let u = as_opt_str(&url);
    let r = console_from(query, &found, u);
    assert(dispatched(table@, query@, found) && r@ == console_answer(query@, found, opt_view(u)));
    r
}

} // verus!
