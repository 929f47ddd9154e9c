//! Classification of inbound chat messages.
//!
//! The chat surface hands every message here; the answer says what to do
//! with it: refuse an unauthorized sender, answer the two commands, start a
//! pipeline run on a recognized source link, or ask for clarification.
//! Finding the link in free-form text is the pattern matcher's work, behind
//! a trusted wrapper; everything around it is verified.

use vstd::prelude::*;

use crate::text::str_eq;

verus! {

/// The first match of the regular expression `pattern` in `text`; nothing
/// when the pattern does not compile or nothing matches. A function of the
/// two strings alone.
pub uninterp spec fn regex_find(pattern: Seq<char>, text: Seq<char>) -> Option<Seq<char>>;

/// Relies on regex::Regex::new, regex::Regex::find and
/// regex::Match::as_str: the first substring of `text` matched by
/// `pattern`, a function of the two strings alone.
#[verifier::external_body]
fn regex_find_first(pattern: &str, text: &str) -> (r: Option<String>)
    ensures
        match r {
            Some(m) => regex_find(pattern@, text@) == Some(m@),
            None => regex_find(pattern@, text@) is None,
        },
{
    match regex::Regex::new(pattern) {
        Ok(re) => re.find(text).map(|m| m.as_str().to_string()),
        Err(_) => None,
    }
}

/// The pattern that recognizes a source-platform video link in a message.
pub open spec fn link_pattern() -> Seq<char> {
    "(https?://)?(www\\.)?(youtube\\.com/(watch\\?v=|shorts/)|youtu\\.be/)[\\w-]+"@
}

/// What the chat surface is to do with one inbound message.
#[derive(Clone, Debug)]
pub enum MessageAction {
    /// The sender is not among the allowed users; tell them so.
    Refuse,
    /// The start command: greet.
    Welcome,
    /// The help command: list the commands.
    ShowHelp,
    /// A source link was found: run the pipeline on it.
    Process { url: String },
    /// Neither a command nor a link: ask for one.
    Clarify,
}

/// Whether `x` occurs in `xs`.
fn contains_u64(xs: &Vec<u64>, x: u64) -> (r: bool)
    ensures
        r == xs@.contains(x),
{
    let mut i: usize = 0;
    while i < xs.len()
        invariant
            i <= xs@.len(),
            forall|j: int| 0 <= j < i ==> xs@[j] != x,
        decreases xs@.len() - i,
    {
        if xs[i] == x {
            return true;
        }
        i = i + 1;
    }
    false
}

/// Decide what to do with a message: an unauthorized sender is refused
/// before anything else; the two commands answer directly; otherwise the
/// first source link in the text, if any, starts a run.
pub fn classify_message(sender: u64, allowed: &Vec<u64>, text: &str) -> (r: MessageAction)
    ensures
        !allowed@.contains(sender) ==> r is Refuse,
        allowed@.contains(sender) && text@ == "/start"@ ==> r is Welcome,
        allowed@.contains(sender) && text@ != "/start"@ && text@ == "/help"@ ==> r is ShowHelp,
        allowed@.contains(sender) && text@ != "/start"@ && text@ != "/help"@ ==> match regex_find(
            link_pattern(),
            text@,
        ) {
            Some(u) => r matches MessageAction::Process { url } && url@ == u,
            None => r is Clarify,
        },
{
    if !contains_u64(allowed, sender) {
        return MessageAction::Refuse;
    }
    if str_eq(text, "/start") {
        return MessageAction::Welcome;
    }
    if str_eq(text, "/help") {
        return MessageAction::ShowHelp;
    }
    match regex_find_first(
        "(https?://)?(www\\.)?(youtube\\.com/(watch\\?v=|shorts/)|youtu\\.be/)[\\w-]+",
        text,
    ) {
        Some(url) => MessageAction::Process { url },
        None => MessageAction::Clarify,
    }
}

} // verus!
