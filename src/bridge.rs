//! What the bridge does with a mention: invite a local user, turn a remote
//! one away, and the texts it sends.
use vstd::prelude::*;
use vstd::string::{StringExecFns, StrSliceExecFns};
use crate::api::Note;

verus! {

/// How long an invite stays usable, in seconds.
pub const INVITE_MAX_AGE_SECS: u64 = 3600;

/// How many times an invite can be used.
pub const INVITE_MAX_USES: u64 = 1;

pub open spec fn is_prefix(prefix: Seq<char>, s: Seq<char>) -> bool {
    prefix.len() <= s.len() && s.subrange(0, prefix.len() as int) == prefix
}

pub fn starts_with(s: &str, prefix: &str) -> (r: bool)
    ensures
        r == is_prefix(prefix@, s@),
{
    let n = prefix.unicode_len();
    let m = s.unicode_len();
    if n > m {
        return false;
    }
    let mut i: usize = 0;
    while i < n
        invariant
            n == prefix@.len(),
            m == s@.len(),
            n <= m,
            i <= n,
            forall|k: int| 0 <= k < i ==> #[trigger] s@[k] == prefix@[k],
        decreases n - i,
    {
        if s.get_char(i) != prefix.get_char(i) {
            assert(s@.subrange(0, n as int)[i as int] != prefix@[i as int]);
            return false;
        }
        i = i + 1;
    }
    assert(s@.subrange(0, n as int) =~= prefix@);
    true
}

#[derive(Clone, Copy, PartialEq, Eq, Structural, Debug)]
pub enum MentionAction {
    /// Not addressed to the bot.
    Ignore,
    /// A user of this server: issue an invite and reply with it.
    Invite,
    /// A user of another server: reply with a refusal.
    RejectRemote,
}

/// A note is a request when its text begins with the bot's name; a request
/// from a user with no host is local.
pub open spec fn mention_action_spec(note: Note, bot_username: Seq<char>) -> MentionAction {
    match note.text {
        Some(t) if is_prefix(bot_username, t@) => if note.user.host is None {
            MentionAction::Invite
        } else {
            MentionAction::RejectRemote
        },
        _ => MentionAction::Ignore,
    }
}

pub fn mention_action(note: &Note, bot_username: &String) -> (r: MentionAction)
    ensures
        r == mention_action_spec(*note, bot_username@),
{
    match &note.text {
        Some(t) => {
            if starts_with(t.as_str(), bot_username.as_str()) {
                match &note.user.host {
                    None => MentionAction::Invite,
                    Some(_) => MentionAction::RejectRemote,
                }
            } else {
                MentionAction::Ignore
            }
        },
        None => MentionAction::Ignore,
    }
}

/// The audit reason of an invite: `@<username>@<host> (<user id>)`.
pub fn invite_reason(note: &Note, misskey_host: &String) -> (r: String)
    ensures
        r@ == "@"@ + note.user.username@ + "@"@ + misskey_host@ + " ("@ + note.user.id@ + ")"@,
{
    let mut s = "@".to_owned();
    s.append(note.user.username.as_str());
    s.append("@");
    s.append(misskey_host.as_str());
    s.append(" (");
    s.append(note.user.id.as_str());
    s.append(")");
    s
}

/// `https://discord.gg/<code>`.
pub fn invite_url(code: &String) -> (r: String)
    ensures
        r@ == "https://discord.gg/"@ + code@,
{
    let mut s = "https://discord.gg/".to_owned();
    s.append(code.as_str());
    s
}

/// The reply that hands out an invite: `@<username> <message>` and the link on
/// the next line.
pub fn invite_reply(note: &Note, message: &String, url: &String) -> (r: String)
    ensures
        r@ == "@"@ + note.user.username@ + " "@ + message@ + "\n"@ + url@,
{
    let mut s = "@".to_owned();
    s.append(note.user.username.as_str());
    s.append(" ");
    s.append(message.as_str());
    s.append("\n");
    s.append(url.as_str());
    s
}

/// The reply that turns a remote user away: `@<username> <message>`.
pub fn reject_reply(note: &Note, message: &String) -> (r: String)
    ensures
        r@ == "@"@ + note.user.username@ + " "@ + message@,
{
    let mut s = "@".to_owned();
    s.append(note.user.username.as_str());
    s.append(" ");
    s.append(message.as_str());
    s
}

} // verus!
