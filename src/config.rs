//! The settings the bridge starts with.
use vstd::prelude::*;

verus! {

#[derive(PartialEq, Eq, Debug)]
pub struct Config {
    pub misskey_host: String,
    pub misskey_bot_username: String,
    pub misskey_bot_token: String,
    pub discord_bot_token: String,
    pub discord_channel_invite: u64,
    pub discord_activity_watching: String,
    pub bot_reply_message_ok_invite: String,
    pub bot_reply_message_err_remote_user: String,
}

} // verus!
