//! The auxiliary participant lookup: the data it returns and the
//! request URL it is made with. The HTTPS call itself is the
//! runtime's; it hands the decoded participants back as plain values.

use vstd::prelude::*;
use vstd::string::StringExecFns;

verus! {

/// One participant currently present in the channel, as the auxiliary
/// lookup returns it.
pub struct Chatter {
    /// The participant's numeric user id, as decimal text.
    pub user_id: String,
    /// The participant's login name.
    pub user_login: String,
    /// The participant's display name.
    pub user_name: String,
}

/// The fixed participant-lookup endpoint, with the broadcaster and
/// moderator ids as its two query values.
pub open spec fn spec_chatters_url(broadcaster_id: Seq<char>, moderator_id: Seq<char>) -> Seq<
    char,
> {
    "https://api.twitch.tv/helix/chat/chatters?broadcaster_id="@ + broadcaster_id
        + "&moderator_id="@ + moderator_id
}

/// Builds the participant-lookup request URL for the given broadcaster
/// and moderator.
pub fn chatters_url(broadcaster_id: &str, moderator_id: &str) -> (u: String)
    ensures
        u@ == spec_chatters_url(broadcaster_id@, moderator_id@),
{
    String::from_str("https://api.twitch.tv/helix/chat/chatters?broadcaster_id=").concat(
        broadcaster_id,
    ).concat("&moderator_id=").concat(moderator_id)
}

} // verus!
