use vstd::prelude::*;

use crate::models::Subscription;

verus! {

/// The subscription row that records `user_id` following `channel_id`.
pub fn new_subscription(user_id: &str, channel_id: &str) -> (res: Subscription)
    ensures
        res.user_id@ == user_id@,
        res.channel_id@ == channel_id@,
{
    Subscription { user_id: user_id.to_owned(), channel_id: channel_id.to_owned() }
}

} // verus!
