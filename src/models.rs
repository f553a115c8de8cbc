//! Values that travel between the components.

use vstd::prelude::*;

verus! {

/// One access to a short link, as published to the analytics queue.
#[derive(Clone, Debug, PartialEq, Eq)]
pub struct AnalyticsEvent {
    pub short_code: String,
    pub original_url: String,
    /// ISO-8601 time at which the request was handled.
    pub timestamp: String,
    pub user_agent: String,
    pub ip_address: String,
}

} // verus!
