//! The poller's client state: endpoint URLs, the mutable in-memory access
//! token, and the two credential file paths.

use vstd::prelude::*;

verus! {

/// Everything the poller carries between rounds. The access token is the
/// only field that changes, replaced in place on a successful refresh; the
/// refresh token is never held here — it is re-read from its file on every
/// refresh attempt.
#[derive(Debug)]
pub struct APIClient {
    /// Approval-status endpoint for the polled job.
    pub url: String,
    /// Refresh endpoint.
    pub refresh_url: String,
    /// Bearer credential sent with every poll request.
    pub token: String,
    /// Disk location re-read when the service reports the token stale.
    pub token_path: String,
    /// Disk location read fresh on every refresh attempt.
    pub refresh_token_path: String,
}

impl APIClient {
    pub fn new(
        url: String,
        refresh_url: String,
        token: String,
        token_path: String,
        refresh_token_path: String,
    ) -> (c: APIClient)
        ensures
            c.url@ == url@,
            c.refresh_url@ == refresh_url@,
            c.token@ == token@,
            c.token_path@ == token_path@,
            c.refresh_token_path@ == refresh_token_path@,
    {
        APIClient { url, refresh_url, token, token_path, refresh_token_path }
    }

    /// Replaces the in-memory access token; every other field is kept.
    pub fn set_token(&mut self, token: String)
        ensures
            final(self).token@ == token@,
            final(self).url == old(self).url,
            final(self).refresh_url == old(self).refresh_url,
            final(self).token_path == old(self).token_path,
            final(self).refresh_token_path == old(self).refresh_token_path,
    {
        self.token = token;
    }
}

} // verus!
