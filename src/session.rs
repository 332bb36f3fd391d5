use vstd::prelude::*;

verus! {

/// The persisted authentication state of one device.
#[derive(Debug, Clone)]
pub struct Session {
    /// Base URL of the homeserver, as the client reported it.
    pub homeserver: String,
    pub user_id: String,
    pub device_id: String,
    pub access_token: String,
    /// Absent where the server does not rotate access tokens.
    pub refresh_token: Option<String>,
    /// The sync checkpoint; absent until the first sync succeeded.
    pub sync_token: Option<String>,
}

/// Why a session could not be loaded, stored or restored.
#[derive(Debug, Clone, Copy, PartialEq, Eq)]
pub enum SessionError {
    /// The stored record is absent, unreadable or not well formed.
    CorruptSession,
    /// The record could not be encoded or written.
    PersistenceError,
    /// No authenticated client could be built from the record.
    RestoreError,
}

/// The view of an optional string.
pub open spec fn opt_view(o: Option<String>) -> Option<Seq<char>> {
    match o {
        Some(s) => Some(s@),
        None => None,
    }
}

/// A copy of an optional string.
pub(crate) fn clone_opt(o: &Option<String>) -> (r: Option<String>)
    ensures
        r == *o,
{
    match o {
        Some(s) => Some(s.clone()),
        None => None,
    }
}

/// What a session holds, as plain sequences.
pub struct SessionModel {
    pub homeserver: Seq<char>,
    pub user_id: Seq<char>,
    pub device_id: Seq<char>,
    pub access_token: Seq<char>,
    pub refresh_token: Option<Seq<char>>,
    pub sync_token: Option<Seq<char>>,
}

impl SessionModel {
    pub open spec fn valid(self) -> bool {
        &&& self.homeserver.len() > 0
        &&& self.user_id.len() > 0
        &&& self.device_id.len() > 0
        &&& self.access_token.len() > 0
    }
}

impl View for Session {
    type V = SessionModel;

    open spec fn view(&self) -> SessionModel {
        SessionModel {
            homeserver: self.homeserver@,
            user_id: self.user_id@,
            device_id: self.device_id@,
            access_token: self.access_token@,
            refresh_token: opt_view(self.refresh_token),
            sync_token: opt_view(self.sync_token),
        }
    }
}

impl Session {
    /// Every identifying field is present and non-empty.
    pub open spec fn valid(&self) -> bool {
        self@.valid()
    }

    pub fn is_valid(&self) -> (r: bool)
        ensures
            r == self.valid(),
    {
        self.homeserver.as_str().unicode_len() > 0 && self.user_id.as_str().unicode_len() > 0
            && self.device_id.as_str().unicode_len() > 0
            && self.access_token.as_str().unicode_len() > 0
    }

    /// The session that a successful login yields: no sync checkpoint yet.
    pub fn enrolled(
        homeserver: String,
        user_id: String,
        device_id: String,
        access_token: String,
        refresh_token: Option<String>,
    ) -> (r: Session)
        ensures
            r.homeserver == homeserver,
            r.user_id == user_id,
            r.device_id == device_id,
            r.access_token == access_token,
            r.refresh_token == refresh_token,
            r.sync_token.is_none(),
    {
        Session { homeserver, user_id, device_id, access_token, refresh_token, sync_token: None }
    }

    /// Records the checkpoint that a successful sync returned.
    pub fn record_sync(&mut self, next_batch: String)
        ensures
            final(self).sync_token == Some(next_batch),
            final(self).homeserver == old(self).homeserver,
            final(self).user_id == old(self).user_id,
            final(self).device_id == old(self).device_id,
            final(self).access_token == old(self).access_token,
            final(self).refresh_token == old(self).refresh_token,
    {
        self.sync_token = Some(next_batch);
    }

    /// Takes over the token pair that the client holds now.
    pub fn record_tokens(&mut self, access_token: String, refresh_token: Option<String>)
        ensures
            final(self).access_token == access_token,
            final(self).refresh_token == refresh_token,
            final(self).homeserver == old(self).homeserver,
            final(self).user_id == old(self).user_id,
            final(self).device_id == old(self).device_id,
            final(self).sync_token == old(self).sync_token,
    {
        self.access_token = access_token;
        self.refresh_token = refresh_token;
    }
}

} // verus!
