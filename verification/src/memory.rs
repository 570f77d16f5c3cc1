//! A store that keeps everything in memory. It never fails.

use crate::crypto::SigningKey;
use crate::error::Error;
use crate::jwk::Jwk;
use crate::store::{
    seen_since, AuthRequestData, DownstreamClientInfo, KeyStore, NonceStore, OAuthSessionStore,
    PARData, PendingAuth, SessionKey, StoreState, UpstreamSession,
};
use crate::table::Table;
use vstd::prelude::*;
use vstd::string::*;

verus! {

/// An in-memory session store, nonce store and key store in one.
pub struct MemoryStore {
    par: Table<String, PARData>,
    client_info: Table<String, DownstreamClientInfo>,
    pending: Table<String, PendingAuth>,
    refresh: Table<String, (String, String)>,
    active: Table<String, String>,
    dpop_keys: Table<String, (String, Jwk)>,
    dpop_nonces: Table<String, String>,
    sessions: Table<SessionKey, UpstreamSession>,
    auth_requests: Table<String, AuthRequestData>,
    jkt_index: Table<String, (String, String)>,
    used_nonces: Table<String, i64>,
    signing_key: SigningKey,
}

fn copy_pair(pair: &(String, String)) -> (copy: (String, String))
    ensures
        copy == *pair,
{
    (pair.0.clone(), pair.1.clone())
}

fn session_key(did: &str, session_id: &str) -> (key: SessionKey)
    ensures
        key@ == (did@, session_id@),
{
    SessionKey { did: String::from_str(did), session_id: String::from_str(session_id) }
}

impl MemoryStore {
    #[verifier::type_invariant]
    spec fn wf(&self) -> bool {
        &&& self.par.wf()
        &&& self.client_info.wf()
        &&& self.pending.wf()
        &&& self.refresh.wf()
        &&& self.active.wf()
        &&& self.dpop_keys.wf()
        &&& self.dpop_nonces.wf()
        &&& self.sessions.wf()
        &&& self.auth_requests.wf()
        &&& self.jkt_index.wf()
        &&& self.used_nonces.wf()
    }

    /// An empty store that signs with `signing_key`.
    pub fn new(signing_key: SigningKey) -> (store: MemoryStore)
        ensures
            OAuthSessionStore::never_fails(&store),
            NonceStore::never_fails(&store),
            KeyStore::never_fails(&store),
            store.signing_secret() == signing_key@,
            store.used() == Map::<Seq<char>, i64>::empty(),
            store.state() == (StoreState {
                par: Map::empty(),
                client_info: Map::empty(),
                pending: Map::empty(),
                refresh: Map::empty(),
                active: Map::empty(),
                dpop_keys: Map::empty(),
                dpop_nonces: Map::empty(),
                sessions: Map::empty(),
                auth_requests: Map::empty(),
                jkt_index: Map::empty(),
            }),
    {
        MemoryStore {
            par: Table::new(),
            client_info: Table::new(),
            pending: Table::new(),
            refresh: Table::new(),
            active: Table::new(),
            dpop_keys: Table::new(),
            dpop_nonces: Table::new(),
            sessions: Table::new(),
            auth_requests: Table::new(),
            jkt_index: Table::new(),
            used_nonces: Table::new(),
            signing_key,
        }
    }
}

// A table is swapped out of the store while it is changed: the store's
// invariant must hold whenever one of its fields is lent out for change, and
// it holds with an empty table in the field's place.
impl OAuthSessionStore for MemoryStore {
    /// The ten tables of the two flows. The identifiers of the proofs that
    /// were seen and the signing key are no part of it: they are what
    /// [`NonceStore::used`] and [`KeyStore::signing_secret`] give.
    closed spec fn state(&self) -> StoreState {
        StoreState {
            par: self.par.map(),
            client_info: self.client_info.map(),
            pending: self.pending.map(),
            refresh: self.refresh.map(),
            active: self.active.map(),
            dpop_keys: self.dpop_keys.map(),
            dpop_nonces: self.dpop_nonces.map(),
            sessions: self.sessions.map(),
            auth_requests: self.auth_requests.map(),
            jkt_index: self.jkt_index.map(),
        }
    }

    open spec fn never_fails(&self) -> bool {
        true
    }

    fn store_par_data(&mut self, request_uri: &str, data: PARData) -> (result: Result<(), Error>) {
        proof {
            use_type_invariant(&*self);
        }
        let key = String::from_str(request_uri);
        if self.par.contains(&key) {
            return Err(Error::StorageError(String::from_str("request_uri already in use")));
        }
        let mut table = Table::new();
        core::mem::swap(&mut self.par, &mut table);
        table.put(key, data);
        core::mem::swap(&mut self.par, &mut table);
        Ok(())
    }

    fn consume_par_data(&mut self, request_uri: &str) -> (result: Result<Option<PARData>, Error>) {
        proof {
            use_type_invariant(&*self);
        }
        let key = String::from_str(request_uri);
        let mut table = Table::new();
        core::mem::swap(&mut self.par, &mut table);
        let found = table.take(&key);
        core::mem::swap(&mut self.par, &mut table);
        Ok(found)
    }

    fn store_downstream_client_info(&mut self, key: &str, info: DownstreamClientInfo) -> (result:
        Result<(), Error>) {
        proof {
            use_type_invariant(&*self);
        }
        let mut table = Table::new();
        core::mem::swap(&mut self.client_info, &mut table);
        table.put(String::from_str(key), info);
        core::mem::swap(&mut self.client_info, &mut table);
        Ok(())
    }

    fn consume_downstream_client_info(&mut self, key: &str) -> (result: Result<
        Option<DownstreamClientInfo>,
        Error,
    >) {
        proof {
            use_type_invariant(&*self);
        }
        let key = String::from_str(key);
        let mut table = Table::new();
        core::mem::swap(&mut self.client_info, &mut table);
        let found = table.take(&key);
        core::mem::swap(&mut self.client_info, &mut table);
        Ok(found)
    }

    fn store_pending_auth(&mut self, code: &str, auth: PendingAuth) -> (result: Result<(), Error>) {
        proof {
            use_type_invariant(&*self);
        }
        let key = String::from_str(code);
        if self.pending.contains(&key) {
            return Err(Error::StorageError(String::from_str("code already in use")));
        }
        let mut table = Table::new();
        core::mem::swap(&mut self.pending, &mut table);
        table.put(key, auth);
        core::mem::swap(&mut self.pending, &mut table);
        Ok(())
    }

    fn consume_pending_auth(&mut self, code: &str) -> (result: Result<Option<PendingAuth>, Error>) {
        proof {
            use_type_invariant(&*self);
        }
        let key = String::from_str(code);
        let mut table = Table::new();
        core::mem::swap(&mut self.pending, &mut table);
        let found = table.take(&key);
        core::mem::swap(&mut self.pending, &mut table);
        Ok(found)
    }

    fn store_refresh_token_mapping(
        &mut self,
        refresh_token: &str,
        account_did: String,
        session_id: String,
    ) -> (result: Result<(), Error>) {
        proof {
            use_type_invariant(&*self);
        }
        let mut table = Table::new();
        core::mem::swap(&mut self.refresh, &mut table);
        table.put(String::from_str(refresh_token), (account_did, session_id));
        core::mem::swap(&mut self.refresh, &mut table);
        Ok(())
    }

    fn rotate_refresh_token_mapping(
        &mut self,
        old_token: &str,
        new_token: &str,
        account_did: String,
        session_id: String,
    ) -> (result: Result<(), Error>) {
        proof {
            use_type_invariant(&*self);
        }
        let old_key = String::from_str(old_token);
        let mut table = Table::new();
        core::mem::swap(&mut self.refresh, &mut table);
        let _ = table.take(&old_key);
        table.put(String::from_str(new_token), (account_did, session_id));
        core::mem::swap(&mut self.refresh, &mut table);
        Ok(())
    }

    fn get_refresh_token_mapping(&self, refresh_token: &str) -> (result: Result<
        Option<(String, String)>,
        Error,
    >) {
        proof {
            use_type_invariant(self);
        }
        let key = String::from_str(refresh_token);
        match self.refresh.get(&key) {
            Some(pair) => Ok(Some(copy_pair(pair))),
            None => Ok(None),
        }
    }

    fn store_active_session(&mut self, did: &str, session_id: String) -> (result: Result<
        (),
        Error,
    >) {
        proof {
            use_type_invariant(&*self);
        }
        let mut table = Table::new();
        core::mem::swap(&mut self.active, &mut table);
        table.put(String::from_str(did), session_id);
        core::mem::swap(&mut self.active, &mut table);
        Ok(())
    }

    fn get_active_session(&self, did: &str) -> (result: Result<Option<String>, Error>) {
        proof {
            use_type_invariant(self);
        }
        let key = String::from_str(did);
        match self.active.get(&key) {
            Some(session_id) => Ok(Some(session_id.clone())),
            None => Ok(None),
        }
    }

    fn store_session_dpop_key(&mut self, session_id: &str, dpop_jkt: String, key: Jwk) -> (result:
        Result<(), Error>) {
        proof {
            use_type_invariant(&*self);
        }
        let mut table = Table::new();
        core::mem::swap(&mut self.dpop_keys, &mut table);
        table.put(String::from_str(session_id), (dpop_jkt, key));
        core::mem::swap(&mut self.dpop_keys, &mut table);
        Ok(())
    }

    fn get_session_dpop_key(&self, session_id: &str) -> (result: Result<
        Option<(String, Jwk)>,
        Error,
    >) {
        proof {
            use_type_invariant(self);
        }
        let key = String::from_str(session_id);
        match self.dpop_keys.get(&key) {
            Some(entry) => Ok(Some((entry.0.clone(), entry.1.duplicate()))),
            None => Ok(None),
        }
    }

    fn update_session_dpop_nonce(&mut self, session_id: &str, nonce: String) -> (result: Result<
        (),
        Error,
    >) {
        proof {
            use_type_invariant(&*self);
        }
        let mut table = Table::new();
        core::mem::swap(&mut self.dpop_nonces, &mut table);
        table.put(String::from_str(session_id), nonce);
        core::mem::swap(&mut self.dpop_nonces, &mut table);
        Ok(())
    }

    fn get_session_dpop_nonce(&self, session_id: &str) -> (result: Result<Option<String>, Error>) {
        proof {
            use_type_invariant(self);
        }
        let key = String::from_str(session_id);
        match self.dpop_nonces.get(&key) {
            Some(nonce) => Ok(Some(nonce.clone())),
            None => Ok(None),
        }
    }

    fn upsert_oauth_session(&mut self, session: UpstreamSession) -> (result: Result<(), Error>) {
        proof {
            use_type_invariant(&*self);
        }
        let key = SessionKey {
            did: session.account_did.clone(),
            session_id: session.session_id.clone(),
        };
        let mut table = Table::new();
        core::mem::swap(&mut self.sessions, &mut table);
        table.put(key, session);
        core::mem::swap(&mut self.sessions, &mut table);
        Ok(())
    }

    fn get_oauth_session(&self, did: &str, session_id: &str) -> (result: Result<
        Option<UpstreamSession>,
        Error,
    >) {
        proof {
            use_type_invariant(self);
        }
        let key = session_key(did, session_id);
        match self.sessions.get(&key) {
            Some(session) => Ok(Some(session.duplicate())),
            None => Ok(None),
        }
    }

    fn delete_oauth_session(&mut self, did: &str, session_id: &str) -> (result: Result<(), Error>) {
        proof {
            use_type_invariant(&*self);
        }
        let key = session_key(did, session_id);
        let sid = String::from_str(session_id);
        let mut sessions = Table::new();
        core::mem::swap(&mut self.sessions, &mut sessions);
        let _ = sessions.take(&key);
        core::mem::swap(&mut self.sessions, &mut sessions);
        let mut keys = Table::new();
        core::mem::swap(&mut self.dpop_keys, &mut keys);
        let _ = keys.take(&sid);
        core::mem::swap(&mut self.dpop_keys, &mut keys);
        let mut nonces = Table::new();
        core::mem::swap(&mut self.dpop_nonces, &mut nonces);
        let _ = nonces.take(&sid);
        core::mem::swap(&mut self.dpop_nonces, &mut nonces);
        Ok(())
    }

    fn save_auth_req_info(&mut self, info: AuthRequestData) -> (result: Result<(), Error>) {
        proof {
            use_type_invariant(&*self);
        }
        let mut table = Table::new();
        core::mem::swap(&mut self.auth_requests, &mut table);
        table.put(info.state.clone(), info);
        core::mem::swap(&mut self.auth_requests, &mut table);
        Ok(())
    }

    fn get_auth_req_info(&self, state: &str) -> (result: Result<Option<AuthRequestData>, Error>) {
        proof {
            use_type_invariant(self);
        }
        let key = String::from_str(state);
        match self.auth_requests.get(&key) {
            Some(info) => Ok(Some(info.duplicate())),
            None => Ok(None),
        }
    }

    fn delete_auth_req_info(&mut self, state: &str) -> (result: Result<(), Error>) {
        proof {
            use_type_invariant(&*self);
        }
        let key = String::from_str(state);
        let mut table = Table::new();
        core::mem::swap(&mut self.auth_requests, &mut table);
        let _ = table.take(&key);
        core::mem::swap(&mut self.auth_requests, &mut table);
        Ok(())
    }

    fn bind_dpop_jkt(&mut self, jkt: &str, account_did: String, session_id: String) -> (result:
        Result<(), Error>) {
        proof {
            use_type_invariant(&*self);
        }
        let mut table = Table::new();
        core::mem::swap(&mut self.jkt_index, &mut table);
        table.put(String::from_str(jkt), (account_did, session_id));
        core::mem::swap(&mut self.jkt_index, &mut table);
        Ok(())
    }

    fn get_by_dpop_jkt(&self, jkt: &str) -> (result: Result<Option<(String, String)>, Error>) {
        proof {
            use_type_invariant(self);
        }
        let key = String::from_str(jkt);
        match self.jkt_index.get(&key) {
            Some(pair) => Ok(Some(copy_pair(pair))),
            None => Ok(None),
        }
    }

    fn unbind_dpop_jkt(&mut self, jkt: &str) -> (result: Result<(), Error>) {
        proof {
            use_type_invariant(&*self);
        }
        let key = String::from_str(jkt);
        let mut table = Table::new();
        core::mem::swap(&mut self.jkt_index, &mut table);
        let _ = table.take(&key);
        core::mem::swap(&mut self.jkt_index, &mut table);
        Ok(())
    }
}

impl KeyStore for MemoryStore {
    /// The private scalar of the key the store was made with.
    closed spec fn signing_secret(&self) -> Seq<u8> {
        self.signing_key@
    }

    open spec fn never_fails(&self) -> bool {
        true
    }

    fn get_signing_key(&self) -> (result: Result<SigningKey, Error>) {
        Ok(SigningKey::from_bytes(self.signing_key.to_bytes()))
    }
}

impl NonceStore for MemoryStore {
    /// The identifiers that were recorded, each with the time of its
    /// recording.
    closed spec fn used(&self) -> Map<Seq<char>, i64> {
        self.used_nonces.map()
    }

    open spec fn never_fails(&self) -> bool {
        true
    }

    fn check_and_consume_nonce(&mut self, jti: &str, now: i64) -> (result: Result<bool, Error>) {
        proof {
            use_type_invariant(&*self);
        }
        let key = String::from_str(jti);
        if self.used_nonces.contains(&key) {
            return Ok(false);
        }
        let mut table = Table::new();
        core::mem::swap(&mut self.used_nonces, &mut table);
        table.put(key, now);
        core::mem::swap(&mut self.used_nonces, &mut table);
        Ok(true)
    }

    /// Purges every identifier first seen before `before`, and no other:
    /// what stays is what was first seen at `before` or later.
    fn cleanup_expired(&mut self, before: i64) -> (result: Result<(), Error>)
        ensures
            result is Ok,
            final(self).used() == seen_since(old(self).used(), before),
    {
        proof {
            use_type_invariant(&*self);
        }
        let mut table = Table::new();
        core::mem::swap(&mut self.used_nonces, &mut table);
        table.purge_below(before);
        core::mem::swap(&mut self.used_nonces, &mut table);
        proof {
            assert(self.used() =~= seen_since(old(self).used(), before));
        }
        Ok(())
    }
}

} // verus!
