//! The upstream login session: one record per login attempt, kept in an
//! ephemeral store from login start until the callback consumes it.
use vstd::prelude::*;
use vstd::utf8::{encode_utf8, encode_utf8_decode_utf8, encode_utf8_valid_utf8, is_ascii_chars, is_ascii_chars_encode_utf8};
use crate::crypto::{
    b64_std_decode, b64_std_decoded, b64_std_encode, b64_url_encode, b64_url_of, decrypt_bytes,
    encrypt_bytes, is_ascii_letter, random_alnum, sha256, sha256_of, utf8_lossy, EncKeySet, ENC_HEADER_LEN, active_key_usable,
};
use crate::discovery::lists;
use crate::error::{ErrorResponse, ErrorResponseType};
use crate::provider::{secret_cleartext_of, AuthProvider, AuthProviderType};
use crate::text::{contains_str, str_eq};

verus! {

/// What a login attempt remembers between its start and the provider's callback.
#[derive(Debug, Clone)]
pub struct AuthProviderCallback {
    pub callback_id: String,
    pub cookie_value: String,
    pub xsrf_token: String,
    pub typ: AuthProviderType,
    pub client_id: String,
    pub client_scope: Option<Vec<String>>,
    pub client_force_mfa: bool,
    pub client_redirect_uri: String,
    pub client_state: Option<String>,
    pub client_nonce: Option<String>,
    pub client_code_challenge: Option<String>,
    pub client_code_challenge_method: Option<String>,
    pub provider_id: String,
    pub provider_issuer: String,
    pub provider_token_endpoint: String,
    pub provider_client_id: String,
    pub provider_secret: Option<Vec<u8>>,
    pub allow_insecure_requests: bool,
    pub use_pkce: bool,
    pub root_pem: Option<String>,
    pub pkce_challenge: String,
    /// Unix time in seconds from which the session no longer counts.
    pub expires_at: i64,
}

/// The records of a sequence by id; a later record of an id shadows an earlier one.
pub open spec fn records_by_id(s: Seq<AuthProviderCallback>) -> Map<Seq<char>, AuthProviderCallback>
    decreases s.len(),
{
    if s.len() == 0 {
        Map::empty()
    } else {
        records_by_id(s.drop_last()).insert(s.last().callback_id@, s.last())
    }
}

proof fn lemma_records_keyed(s: Seq<AuthProviderCallback>)
    ensures
        forall|k: Seq<char>| #[trigger] records_by_id(s).contains_key(k) ==> records_by_id(s)[k].callback_id@ == k,
    decreases s.len(),
{
    if s.len() > 0 {
        lemma_records_keyed(s.drop_last());
    }
}

/// The ephemeral store of login sessions, addressed by session id.
#[derive(Debug)]
pub struct CallbackStore {
    entries: Vec<AuthProviderCallback>,
}

impl View for CallbackStore {
    type V = Map<Seq<char>, AuthProviderCallback>;

    closed spec fn view(&self) -> Map<Seq<char>, AuthProviderCallback> {
        records_by_id(self.entries@)
    }
}

/// Every record of a store sits under its own session id.
pub proof fn lemma_store_keyed(store: &CallbackStore)
    ensures
        forall|k: Seq<char>| #[trigger] store@.contains_key(k) ==> store@[k].callback_id@ == k,
{
    lemma_records_keyed(store.entries@);
}

impl CallbackStore {
    pub fn new() -> (r: CallbackStore)
        ensures
            r@ == Map::<Seq<char>, AuthProviderCallback>::empty(),
    {
        CallbackStore { entries: Vec::new() }
    }

    /// Stores a record under its id, replacing any record of that id.
    pub fn insert(&mut self, rec: AuthProviderCallback)
        ensures
            final(self)@ == old(self)@.insert(rec.callback_id@, rec),
    {
        let ghost s = self.entries@;
        self.entries.push(rec);
        assert(self.entries@.drop_last() =~= s);
    }

    /// Removes the record of `id` and hands it out, in one step, so that no
    /// two readers can both obtain it.
    pub fn take(&mut self, id: &str) -> (r: Option<AuthProviderCallback>)
        ensures
            final(self)@ == old(self)@.remove(id@),
            r == (if old(self)@.contains_key(id@) {
                Some(old(self)@[id@])
            } else {
                None
            }),
            r matches Some(c) ==> c.callback_id@ == id@,
    {
        proof {
            lemma_records_keyed(self.entries@);
        }
        let mut rest: Vec<AuthProviderCallback> = Vec::new();
        std::mem::swap(&mut rest, &mut self.entries);
        let ghost s = rest@;
        let n = rest.len();
        let mut kept: Vec<AuthProviderCallback> = Vec::new();
        let mut found: Option<AuthProviderCallback> = None;
        let mut i: usize = 0;
        while i < n
            invariant
                n == s.len(),
                i <= n,
                rest@ == s.subrange(i as int, n as int),
                records_by_id(kept@) == records_by_id(s.subrange(0, i as int)).remove(id@),
                found == (if records_by_id(s.subrange(0, i as int)).contains_key(id@) {
                    Some(records_by_id(s.subrange(0, i as int))[id@])
                } else {
                    None
                }),
            decreases n - i,
        {
            let e = rest.remove(0);
            let ghost before = records_by_id(s.subrange(0, i as int));
            assert(e == s[i as int]);
            assert(s.subrange(0, i + 1).drop_last() =~= s.subrange(0, i as int));
            assert(records_by_id(s.subrange(0, i + 1)) == before.insert(e.callback_id@, e));
            assert(rest@ =~= s.subrange(i + 1, n as int));
            if str_eq(e.callback_id.as_str(), id) {
                assert(before.insert(e.callback_id@, e).remove(id@) =~= before.remove(id@));
                found = Some(e);
            } else {
                let ghost k = kept@;
                kept.push(e);
                assert(kept@.drop_last() =~= k);
                assert(before.remove(id@).insert(e.callback_id@, e) =~= before.insert(e.callback_id@, e).remove(id@));
            }
            i = i + 1;
        }
        assert(s.subrange(0, n as int) =~= s);
        self.entries = kept;
        found
    }
}

/// The length of a session id and of an anti-forgery token.
pub const RANDOM_ID_LEN: usize = 32;

/// Seconds that a login session and its cookie live.
pub const UPSTREAM_AUTH_CALLBACK_TIMEOUT_SECS: i64 = 300;

/// When a session started at `now` expires, held at the largest time.
pub open spec fn expiry_of(now: i64) -> i64 {
    if now > i64::MAX - UPSTREAM_AUTH_CALLBACK_TIMEOUT_SECS {
        i64::MAX
    } else {
        (now + UPSTREAM_AUTH_CALLBACK_TIMEOUT_SECS) as i64
    }
}

/// The name of the cookie that carries the encrypted session id. The cookie
/// is http-only, secure and `SameSite=Lax`, and lives as long as the session.
pub const COOKIE_UPSTREAM_CALLBACK: &'static str = "upstream_auth_callback";

/// The path that the session cookie is scoped to.
pub const COOKIE_UPSTREAM_CALLBACK_PATH: &'static str = "/auth";

/// A relying party as the client registry describes it.
#[derive(Debug, Clone)]
pub struct ClientInfo {
    pub id: String,
    pub enabled: bool,
    pub scopes: Vec<String>,
    pub force_mfa: bool,
    pub allowed_origins: Option<Vec<String>>,
}

/// A browser's request to log in through an upstream provider.
#[derive(Debug, Clone)]
pub struct ProviderLoginRequest {
    pub provider_id: String,
    pub client_id: String,
    pub redirect_uri: String,
    pub scopes: Option<Vec<String>>,
    pub state: Option<String>,
    pub nonce: Option<String>,
    pub code_challenge: Option<String>,
    pub code_challenge_method: Option<String>,
    pub pkce_challenge: String,
}

/// What the provider's redirect brings back to the callback.
#[derive(Debug, Clone)]
pub struct ProviderCallbackRequest {
    pub state: String,
    pub code: String,
    pub xsrf_token: String,
    pub pkce_verifier: String,
}

/// What a started login hands back: the cookie value, the anti-forgery token,
/// the provider URL to redirect to, and the client's allowed origins.
#[derive(Debug, Clone)]
pub struct LoginStart {
    pub callback_id: String,
    pub cookie_value: String,
    pub xsrf_token: String,
    pub location: String,
    pub allowed_origins: Option<Vec<String>>,
}

/// Whether every requested scope is one the client may request.
pub open spec fn scopes_allowed(allowed: Seq<String>, requested: Option<Vec<String>>) -> bool {
    requested matches Some(v) ==> all_listed(allowed, v@)
}

/// Whether every entry of `req` is listed in `allowed`.
pub open spec fn all_listed(allowed: Seq<String>, req: Seq<String>) -> bool {
    forall|i: int| 0 <= i < req.len() ==> lists(allowed, #[trigger] req[i]@)
}

/// Whether a login may start for this provider, client and request.
pub open spec fn login_request_valid(provider: AuthProvider, client: ClientInfo, payload: ProviderLoginRequest) -> bool {
    &&& provider.id@ == payload.provider_id@
    &&& client.id@ == payload.client_id@
    &&& client.enabled
    &&& scopes_allowed(client.scopes@, payload.scopes)
}

/// The authorization request URL at the provider.
pub open spec fn location_of(
    endpoint: Seq<char>,
    client_id: Seq<char>,
    callback_uri: Seq<char>,
    scope: Seq<char>,
    state: Seq<char>,
    use_pkce: bool,
    challenge: Seq<char>,
) -> Seq<char> {
    endpoint + "?client_id="@ + client_id + "&redirect_uri="@ + callback_uri
        + "&response_type=code&scope="@ + scope + "&state="@ + state + if use_pkce {
        "&code_challenge="@ + challenge + "&code_challenge_method=S256"@
    } else {
        Seq::empty()
    }
}

/// The session id that a cookie value carries, if it decodes and decrypts.
pub open spec fn cookie_id_of(keys: Seq<(Seq<char>, Seq<u8>)>, cookie: Seq<char>) -> Option<Seq<char>> {
    match b64_std_decoded(cookie) {
        Some(ct) => secret_cleartext_of(keys, ct),
        None => None,
    }
}

/// The record that a started login stores.
pub open spec fn started_record(
    rec: AuthProviderCallback,
    ls: LoginStart,
    provider: AuthProvider,
    client: ClientInfo,
    payload: ProviderLoginRequest,
    now: i64,
) -> bool {
    &&& rec.expires_at == expiry_of(now)
    &&& rec.callback_id@ == ls.callback_id@
    &&& rec.cookie_value@ == ls.cookie_value@
    &&& rec.xsrf_token@ == ls.xsrf_token@
    &&& rec.typ == provider.typ
    &&& rec.client_id == client.id
    &&& rec.client_scope == payload.scopes
    &&& rec.client_force_mfa == client.force_mfa
    &&& rec.client_redirect_uri == payload.redirect_uri
    &&& rec.client_state == payload.state
    &&& rec.client_nonce == payload.nonce
    &&& rec.client_code_challenge == payload.code_challenge
    &&& rec.client_code_challenge_method == payload.code_challenge_method
    &&& rec.provider_id == provider.id
    &&& rec.provider_issuer == provider.issuer
    &&& rec.provider_token_endpoint == provider.token_endpoint
    &&& rec.provider_client_id == provider.client_id
    &&& rec.provider_secret == provider.secret
    &&& rec.allow_insecure_requests == provider.allow_insecure_requests
    &&& rec.use_pkce == provider.use_pkce
    &&& rec.root_pem == provider.root_pem
    &&& rec.pkce_challenge == payload.pkce_challenge
}

/// The PKCE challenge that a verifier answers: its SHA-256 digest in URL-safe base64.
pub open spec fn pkce_challenge_of(verifier: Seq<char>) -> Seq<char> {
    b64_url_of(sha256_of(encode_utf8(verifier)))
}

/// What a callback does to the store of sessions and what it yields: the
/// cookie must carry the `state` id, the record of that id must exist, be
/// unexpired at `now` and have been issued with exactly this cookie, and its anti-forgery token and
/// PKCE challenge must match, in this order. The record is gone afterwards
/// whenever the cookie names it.
pub open spec fn finish_outcome(
    keys: Seq<(Seq<char>, Seq<u8>)>,
    m: Map<Seq<char>, AuthProviderCallback>,
    cookie: Seq<char>,
    state: Seq<char>,
    xsrf: Seq<char>,
    verifier: Seq<char>,
    now: i64,
) -> (Map<Seq<char>, AuthProviderCallback>, Result<AuthProviderCallback, ErrorResponseType>) {
    match cookie_id_of(keys, cookie) {
        None => (m, Err(ErrorResponseType::Unauthorized)),
        Some(id) => if id != state {
            (m.remove(id), Err(ErrorResponseType::Unauthorized))
        } else if !m.contains_key(id) || m[id].expires_at <= now {
            (m.remove(id), Err(ErrorResponseType::NotFound))
        } else if m[id].cookie_value@ != cookie {
            (m.remove(id), Err(ErrorResponseType::Unauthorized))
        } else if m[id].xsrf_token@ != xsrf {
            (m.remove(id), Err(ErrorResponseType::Unauthorized))
        } else if m[id].pkce_challenge@ != pkce_challenge_of(verifier) {
            (m.remove(id), Err(ErrorResponseType::Unauthorized))
        } else {
            (m.remove(id), Ok(m[id]))
        },
    }
}

pub open spec fn outcome_of(r: Result<AuthProviderCallback, ErrorResponse>) -> Result<AuthProviderCallback, ErrorResponseType> {
    match r {
        Ok(c) => Ok(c),
        Err(e) => Err(e.error),
    }
}

/// After a login started with session `id`, a callback before the session
/// expires, whose cookie is the one issued and carries `id` as its `state`, with the stored anti-forgery token and a verifier that
/// answers the stored challenge, yields the record and leaves no record of `id`.
pub proof fn lemma_start_then_finish(
    keys: Seq<(Seq<char>, Seq<u8>)>,
    m: Map<Seq<char>, AuthProviderCallback>,
    id: Seq<char>,
    cookie: Seq<char>,
    verifier: Seq<char>,
    now: i64,
)
    requires
        m.contains_key(id),
        now < m[id].expires_at,
        cookie_id_of(keys, cookie) == Some(id),
        m[id].cookie_value@ == cookie,
        m[id].pkce_challenge@ == pkce_challenge_of(verifier),
    ensures
        finish_outcome(keys, m, cookie, id, m[id].xsrf_token@, verifier, now) == (m.remove(id), Ok::<
            AuthProviderCallback,
            ErrorResponseType,
        >(m[id])),
        !finish_outcome(keys, m, cookie, id, m[id].xsrf_token@, verifier, now).0.contains_key(id),
{
}

/// A callback whose cookie does not carry the `state` it presents fails as
/// unauthorized, before anything is exchanged with the provider.
pub proof fn lemma_state_mismatch_fails(
    keys: Seq<(Seq<char>, Seq<u8>)>,
    m: Map<Seq<char>, AuthProviderCallback>,
    cookie: Seq<char>,
    state: Seq<char>,
    xsrf: Seq<char>,
    verifier: Seq<char>,
    now: i64,
)
    requires
        cookie_id_of(keys, cookie) != Some(state),
    ensures
        finish_outcome(keys, m, cookie, state, xsrf, verifier, now).1 == Err::<AuthProviderCallback, ErrorResponseType>(
            ErrorResponseType::Unauthorized,
        ),
{
}

/// A cookie other than the one a live session was issued with, presented
/// with that session's `state`, fails as unauthorized, before anything is
/// exchanged with the provider.
pub proof fn lemma_altered_cookie_fails(
    keys: Seq<(Seq<char>, Seq<u8>)>,
    m: Map<Seq<char>, AuthProviderCallback>,
    state: Seq<char>,
    altered: Seq<char>,
    xsrf: Seq<char>,
    verifier: Seq<char>,
    now: i64,
)
    requires
        m.contains_key(state),
        now < m[state].expires_at,
        altered != m[state].cookie_value@,
    ensures
        finish_outcome(keys, m, altered, state, xsrf, verifier, now).1 == Err::<AuthProviderCallback, ErrorResponseType>(
            ErrorResponseType::Unauthorized,
        ),
{
}

/// Whatever a first callback for a session did, a second one that presents
/// the same cookie and `state` finds no session.
pub proof fn lemma_finish_twice_not_found(
    keys: Seq<(Seq<char>, Seq<u8>)>,
    m: Map<Seq<char>, AuthProviderCallback>,
    cookie: Seq<char>,
    state: Seq<char>,
    xsrf1: Seq<char>,
    verifier1: Seq<char>,
    xsrf2: Seq<char>,
    verifier2: Seq<char>,
    now1: i64,
    now2: i64,
)
    requires
        cookie_id_of(keys, cookie) == Some(state),
    ensures
        finish_outcome(
            keys,
            finish_outcome(keys, m, cookie, state, xsrf1, verifier1, now1).0,
            cookie,
            state,
            xsrf2,
            verifier2,
            now2,
        ).1
            == Err::<AuthProviderCallback, ErrorResponseType>(ErrorResponseType::NotFound),
{
}

/// Reads the session id out of a cookie value.
fn open_cookie(keys: &EncKeySet, cookie: &str) -> (r: Option<String>)
    ensures
        match r {
            Some(s) => cookie_id_of(keys.keys.deep_view(), cookie@) == Some(s@),
            None => cookie_id_of(keys.keys.deep_view(), cookie@) is None,
        },
{
    let ct = b64_std_decode(cookie)?;
    if ct.len() < ENC_HEADER_LEN {
        return None;
    }
    let plain = decrypt_bytes(keys, ct.as_slice())?;
    Some(utf8_lossy(plain.as_slice()))
}

impl ClientInfo {
    /// Checks the requested scopes against the client's allow-list.
    pub fn sanitize_login_scopes(&self, scopes: Option<Vec<String>>) -> (r: Result<Option<Vec<String>>, ErrorResponse>)
        ensures
            scopes_allowed(self.scopes@, scopes) ==> r == Ok::<Option<Vec<String>>, ErrorResponse>(scopes),
            !scopes_allowed(self.scopes@, scopes) ==> (r matches Err(e) && e.error == ErrorResponseType::BadRequest),
    {
        if let Some(v) = &scopes {
            let mut i: usize = 0;
            while i < v.len()
                invariant
                    i <= v@.len(),
                    scopes == Some(*v),
                    forall|j: int| 0 <= j < i ==> lists(self.scopes@, #[trigger] v@[j]@),
                decreases v@.len() - i,
            {
                if !contains_str(&self.scopes, v[i].as_str()) {
                    assert(!lists(self.scopes@, v@[i as int]@));
                    return Err(ErrorResponse::from_str(ErrorResponseType::BadRequest, "scope not allowed for this client"));
                }
                i = i + 1;
            }
        }
        Ok(scopes)
    }
}

impl AuthProviderCallback {
    /// Starts an upstream login at unix time `now`: checks the request, makes
    /// a fresh session id and anti-forgery token, stores the session until it
    /// expires, and returns the cookie
    /// value that carries the encrypted id and the URL to redirect to.
    pub fn login_start(
        keys: &EncKeySet,
        store: &mut CallbackStore,
        callback_uri: &str,
        provider: AuthProvider,
        client: ClientInfo,
        payload: ProviderLoginRequest,
        now: i64,
    ) -> (r: Result<LoginStart, ErrorResponse>)
        ensures
            !login_request_valid(provider, client, payload) ==> (r matches Err(e) && e.error == ErrorResponseType::BadRequest),
            login_request_valid(provider, client, payload) && active_key_usable(keys.keys.deep_view(), keys.active@)
                ==> r is Ok,
            match r {
                Ok(ls) => {
                    &&& login_request_valid(provider, client, payload)
                    &&& final(store)@ == old(store)@.insert(ls.callback_id@, final(store)@[ls.callback_id@])
                    &&& started_record(final(store)@[ls.callback_id@], ls, provider, client, payload, now)
                    &&& ls.callback_id@.len() == RANDOM_ID_LEN
                    &&& ls.xsrf_token@.len() == RANDOM_ID_LEN
                    &&& forall|i: int| 0 <= i < ls.callback_id@.len() ==> is_ascii_letter(#[trigger] ls.callback_id@[i])
                    &&& forall|i: int| 0 <= i < ls.xsrf_token@.len() ==> is_ascii_letter(#[trigger] ls.xsrf_token@[i])
                    &&& ls.location@ == location_of(
                        provider.authorization_endpoint@,
                        provider.client_id@,
                        callback_uri@,
                        provider.scope@,
                        ls.callback_id@,
                        provider.use_pkce,
                        payload.pkce_challenge@,
                    )
                    &&& cookie_id_of(keys.keys.deep_view(), ls.cookie_value@) == Some(ls.callback_id@)
                    &&& ls.allowed_origins == client.allowed_origins
                },
                Err(e) => {
                    &&& final(store)@ == old(store)@
                    &&& login_request_valid(provider, client, payload) ==> e.error == ErrorResponseType::Internal
                },
            },
    {
        if !str_eq(provider.id.as_str(), payload.provider_id.as_str()) {
            return Err(ErrorResponse::from_str(ErrorResponseType::BadRequest, "unknown auth provider"));
        }
        if !str_eq(client.id.as_str(), payload.client_id.as_str()) || !client.enabled {
            return Err(ErrorResponse::from_str(ErrorResponseType::BadRequest, "unknown or disabled client"));
        }
        let client_scope = client.sanitize_login_scopes(payload.scopes)?;

        let callback_id = random_alnum(RANDOM_ID_LEN);
        let xsrf_token = random_alnum(RANDOM_ID_LEN);

        let mut location = String::from_str(provider.authorization_endpoint.as_str());
        location.append("?client_id=");
        location.append(provider.client_id.as_str());
        location.append("&redirect_uri=");
        location.append(callback_uri);
        location.append("&response_type=code&scope=");
        location.append(provider.scope.as_str());
        location.append("&state=");
        location.append(callback_id.as_str());
        if provider.use_pkce {
            location.append("&code_challenge=");
            location.append(payload.pkce_challenge.as_str());
            location.append("&code_challenge_method=S256");
        }
        assert(location@ =~= location_of(
            provider.authorization_endpoint@,
            provider.client_id@,
            callback_uri@,
            provider.scope@,
            callback_id@,
            provider.use_pkce,
            payload.pkce_challenge@,
        ));

        proof {
            assert(is_ascii_chars(callback_id@));
            is_ascii_chars_encode_utf8(callback_id@);
        }
        let ct = match encrypt_bytes(keys, callback_id.as_str().as_bytes()) {
            Some(ct) => ct,
            None => {
                return Err(ErrorResponse::from_str(ErrorResponseType::Internal, "cannot encrypt the session id"));
            },
        };
        let cookie_value = b64_std_encode(ct.as_slice());
        proof {
            encode_utf8_valid_utf8(callback_id@);
            encode_utf8_decode_utf8(callback_id@);
        }

        let expires_at = if now > i64::MAX - UPSTREAM_AUTH_CALLBACK_TIMEOUT_SECS {
            i64::MAX
        } else {
            now + UPSTREAM_AUTH_CALLBACK_TIMEOUT_SECS
        };
        let rec = AuthProviderCallback {
            expires_at,
            callback_id: callback_id.clone(),
            cookie_value: cookie_value.clone(),
            xsrf_token: xsrf_token.clone(),
            typ: provider.typ,
            client_id: client.id,
            client_scope,
            client_force_mfa: client.force_mfa,
            client_redirect_uri: payload.redirect_uri,
            client_state: payload.state,
            client_nonce: payload.nonce,
            client_code_challenge: payload.code_challenge,
            client_code_challenge_method: payload.code_challenge_method,
            provider_id: provider.id,
            provider_issuer: provider.issuer,
            provider_token_endpoint: provider.token_endpoint,
            provider_client_id: provider.client_id,
            provider_secret: provider.secret,
            allow_insecure_requests: provider.allow_insecure_requests,
            use_pkce: provider.use_pkce,
            root_pem: provider.root_pem,
            pkce_challenge: payload.pkce_challenge,
        };
        rec.save(store);
        Ok(LoginStart { callback_id, cookie_value, xsrf_token, location, allowed_origins: client.allowed_origins })
    }

    /// Stores this record under its id.
    pub fn save(self, store: &mut CallbackStore)
        ensures
            final(store)@ == old(store)@.insert(self.callback_id@, self),
    {
        store.insert(self);
    }

    /// Deletes the record of `callback_id`, if there is one.
    pub fn delete(store: &mut CallbackStore, callback_id: &str)
        ensures
            final(store)@ == old(store)@.remove(callback_id@),
    {
        let _ = store.take(callback_id);
    }

    /// Validates a provider's callback at unix time `now` against the stored
    /// session; an expired session counts as absent. The session is consumed whenever the cookie names it, on success and on
    /// each failure, so that no callback can be replayed.
    pub fn login_finish(
        keys: &EncKeySet,
        store: &mut CallbackStore,
        cookie_value: &str,
        payload: &ProviderCallbackRequest,
        now: i64,
    ) -> (r: Result<AuthProviderCallback, ErrorResponse>)
        ensures
            (final(store)@, outcome_of(r)) == finish_outcome(
                keys.keys.deep_view(),
                old(store)@,
                cookie_value@,
                payload.state@,
                payload.xsrf_token@,
                payload.pkce_verifier@,
                now,
            ),
            r matches Ok(c) ==> c.callback_id@ == payload.state@,
    {
        let callback_id = match open_cookie(keys, cookie_value) {
            Some(id) => id,
            None => {
                return Err(ErrorResponse::from_str(ErrorResponseType::Unauthorized, "`state` does not match"));
            },
        };
        if !str_eq(callback_id.as_str(), payload.state.as_str()) {
            AuthProviderCallback::delete(store, callback_id.as_str());
            return Err(ErrorResponse::from_str(ErrorResponseType::Unauthorized, "`state` does not match"));
        }
        let slf = match store.take(callback_id.as_str()) {
            Some(slf) => slf,
            None => {
                return Err(ErrorResponse::from_str(ErrorResponseType::NotFound, "Callback Code not found - timeout reached?"));
            },
        };
        if slf.expires_at <= now {
            return Err(ErrorResponse::from_str(ErrorResponseType::NotFound, "Callback Code not found - timeout reached?"));
        }
        if !str_eq(slf.cookie_value.as_str(), cookie_value) {
            return Err(ErrorResponse::from_str(ErrorResponseType::Unauthorized, "`state` does not match"));
        }
        if !str_eq(slf.xsrf_token.as_str(), payload.xsrf_token.as_str()) {
            return Err(ErrorResponse::from_str(ErrorResponseType::Unauthorized, "invalid CSRF token"));
        }
        let hash = sha256(payload.pkce_verifier.as_str().as_bytes());
        let hash_base64 = b64_url_encode(hash.as_slice());
        if !str_eq(slf.pkce_challenge.as_str(), hash_base64.as_str()) {
            return Err(ErrorResponse::from_str(ErrorResponseType::Unauthorized, "invalid PKCE verifier"));
        }
        Ok(slf)
    }
}

/// The request that exchanges an authorization code at the provider's token
/// endpoint: HTTP basic authentication with the provider's client id and
/// secret, and the form fields of the exchange.
#[derive(Debug, Clone)]
pub struct TokenRequest {
    pub token_endpoint: String,
    pub allow_insecure_requests: bool,
    pub root_pem: Option<String>,
    pub basic_auth_user: String,
    pub basic_auth_password: Option<String>,
    pub client_id: String,
    pub client_secret: Option<String>,
    pub code: String,
    pub code_verifier: Option<String>,
    pub grant_type: String,
    pub redirect_uri: String,
}

/// The provider's answer to a code exchange.
#[derive(Debug, Clone)]
pub struct AuthProviderTokenSet {
    pub access_token: String,
    pub token_type: Option<String>,
    pub id_token: Option<String>,
    pub expires_in: i32,
    pub refresh_token: Option<String>,
}

/// What follows a reconciled login for a client that demands a second factor.
#[derive(Debug, Clone, Copy, PartialEq, Eq, Structural)]
pub enum MfaStep {
    /// Local tokens may be issued.
    Proceed,
    /// The user's enrolled authenticator must be challenged first.
    StepUp,
}

/// The secret sent to the provider: none, or the plaintext of the stored one.
pub open spec fn sent_secret(keys: Seq<(Seq<char>, Seq<u8>)>, secret: Option<Vec<u8>>, sent: Option<String>) -> bool {
    match secret {
        None => sent is None,
        Some(ct) => sent matches Some(s) && secret_cleartext_of(keys, ct@) == Some(s@),
    }
}

fn clone_string_opt(o: &Option<String>) -> (r: Option<String>)
    ensures
        r == *o,
{
    match o {
        Some(s) => Some(s.clone()),
        None => None,
    }
}

impl AuthProviderCallback {
    /// Builds the code exchange for a validated session; the stored secret is
    /// decrypted for it, and a failed decryption is an internal error.
    pub fn token_request(&self, keys: &EncKeySet, callback_uri: &str, payload: &ProviderCallbackRequest) -> (r: Result<TokenRequest, ErrorResponse>)
        ensures
            match r {
                Ok(t) => {
                    &&& t.token_endpoint@ == self.provider_token_endpoint@
                    &&& t.allow_insecure_requests == self.allow_insecure_requests
                    &&& t.root_pem == self.root_pem
                    &&& t.basic_auth_user@ == self.provider_client_id@
                    &&& t.client_id@ == self.provider_client_id@
                    &&& sent_secret(keys.keys.deep_view(), self.provider_secret, t.basic_auth_password)
                    &&& t.client_secret == t.basic_auth_password
                    &&& t.code@ == payload.code@
                    &&& (if self.use_pkce {
                        t.code_verifier matches Some(v) && v@ == payload.pkce_verifier@
                    } else {
                        t.code_verifier is None
                    })
                    &&& t.grant_type@ == "authorization_code"@
                    &&& t.redirect_uri@ == callback_uri@
                },
                Err(e) => {
                    &&& e.error == ErrorResponseType::Internal
                    &&& self.provider_secret matches Some(ct)
                    &&& secret_cleartext_of(keys.keys.deep_view(), ct@) is None
                },
            },
    {
        let secret = AuthProvider::get_secret_cleartext(keys, &self.provider_secret)?;
        let code_verifier = if self.use_pkce {
            Some(String::from_str(payload.pkce_verifier.as_str()))
        } else {
            None
        };
        Ok(TokenRequest {
            token_endpoint: self.provider_token_endpoint.clone(),
            allow_insecure_requests: self.allow_insecure_requests,
            root_pem: clone_string_opt(&self.root_pem),
            basic_auth_user: self.provider_client_id.clone(),
            basic_auth_password: clone_string_opt(&secret),
            client_id: self.provider_client_id.clone(),
            client_secret: secret,
            code: String::from_str(payload.code.as_str()),
            code_verifier,
            grant_type: String::from_str("authorization_code"),
            redirect_uri: String::from_str(callback_uri),
        })
    }

    /// Decides what a forced second factor demands once the user is
    /// reconciled: nothing if the client does not force it, a step-up
    /// challenge if the user has an authenticator, else an error that asks
    /// the user to enroll one.
    pub fn mfa_step(&self, user_has_authenticator: bool) -> (r: Result<MfaStep, ErrorResponse>)
        ensures
            !self.client_force_mfa ==> r matches Ok(MfaStep::Proceed),
            self.client_force_mfa && user_has_authenticator ==> r matches Ok(MfaStep::StepUp),
            self.client_force_mfa && !user_has_authenticator ==> (r matches Err(e) && e.error
                == ErrorResponseType::MfaEnrollmentRequired),
    {
        if !self.client_force_mfa {
            Ok(MfaStep::Proceed)
        } else if user_has_authenticator {
            Ok(MfaStep::StepUp)
        } else {
            Err(ErrorResponse::from_str(
                ErrorResponseType::MfaEnrollmentRequired,
                "This client demands a second factor: register a passkey in your account first",
            ))
        }
    }
}

impl AuthProviderTokenSet {
    /// The ID token of the answer; an answer without one cannot establish an
    /// identity and is an internal error.
    pub fn into_id_token(self, issuer: &str) -> (r: Result<String, ErrorResponse>)
        ensures
            match self.id_token {
                Some(t) => r == Ok::<String, ErrorResponse>(t),
                None => r matches Err(e) && e.error == ErrorResponseType::Internal,
            },
    {
        match self.id_token {
            Some(t) => Ok(t),
            None => {
                let mut msg = String::from_str("Did not receive an ID token from ");
                msg.append(issuer);
                Err(ErrorResponse::new(ErrorResponseType::Internal, msg))
            },
        }
    }
}

} // verus!
