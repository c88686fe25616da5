//! Upstream provider configuration.
use vstd::prelude::*;
use vstd::string::StrSliceExecFns;
use crate::error::{ErrorResponse, ErrorResponseType};
use crate::crypto::{decrypt_bytes, decryption_of, encrypt_bytes, utf8_lossy, utf8_lossy_of, EncKeySet, ENC_HEADER_LEN, ENC_PLAIN_MAX, active_key_usable};
use crate::text::{push_char_of, str_eq};
use vstd::utf8::{decode_utf8, encode_utf8, encode_utf8_decode_utf8, encode_utf8_valid_utf8, valid_utf8};

verus! {

/// The protocol an upstream provider speaks. Only standard OIDC exists today.
#[derive(Debug, Clone, Copy, PartialEq, Eq, Structural)]
pub enum AuthProviderType {
    OIDC,
}

/// The wire name of each provider type.
pub open spec fn provider_type_name(t: AuthProviderType) -> Seq<char> {
    match t {
        AuthProviderType::OIDC => seq!['o', 'i', 'd', 'c'],
    }
}

impl AuthProviderType {
    pub fn as_str(&self) -> (r: &'static str)
        ensures
            r@ == provider_type_name(*self),
    {
        proof {
            reveal_strlit("oidc");
        }
        match self {
            AuthProviderType::OIDC => "oidc",
        }
    }

    /// Parses a wire name; anything but a known name is a bad request.
    pub fn try_from_str(value: &str) -> (r: Result<AuthProviderType, ErrorResponse>)
        ensures
            value@ == provider_type_name(AuthProviderType::OIDC) ==> r == Ok::<
                AuthProviderType,
                ErrorResponse,
            >(AuthProviderType::OIDC),
            value@ != provider_type_name(AuthProviderType::OIDC) ==> (r matches Err(e)
                && e.error == ErrorResponseType::BadRequest),
    {
        proof {
            reveal_strlit("oidc");
        }
        assert("oidc"@ =~= provider_type_name(AuthProviderType::OIDC));
        if str_eq(value, "oidc") {
            Ok(AuthProviderType::OIDC)
        } else {
            Err(ErrorResponse::from_str(ErrorResponseType::BadRequest, "Invalid AuthProviderType"))
        }
    }

    /// Parses a stored wire name, falling back to OIDC on an unknown one.
    pub fn from_string(value: String) -> (r: AuthProviderType)
        ensures
            r == AuthProviderType::OIDC,
    {
        match AuthProviderType::try_from_str(value.as_str()) {
            Ok(t) => t,
            Err(_) => AuthProviderType::OIDC,
        }
    }
}

/// Characters that separate the tokens of a scope string.
pub open spec fn is_scope_space(c: char) -> bool {
    c == ' ' || c == '\t' || c == '\n' || c == '\r'
}

/// Reads a scope string left to right: the normalized text so far, and
/// whether a separator is owed before the next token character.
pub open spec fn scope_fold(s: Seq<char>) -> (Seq<char>, bool)
    decreases s.len(),
{
    if s.len() == 0 {
        (Seq::empty(), false)
    } else {
        let prev = scope_fold(s.drop_last());
        let c = s.last();
        if is_scope_space(c) {
            (prev.0, prev.0.len() > 0)
        } else if prev.1 {
            (prev.0.push('+').push(c), false)
        } else {
            (prev.0.push(c), false)
        }
    }
}

/// The tokens of `s`, without empty ones, joined by a single `+`.
pub open spec fn normalized_scope(s: Seq<char>) -> Seq<char> {
    scope_fold(s).0
}

/// Nothing of a normalized scope is a separator, and a pending separator is
/// only ever owed after some text.
pub proof fn lemma_scope_fold_shape(s: Seq<char>)
    ensures
        forall|i: int| 0 <= i < scope_fold(s).0.len() ==> !is_scope_space(#[trigger] scope_fold(s).0[i]),
        scope_fold(s).1 ==> scope_fold(s).0.len() > 0,
    decreases s.len(),
{
    if s.len() > 0 {
        lemma_scope_fold_shape(s.drop_last());
    }
}

/// A text without separators reads back as itself.
pub proof fn lemma_scope_fold_plain(t: Seq<char>)
    requires
        forall|i: int| 0 <= i < t.len() ==> !is_scope_space(#[trigger] t[i]),
    ensures
        scope_fold(t) == (t, false),
    decreases t.len(),
{
    if t.len() > 0 {
        let d = t.drop_last();
        assert forall|i: int| 0 <= i < d.len() implies !is_scope_space(#[trigger] d[i]) by {
            assert(d[i] == t[i]);
        }
        lemma_scope_fold_plain(d);
        assert(d.push(t.last()) =~= t);
    }
}

/// Normalizing a normalized scope string leaves it unchanged.
pub proof fn lemma_normalized_scope_idempotent(s: Seq<char>)
    ensures
        normalized_scope(normalized_scope(s)) == normalized_scope(s),
{
    lemma_scope_fold_shape(s);
    lemma_scope_fold_plain(normalized_scope(s));
}

fn is_scope_space_char(c: char) -> (r: bool)
    ensures
        r == is_scope_space(c),
{
    c == ' ' || c == '\t' || c == '\n' || c == '\r'
}

/// Upstream provider configuration as it is stored.
#[derive(Debug, Clone)]
pub struct AuthProvider {
    pub id: String,
    pub name: String,
    pub typ: AuthProviderType,
    pub issuer: String,
    pub authorization_endpoint: String,
    pub token_endpoint: String,
    pub userinfo_endpoint: String,
    pub client_id: String,
    pub secret: Option<Vec<u8>>,
    pub scope: String,
    pub allow_insecure_requests: bool,
    pub use_pkce: bool,
    pub root_pem: Option<String>,
    pub logo: Option<Vec<u8>>,
    pub logo_type: Option<String>,
}

/// An administrator's request to create or replace a provider.
#[derive(Debug, Clone)]
pub struct ProviderRequest {
    pub name: String,
    pub issuer: String,
    pub authorization_endpoint: String,
    pub token_endpoint: String,
    pub userinfo_endpoint: String,
    pub client_id: String,
    pub client_secret: Option<String>,
    pub scope: String,
    pub danger_allow_insecure: Option<bool>,
    pub use_pkce: bool,
    pub root_pem: Option<String>,
}

/// The plaintext that a stored secret `ct` decrypts to with `keys`: valid
/// UTF-8 as it is, anything else with its invalid sequences replaced. Bytes
/// shorter than an encryption header decrypt to nothing.
pub open spec fn secret_cleartext_of(keys: Seq<(Seq<char>, Seq<u8>)>, ct: Seq<u8>) -> Option<Seq<char>> {
    if ct.len() < ENC_HEADER_LEN {
        None
    } else {
        match decryption_of(keys, ct) {
            Some(b) => Some(if valid_utf8(b) { decode_utf8(b) } else { utf8_lossy_of(b) }),
            None => None,
        }
    }
}

/// A secret encrypted for storage decrypts back to the plaintext it was made from.
pub proof fn lemma_secret_round_trip(keys: Seq<(Seq<char>, Seq<u8>)>, plain: Seq<char>, ct: Seq<u8>)
    requires
        ct.len() >= ENC_HEADER_LEN,
        decryption_of(keys, ct) == Some(encode_utf8(plain)),
    ensures
        secret_cleartext_of(keys, ct) == Some(plain),
{
    encode_utf8_valid_utf8(plain);
    encode_utf8_decode_utf8(plain);
}

/// The cache key of a provider's configuration.
pub open spec fn cache_idx_of(id: Seq<char>) -> Seq<char> {
    seq!['a', 'u', 't', 'h', '_', 'p', 'r', 'o', 'v', 'i', 'd', 'e', 'r', '_'] + id
}

/// The cache key of the rendered login-page provider list.
pub open spec fn template_idx() -> Seq<char> {
    "auth_provider_template"@
}

impl AuthProvider {
    /// The cache keys that every change of any provider invalidates: the list
    /// of all providers, and the login-page templates made from it.
    pub fn aggregate_cache_keys() -> (r: Vec<String>)
        ensures
            r@.len() == 2,
            r@[0]@ == cache_idx_of("all"@),
            r@[1]@ == template_idx(),
    {
        let mut r: Vec<String> = Vec::new();
        r.push(AuthProvider::cache_idx("all"));
        r.push(String::from_str("auth_provider_template"));
        r
    }

    pub fn cache_idx(id: &str) -> (r: String)
        ensures
            r@ == cache_idx_of(id@),
    {
        proof {
            reveal_strlit("auth_provider_");
        }
        let mut r = String::from_str("auth_provider_");
        r.append(id);
        assert(r@ =~= cache_idx_of(id@));
        r
    }

    /// Encrypts a plaintext secret for storage; no secret stays none.
    pub fn secret_encrypted(keys: &EncKeySet, secret: &Option<String>) -> (r: Result<Option<Vec<u8>>, ErrorResponse>)
        ensures
            secret is None ==> r matches Ok(None),
            secret matches Some(s) && active_key_usable(keys.keys.deep_view(), keys.active@) && encode_utf8(s@).len()
                <= ENC_PLAIN_MAX ==> r is Ok,
            secret matches Some(s) ==> match r {
                Ok(Some(ct)) => ct@.len() >= ENC_HEADER_LEN && decryption_of(keys.keys.deep_view(), ct@)
                    == Some(encode_utf8(s@)),
                Ok(None) => false,
                Err(e) => e.error == ErrorResponseType::Internal,
            },
    {
        match secret {
            Some(s) => match encrypt_bytes(keys, s.as_str().as_bytes()) {
                Some(ct) => Ok(Some(ct)),
                None => Err(ErrorResponse::from_str(ErrorResponseType::Internal, "cannot encrypt the provider secret")),
            },
            None => Ok(None),
        }
    }

    /// Decrypts a stored secret; a failed decryption is an internal error,
    /// never an empty secret.
    pub fn get_secret_cleartext(keys: &EncKeySet, secret: &Option<Vec<u8>>) -> (r: Result<Option<String>, ErrorResponse>)
        ensures
            secret is None ==> r matches Ok(None),
            secret matches Some(ct) ==> match secret_cleartext_of(keys.keys.deep_view(), ct@) {
                Some(p) => r matches Ok(Some(s)) && s@ == p,
                None => r matches Err(e) && e.error == ErrorResponseType::Internal,
            },
    {
        match secret {
            Some(ct) => match if ct.len() < ENC_HEADER_LEN {
                None
            } else {
                decrypt_bytes(keys, ct.as_slice())
            } {
                Some(b) => {
                    let s = utf8_lossy(b.as_slice());
                    Ok(Some(s))
                },
                None => Err(ErrorResponse::from_str(ErrorResponseType::Internal, "cannot decrypt the provider secret")),
            },
            None => Ok(None),
        }
    }

    /// Builds the stored configuration from a request: the scope normalized,
    /// the secret encrypted, insecure requests off unless asked for.
    pub fn try_from_id_req(keys: &EncKeySet, id: String, req: ProviderRequest) -> (r: Result<AuthProvider, ErrorResponse>)
        ensures
            match r {
                Ok(p) => {
                    &&& p.id == id
                    &&& p.name == req.name
                    &&& p.typ == AuthProviderType::OIDC
                    &&& p.issuer == req.issuer
                    &&& p.authorization_endpoint == req.authorization_endpoint
                    &&& p.token_endpoint == req.token_endpoint
                    &&& p.userinfo_endpoint == req.userinfo_endpoint
                    &&& p.client_id == req.client_id
                    &&& p.scope@ == normalized_scope(req.scope@)
                    &&& (req.client_secret is None <==> p.secret is None)
                    &&& (req.client_secret matches Some(s) ==> (p.secret matches Some(ct)
                        && ct@.len() >= ENC_HEADER_LEN && decryption_of(keys.keys.deep_view(), ct@) == Some(
                        encode_utf8(s@),
                    )))
                    &&& p.allow_insecure_requests == (req.danger_allow_insecure == Some(true))
                    &&& p.use_pkce == req.use_pkce
                    &&& p.root_pem == req.root_pem
                    &&& p.logo is None
                    &&& p.logo_type is None
                },
                Err(e) => req.client_secret is Some && e.error == ErrorResponseType::Internal,
            },
            (req.client_secret matches Some(s) ==> active_key_usable(keys.keys.deep_view(), keys.active@)
                && encode_utf8(s@).len() <= ENC_PLAIN_MAX) ==> r is Ok,
    {
        let scope = AuthProvider::cleanup_scope(req.scope.as_str());
        let secret = AuthProvider::secret_encrypted(keys, &req.client_secret)?;
        let allow_insecure_requests = match req.danger_allow_insecure {
            Some(b) => b,
            None => false,
        };
        Ok(AuthProvider {
            id,
            name: req.name,
            typ: AuthProviderType::OIDC,
            issuer: req.issuer,
            authorization_endpoint: req.authorization_endpoint,
            token_endpoint: req.token_endpoint,
            userinfo_endpoint: req.userinfo_endpoint,
            client_id: req.client_id,
            secret,
            scope,
            allow_insecure_requests,
            use_pkce: req.use_pkce,
            root_pem: req.root_pem,
            logo: None,
            logo_type: None,
        })
    }

    /// Normalizes a scope string: the tokens between separators, without
    /// empty ones, joined by a single `+`.
    pub fn cleanup_scope(scope: &str) -> (r: String)
        ensures
            r@ == normalized_scope(scope@),
    {
        proof {
            reveal_strlit("+");
        }
        assert("+"@ =~= seq!['+']);
        let n = scope.unicode_len();
        let mut out = String::new();
        let mut pending = false;
        let mut i: usize = 0;
        while i < n
            invariant
                n == scope@.len(),
                i <= n,
                "+"@ == seq!['+'],
                (out@, pending) == scope_fold(scope@.subrange(0, i as int)),
            decreases n - i,
        {
            let c = scope.get_char(i);
            let ghost prev = scope@.subrange(0, i as int);
            assert(scope@.subrange(0, i + 1).drop_last() =~= prev);
            assert(scope@.subrange(0, i + 1).last() == c);
            if is_scope_space_char(c) {
                pending = out.unicode_len() > 0;
            } else {
                if pending {
                    out.append("+");
                    pending = false;
                }
                push_char_of(&mut out, scope, i);
            }
            i = i + 1;
        }
        assert(scope@.subrange(0, n as int) =~= scope@);
        out
    }
}

} // verus!
