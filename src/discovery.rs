//! Discovery of a provider's configuration, and the policy of the HTTP
//! client that talks to it.
use vstd::prelude::*;
use vstd::string::StrSliceExecFns;
use crate::text::{contains_str, has_prefix};

verus! {

pub open spec fn http_scheme() -> Seq<char> {
    seq!['h', 't', 't', 'p', ':', '/', '/']
}

pub open spec fn https_scheme() -> Seq<char> {
    seq!['h', 't', 't', 'p', 's', ':', '/', '/']
}

/// The path of the discovery document below an issuer, without its leading slash.
pub open spec fn well_known_path() -> Seq<char> {
    seq!['.', 'w', 'e', 'l', 'l', '-', 'k', 'n', 'o', 'w', 'n', '/', 'o', 'p', 'e', 'n', 'i', 'd', '-',
        'c', 'o', 'n', 'f', 'i', 'g', 'u', 'r', 'a', 't', 'i', 'o', 'n']
}

pub open spec fn starts_with(s: Seq<char>, p: Seq<char>) -> bool {
    p.len() <= s.len() && s.subrange(0, p.len() as int) == p
}

/// The issuer as a URL: as given when it names http or https, else over https.
pub open spec fn issuer_url_of(issuer: Seq<char>) -> Seq<char> {
    if starts_with(issuer, http_scheme()) || starts_with(issuer, https_scheme()) {
        issuer
    } else {
        https_scheme() + issuer
    }
}

/// The URL of the discovery document of an issuer.
pub open spec fn discovery_url_of(issuer: Seq<char>) -> Seq<char> {
    let base = issuer_url_of(issuer);
    if base.len() > 0 && base.last() == '/' {
        base + well_known_path()
    } else {
        base + seq!['/'] + well_known_path()
    }
}

/// The fields of a provider's discovery document that configuration reads.
#[derive(Debug, Clone)]
pub struct WellKnown {
    pub issuer: String,
    pub authorization_endpoint: String,
    pub token_endpoint: String,
    pub userinfo_endpoint: String,
    pub scopes_supported: Vec<String>,
    pub token_endpoint_auth_methods_supported: Vec<String>,
    pub code_challenge_methods_supported: Vec<String>,
}

/// A provider configuration proposed from a discovery document.
#[derive(Debug, Clone)]
pub struct ProviderLookupResponse {
    pub issuer: String,
    pub authorization_endpoint: String,
    pub token_endpoint: String,
    pub userinfo_endpoint: String,
    pub token_auth_method_basic: bool,
    pub use_pkce: bool,
    pub danger_allow_insecure: bool,
    pub scope: String,
}

pub open spec fn lists(v: Seq<String>, s: Seq<char>) -> bool {
    exists|i: int| 0 <= i < v.len() && #[trigger] v[i]@ == s
}

pub open spec fn openid_word() -> Seq<char> {
    seq!['o', 'p', 'e', 'n', 'i', 'd']
}

pub open spec fn profile_word() -> Seq<char> {
    seq!['p', 'r', 'o', 'f', 'i', 'l', 'e']
}

pub open spec fn email_word() -> Seq<char> {
    seq!['e', 'm', 'a', 'i', 'l']
}

/// `word` and a space when `on` holds, else nothing.
pub open spec fn word_if(on: bool, word: Seq<char>) -> Seq<char> {
    if on {
        word.push(' ')
    } else {
        Seq::empty()
    }
}

/// The scopes of {openid, profile, email} that a provider supports, in that
/// order, each followed by a space.
pub open spec fn proposed_scope(supported: Seq<String>) -> Seq<char> {
    word_if(lists(supported, openid_word()), openid_word()) + word_if(
        lists(supported, profile_word()),
        profile_word(),
    ) + word_if(lists(supported, email_word()), email_word())
}

pub open spec fn client_secret_post_word() -> Seq<char> {
    seq!['c', 'l', 'i', 'e', 'n', 't', '_', 's', 'e', 'c', 'r', 'e', 't', '_', 'p', 'o', 's', 't']
}

pub open spec fn s256_word() -> Seq<char> {
    seq!['S', '2', '5', '6']
}

/// Normalizes an issuer into the URL of its discovery document.
pub fn discovery_url(issuer: &str) -> (r: String)
    ensures
        r@ == discovery_url_of(issuer@),
{
    proof {
        reveal_strlit("http://");
        reveal_strlit("https://");
        reveal_strlit(".well-known/openid-configuration");
        reveal_strlit("/.well-known/openid-configuration");
    }
    assert("http://"@ =~= http_scheme());
    assert("https://"@ =~= https_scheme());
    assert(".well-known/openid-configuration"@ =~= well_known_path());
    assert("/.well-known/openid-configuration"@ =~= seq!['/'] + well_known_path());
    let mut url = if has_prefix(issuer, "http://") || has_prefix(issuer, "https://") {
        String::from_str(issuer)
    } else {
        let mut u = String::from_str("https://");
        u.append(issuer);
        u
    };
    assert(url@ == issuer_url_of(issuer@));
    let n = url.as_str().unicode_len();
    if n > 0 && url.as_str().get_char(n - 1) == '/' {
        url.append(".well-known/openid-configuration");
    } else {
        url.append("/.well-known/openid-configuration");
        assert(url@ =~= issuer_url_of(issuer@) + seq!['/'] + well_known_path());
    }
    url
}

fn push_word_if(out: &mut String, on: bool, word: &str)
    ensures
        final(out)@ == old(out)@ + word_if(on, word@),
{
    proof {
        reveal_strlit(" ");
    }
    if on {
        out.append(word);
        out.append(" ");
        assert(final(out)@ =~= old(out)@ + word@.push(' '));
    } else {
        assert(old(out)@ =~= old(out)@ + Seq::<char>::empty());
    }
}

impl ProviderLookupResponse {
    /// Maps a discovery document into a configuration proposal: endpoints as
    /// they are, basic client authentication unless `client_secret_post` is
    /// offered, PKCE when `S256` is offered, and the supported standard scopes.
    pub fn from_well_known(wk: WellKnown, danger_allow_insecure: bool) -> (r: ProviderLookupResponse)
        ensures
            r.issuer == wk.issuer,
            r.authorization_endpoint == wk.authorization_endpoint,
            r.token_endpoint == wk.token_endpoint,
            r.userinfo_endpoint == wk.userinfo_endpoint,
            r.token_auth_method_basic == !lists(wk.token_endpoint_auth_methods_supported@, client_secret_post_word()),
            r.use_pkce == lists(wk.code_challenge_methods_supported@, s256_word()),
            r.danger_allow_insecure == danger_allow_insecure,
            r.scope@ == proposed_scope(wk.scopes_supported@),
    {
        proof {
            reveal_strlit("openid");
            reveal_strlit("profile");
            reveal_strlit("email");
            reveal_strlit("client_secret_post");
            reveal_strlit("S256");
        }
        assert("openid"@ =~= openid_word());
        assert("profile"@ =~= profile_word());
        assert("email"@ =~= email_word());
        assert("client_secret_post"@ =~= client_secret_post_word());
        assert("S256"@ =~= s256_word());
        let mut scope = String::new();
        push_word_if(&mut scope, contains_str(&wk.scopes_supported, "openid"), "openid");
        push_word_if(&mut scope, contains_str(&wk.scopes_supported, "profile"), "profile");
        push_word_if(&mut scope, contains_str(&wk.scopes_supported, "email"), "email");
        assert(scope@ =~= proposed_scope(wk.scopes_supported@));
        let basic = !contains_str(&wk.token_endpoint_auth_methods_supported, "client_secret_post");
        let pkce = contains_str(&wk.code_challenge_methods_supported, "S256");
        ProviderLookupResponse {
            issuer: wk.issuer,
            authorization_endpoint: wk.authorization_endpoint,
            token_endpoint: wk.token_endpoint,
            userinfo_endpoint: wk.userinfo_endpoint,
            token_auth_method_basic: basic,
            use_pkce: pkce,
            danger_allow_insecure,
            scope,
        }
    }
}

/// Seconds after which an outbound request or connection attempt gives up.
pub const CLIENT_TIMEOUT_SECS: u64 = 10;

/// How the outbound HTTP client for a provider is configured.
#[derive(Debug, Clone)]
pub struct ClientPolicy {
    pub timeout_secs: u64,
    pub connect_timeout_secs: u64,
    pub user_agent: String,
    pub https_only: bool,
    pub accept_invalid_certs: bool,
    pub min_tls_1_3: bool,
    pub built_in_root_certs: bool,
    pub extra_root_pem: Option<String>,
}

impl ClientPolicy {
    /// The client policy for a provider: bounded timeouts always; with the
    /// insecure opt-in no TLS checks and plain http allowed, else TLS 1.3 at
    /// least, the built-in roots plus the given one, and https only.
    pub fn for_provider(danger_allow_insecure: bool, root_pem: Option<String>) -> (r: ClientPolicy)
        ensures
            r.user_agent@ == "Rauthy Auth Provider Client"@,
            r.timeout_secs == CLIENT_TIMEOUT_SECS,
            r.connect_timeout_secs == CLIENT_TIMEOUT_SECS,
            r.https_only == !danger_allow_insecure,
            r.accept_invalid_certs == danger_allow_insecure,
            r.min_tls_1_3 == !danger_allow_insecure,
            r.built_in_root_certs == !danger_allow_insecure,
            r.extra_root_pem == if danger_allow_insecure { None } else { root_pem },
    {
        let user_agent = String::from_str("Rauthy Auth Provider Client");
        if danger_allow_insecure {
            ClientPolicy {
                timeout_secs: CLIENT_TIMEOUT_SECS,
                connect_timeout_secs: CLIENT_TIMEOUT_SECS,
                user_agent,
                https_only: false,
                accept_invalid_certs: true,
                min_tls_1_3: false,
                built_in_root_certs: false,
                extra_root_pem: None,
            }
        } else {
            ClientPolicy {
                timeout_secs: CLIENT_TIMEOUT_SECS,
                connect_timeout_secs: CLIENT_TIMEOUT_SECS,
                user_agent,
                https_only: true,
                accept_invalid_certs: false,
                min_tls_1_3: true,
                built_in_root_certs: true,
                extra_root_pem: root_pem,
            }
        }
    }
}

} // verus!
