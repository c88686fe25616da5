//! The light projection of providers that the login page renders.
use vstd::prelude::*;
use crate::provider::{template_idx, AuthProvider};

verus! {

/// A provider as the login page shows it.
#[derive(Debug, Clone)]
pub struct AuthProviderTemplate {
    pub id: String,
    pub name: String,
    pub use_pkce: bool,
}

/// Whether `t` shows provider `p`.
pub open spec fn shows(t: AuthProviderTemplate, p: AuthProvider) -> bool {
    t.id == p.id && t.name == p.name && t.use_pkce == p.use_pkce
}

impl AuthProviderTemplate {
    /// The cache key of the rendered login-page provider list.
    pub fn cache_idx() -> (r: String)
        ensures
            r@ == template_idx(),
    {
        String::from_str("auth_provider_template")
    }

    /// The templates of all providers, in their order; none when there is no
    /// provider, so that the page renders no choice at all.
    pub fn from_providers(providers: Vec<AuthProvider>) -> (r: Option<Vec<AuthProviderTemplate>>)
        ensures
            providers@.len() == 0 <==> r is None,
            r matches Some(v) ==> v@.len() == providers@.len() && forall|i: int|
                0 <= i < v@.len() ==> shows(#[trigger] v@[i], providers@[i]),
    {
        if providers.len() == 0 {
            return None;
        }
        let ghost ps = providers@;
        let mut rest = providers;
        let mut out: Vec<AuthProviderTemplate> = Vec::new();
        let n = rest.len();
        let mut i: usize = 0;
        while i < n
            invariant
                n == ps.len(),
                i <= n,
                rest@ == ps.subrange(i as int, n as int),
                out@.len() == i,
                forall|j: int| 0 <= j < i ==> shows(#[trigger] out@[j], ps[j]),
            decreases n - i,
        {
            let p = rest.remove(0);
            assert(p == ps[i as int]);
            assert(rest@ =~= ps.subrange(i + 1, n as int));
            out.push(AuthProviderTemplate { id: p.id, name: p.name, use_pkce: p.use_pkce });
            i = i + 1;
        }
        Some(out)
    }
}

} // verus!
