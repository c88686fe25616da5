//! Reconciliation of an upstream identity with the local user records.
use vstd::prelude::*;
use vstd::string::StrSliceExecFns;
use crate::crypto::{b64_url_decode, b64_url_decoded};
use crate::discovery::starts_with;
use crate::error::{ErrorResponse, ErrorResponseType};
use crate::text::{has_prefix, str_eq};

verus! {

/// The address claim of an ID token; every field is optional.
#[derive(Debug, Clone)]
pub struct AuthProviderAddressClaims {
    pub formatted: Option<String>,
    pub street_address: Option<String>,
    pub locality: Option<String>,
    pub postal_code: Option<i32>,
    pub country: Option<String>,
}

/// The claims of an upstream ID token. Only `email` is mandatory, and it is
/// checked after decoding so that its absence gets its own error.
#[derive(Debug, Clone)]
pub struct AuthProviderIdClaims {
    pub iss: String,
    pub sub: String,
    pub aud: Option<String>,
    pub azp: Option<String>,
    pub amr: Option<Vec<String>>,
    pub email: Option<String>,
    pub email_verified: Option<bool>,
    pub given_name: Option<String>,
    pub family_name: Option<String>,
    pub address: Option<AuthProviderAddressClaims>,
    pub birthdate: Option<String>,
    pub locale: Option<String>,
    pub phone: Option<String>,
}

/// The display languages a user can have.
#[derive(Debug, Clone, Copy, PartialEq, Eq, Structural)]
pub enum Language {
    En,
    De,
    ZhHans,
}

/// The language a locale maps to: German and Chinese by their prefix, English otherwise.
pub open spec fn language_of_locale(locale: Seq<char>) -> Language {
    if starts_with(locale, seq!['d', 'e']) {
        Language::De
    } else if starts_with(locale, seq!['z', 'h']) {
        Language::ZhHans
    } else {
        Language::En
    }
}

impl Language {
    pub fn from_locale(locale: &str) -> (r: Language)
        ensures
            r == language_of_locale(locale@),
    {
        proof {
            reveal_strlit("de");
            reveal_strlit("zh");
        }
        assert("de"@ =~= seq!['d', 'e']);
        assert("zh"@ =~= seq!['z', 'h']);
        if has_prefix(locale, "de") {
            Language::De
        } else if has_prefix(locale, "zh") {
            Language::ZhHans
        } else {
            Language::En
        }
    }
}

/// The fields of a local user account that federation reads and writes.
/// A user made here carries an empty id until the user store assigns one.
#[derive(Debug, Clone)]
pub struct User {
    pub id: String,
    pub email: String,
    pub given_name: String,
    pub family_name: String,
    pub enabled: bool,
    pub email_verified: bool,
    pub language: Language,
    pub last_login: Option<i64>,
    pub last_failed_login: Option<i64>,
    pub failed_login_attempts: Option<i64>,
    pub auth_provider_id: Option<String>,
    pub federation_uid: Option<String>,
}

/// The optional profile values of a user.
#[derive(Debug, Clone)]
pub struct UserValues {
    pub birthdate: Option<String>,
    pub phone: Option<String>,
    pub street: Option<String>,
    pub zip: Option<i32>,
    pub city: Option<String>,
    pub country: Option<String>,
}

/// What to look a user up by: first the email, then the federation subject.
#[derive(Debug, Clone)]
pub struct UserLookup {
    pub email: String,
    pub federation_uid: String,
}

/// What reconciliation decides for the user store.
#[derive(Debug, Clone)]
pub enum Reconciliation {
    /// The account belongs to another identity: store the counted failure, then fail.
    Forbidden { user: User, error: ErrorResponse },
    /// The account is this identity's: store the refreshed account.
    Updated { user: User, old_email: Option<String> },
    /// No account matched: create this one.
    Created { user: User },
}

/// The index of the first `.` in `s` at or after `from`, or the length of `s`.
pub open spec fn dot_from(s: Seq<char>, from: int) -> int
    decreases s.len() - from,
{
    if from < 0 || from >= s.len() {
        s.len() as int
    } else if s[from] == '.' {
        from
    } else {
        dot_from(s, from + 1)
    }
}

/// The claims part of a token: what lies between its first and second dot,
/// or up to its end; none if the token has no dot.
pub open spec fn claims_segment(t: Seq<char>) -> Option<Seq<char>> {
    let a = dot_from(t, 0);
    if a >= t.len() {
        None
    } else {
        Some(t.subrange(a + 1, dot_from(t, a + 1)))
    }
}

proof fn lemma_dot_from_bounds(s: Seq<char>, from: int)
    requires
        0 <= from <= s.len(),
    ensures
        from <= dot_from(s, from) <= s.len(),
    decreases s.len() - from,
{
    if from < s.len() && s[from] != '.' {
        lemma_dot_from_bounds(s, from + 1);
    }
}

fn find_dot(s: &str, from: usize) -> (r: usize)
    requires
        from <= s@.len(),
    ensures
        r == dot_from(s@, from as int),
{
    let n = s.unicode_len();
    let mut i = from;
    while i < n
        invariant
            n == s@.len(),
            from <= i <= n,
            dot_from(s@, from as int) == dot_from(s@, i as int),
        decreases n - i,
    {
        if s.get_char(i) == '.' {
            return i;
        }
        i = i + 1;
    }
    i
}

/// Whether the token carries any profile value.
pub open spec fn has_profile_claims(c: AuthProviderIdClaims) -> bool {
    c.birthdate is Some || c.phone is Some || c.address is Some
}

/// A value replaced by a claim where the claim is present.
pub open spec fn updated_with<T>(old: Option<T>, claim: Option<T>) -> Option<T> {
    match claim {
        Some(v) => Some(v),
        None => old,
    }
}

/// A string replaced by a claim where the claim is present.
pub open spec fn name_with(old: Seq<char>, claim: Option<String>) -> Seq<char> {
    match claim {
        Some(v) => v@,
        None => old,
    }
}

/// The failure count after one more failed login, held at the largest value.
pub open spec fn bumped(n: Option<i64>) -> i64 {
    let v = match n {
        Some(x) => x,
        None => 0,
    };
    if v == i64::MAX {
        v
    } else {
        (v + 1) as i64
    }
}

/// Whether a stored account is bound to this upstream subject at this provider.
pub open spec fn federation_matches(u: User, sub: Seq<char>, provider_id: Seq<char>) -> bool {
    &&& u.federation_uid matches Some(f) && f@ == sub
    &&& u.auth_provider_id matches Some(a) && a@ == provider_id
}

pub open spec fn placeholder_name() -> Seq<char> {
    seq!['N', '/', 'A']
}

fn opt_str_is(o: &Option<String>, s: &str) -> (r: bool)
    ensures
        r == (o matches Some(v) && v@ == s@),
{
    match o {
        Some(v) => str_eq(v.as_str(), s),
        None => false,
    }
}

fn pick_string(claim: Option<String>, fallback: &str) -> (r: String)
    ensures
        r@ == name_with(fallback@, claim),
{
    match claim {
        Some(v) => v,
        None => String::from_str(fallback),
    }
}

fn pick<T>(old: Option<T>, claim: Option<T>) -> (r: Option<T>)
    ensures
        r == updated_with(old, claim),
{
    match claim {
        Some(v) => Some(v),
        None => old,
    }
}

impl AuthProviderIdClaims {
    /// Extracts the decoded claims part of a raw ID token; a token without a
    /// claims part, or one that is not URL-safe base64, is a bad request.
    pub fn payload_of(token: &str) -> (r: Result<Vec<u8>, ErrorResponse>)
        ensures
            match claims_segment(token@) {
                None => r matches Err(e) && e.error == ErrorResponseType::BadRequest,
                Some(seg) => match b64_url_decoded(seg) {
                    Some(b) => r matches Ok(v) && v@ == b,
                    None => r matches Err(e) && e.error == ErrorResponseType::BadRequest,
                },
            },
    {
        let n = token.unicode_len();
        let a = find_dot(token, 0);
        if a >= n {
            return Err(ErrorResponse::from_str(ErrorResponseType::BadRequest, "ID token was unsigned"));
        }
        let b = find_dot(token, a + 1);
        proof {
            lemma_dot_from_bounds(token@, a + 1);
        }
        let seg = token.substring_char(a + 1, b);
        match b64_url_decode(seg) {
            Some(bytes) => Ok(bytes),
            None => Err(ErrorResponse::from_str(ErrorResponseType::BadRequest, "ID token claims are not valid base64")),
        }
    }

    /// The lookups that reconciliation needs. Without an `email` claim the
    /// token is rejected here, before any user record is read.
    pub fn user_lookup(&self) -> (r: Result<UserLookup, ErrorResponse>)
        ensures
            match self.email {
                None => r matches Err(e) && e.error == ErrorResponseType::BadRequest,
                Some(m) => r matches Ok(l) && l.email@ == m@ && l.federation_uid@ == self.sub@,
            },
    {
        match &self.email {
            None => Err(ErrorResponse::from_str(
                ErrorResponseType::BadRequest,
                "No `email` in ID token claims. This is a mandatory claim",
            )),
            Some(m) => Ok(UserLookup { email: m.clone(), federation_uid: self.sub.clone() }),
        }
    }

    /// Decides what becomes of the local account. `by_email` is the account
    /// found by the token's email, `by_federation_uid` the one found by its
    /// subject, looked up only when the first is absent. An account found
    /// must be bound to this subject at this provider: otherwise its failed
    /// logins are counted and the login is forbidden, with its email and names
    /// untouched. A bound account takes the token's email and names and a
    /// fresh login time. Without an account, a new federated one is made.
    pub fn validate_update_user(
        self,
        auth_provider_id: &str,
        by_email: Option<User>,
        by_federation_uid: Option<User>,
        now: i64,
    ) -> (r: Result<Reconciliation, ErrorResponse>)
        ensures
            self.email is None ==> (r matches Err(e) && e.error == ErrorResponseType::BadRequest),
            self.email matches Some(m) ==> match (if by_email is Some { by_email } else { by_federation_uid }) {
                Some(u) => if !federation_matches(u, self.sub@, auth_provider_id@) {
                    r matches Ok(Reconciliation::Forbidden { user, error }) && {
                        &&& error.error == ErrorResponseType::Forbidden
                        &&& user.id == u.id
                        &&& user.email == u.email
                        &&& user.given_name == u.given_name
                        &&& user.family_name == u.family_name
                        &&& user.enabled == u.enabled
                        &&& user.email_verified == u.email_verified
                        &&& user.language == u.language
                        &&& user.last_login == u.last_login
                        &&& user.last_failed_login == Some(now)
                        &&& user.failed_login_attempts == Some(bumped(u.failed_login_attempts))
                        &&& user.auth_provider_id == u.auth_provider_id
                        &&& user.federation_uid == u.federation_uid
                    }
                } else {
                    r matches Ok(Reconciliation::Updated { user, old_email }) && {
                        &&& user.id == u.id
                        &&& user.email@ == m@
                        &&& (if u.email@ == m@ { old_email is None } else { old_email == Some(u.email) })
                        &&& user.given_name@ == name_with(u.given_name@, self.given_name)
                        &&& user.family_name@ == name_with(u.family_name@, self.family_name)
                        &&& user.enabled == u.enabled
                        &&& user.email_verified == u.email_verified
                        &&& user.language == u.language
                        &&& user.last_login == Some(now)
                        &&& user.last_failed_login is None
                        &&& user.failed_login_attempts is None
                        &&& user.auth_provider_id == u.auth_provider_id
                        &&& user.federation_uid == u.federation_uid
                    }
                },
                None => r matches Ok(Reconciliation::Created { user }) && {
                    &&& user.id@.len() == 0
                    &&& user.email@ == m@
                    &&& user.given_name@ == name_with(placeholder_name(), self.given_name)
                    &&& user.family_name@ == name_with(placeholder_name(), self.family_name)
                    &&& user.enabled
                    &&& user.email_verified == (self.email_verified == Some(true))
                    &&& user.language == (match self.locale {
                        Some(l) => language_of_locale(l@),
                        None => Language::En,
                    })
                    &&& user.last_login == Some(now)
                    &&& user.last_failed_login is None
                    &&& user.failed_login_attempts is None
                    &&& user.auth_provider_id matches Some(a) && a@ == auth_provider_id@
                    &&& user.federation_uid matches Some(f) && f@ == self.sub@
                },
            },
    {
        let email = match self.email {
            Some(m) => m,
            None => {
                return Err(ErrorResponse::from_str(
                    ErrorResponseType::BadRequest,
                    "No `email` in ID token claims. This is a mandatory claim",
                ));
            },
        };
        proof {
            reveal_strlit("N/A");
        }
        assert("N/A"@ =~= placeholder_name());
        let found = match by_email {
            Some(u) => Some(u),
            None => by_federation_uid,
        };
        match found {
            Some(mut user) => {
                let mut forbidden: Option<&str> = None;
                if !opt_str_is(&user.federation_uid, self.sub.as_str()) {
                    forbidden = Some("non-federated user or ID mismatch");
                }
                if !opt_str_is(&user.auth_provider_id, auth_provider_id) {
                    forbidden = Some("invalid login from wrong auth provider");
                }
                if let Some(msg) = forbidden {
                    let count = match user.failed_login_attempts {
                        Some(c) => c,
                        None => 0,
                    };
                    user.last_failed_login = Some(now);
                    user.failed_login_attempts = Some(if count == i64::MAX { count } else { count + 1 });
                    return Ok(Reconciliation::Forbidden {
                        user,
                        error: ErrorResponse::from_str(ErrorResponseType::Forbidden, msg),
                    });
                }
                let old_email = if str_eq(user.email.as_str(), email.as_str()) {
                    None
                } else {
                    let prev = user.email;
                    user.email = email;
                    Some(prev)
                };
                if let Some(g) = self.given_name {
                    user.given_name = g;
                }
                if let Some(f) = self.family_name {
                    user.family_name = f;
                }
                user.last_login = Some(now);
                user.last_failed_login = None;
                user.failed_login_attempts = None;
                Ok(Reconciliation::Updated { user, old_email })
            },
            None => {
                let language = match &self.locale {
                    Some(l) => Language::from_locale(l.as_str()),
                    None => Language::En,
                };
                let email_verified = match self.email_verified {
                    Some(v) => v,
                    None => false,
                };
                let user = User {
                    id: String::new(),
                    email,
                    given_name: pick_string(self.given_name, "N/A"),
                    family_name: pick_string(self.family_name, "N/A"),
                    enabled: true,
                    email_verified,
                    language,
                    last_login: Some(now),
                    last_failed_login: None,
                    failed_login_attempts: None,
                    auth_provider_id: Some(String::from_str(auth_provider_id)),
                    federation_uid: Some(self.sub),
                };
                Ok(Reconciliation::Created { user })
            },
        }
    }

    /// The profile values to store after a login: the stored ones, each
    /// replaced by the token's claim where it has one; none when the token
    /// has no birthdate, phone or address, so that nothing is written.
    pub fn user_values_update(self, stored: Option<UserValues>) -> (r: Option<UserValues>)
        ensures
            has_profile_claims(self) <==> r is Some,
            r matches Some(v) ==> {
                let base = match stored {
                    Some(s) => s,
                    None => UserValues { birthdate: None, phone: None, street: None, zip: None, city: None, country: None },
                };
                let addr = match self.address {
                    Some(a) => a,
                    None => AuthProviderAddressClaims { formatted: None, street_address: None, locality: None, postal_code: None, country: None },
                };
                &&& v.birthdate == updated_with(base.birthdate, self.birthdate)
                &&& v.phone == updated_with(base.phone, self.phone)
                &&& v.street == updated_with(base.street, addr.street_address)
                &&& v.zip == updated_with(base.zip, addr.postal_code)
                &&& v.city == updated_with(base.city, addr.locality)
                &&& v.country == updated_with(base.country, addr.country)
            },
    {
        let found = self.birthdate.is_some() || self.phone.is_some() || self.address.is_some();
        if !found {
            return None;
        }
        let base = match stored {
            Some(s) => s,
            None => UserValues { birthdate: None, phone: None, street: None, zip: None, city: None, country: None },
        };
        let addr = match self.address {
            Some(a) => a,
            None => AuthProviderAddressClaims { formatted: None, street_address: None, locality: None, postal_code: None, country: None },
        };
        Some(UserValues {
            birthdate: pick(base.birthdate, self.birthdate),
            phone: pick(base.phone, self.phone),
            street: pick(base.street, addr.street_address),
            zip: pick(base.zip, addr.postal_code),
            city: pick(base.city, addr.locality),
            country: pick(base.country, addr.country),
        })
    }
}

} // verus!
