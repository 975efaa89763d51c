//! Authentication: API keys, sessions, password checks and the identity-provider
//! URLs and decisions.
use vstd::prelude::*;
use argon2::{PasswordHasher, PasswordVerifier};
use rand::Rng;
use sha2::Digest;
use crate::error::{bad_request, internal, owned, BillingError};
use crate::models::UserRole;
use crate::text::{chars_of, extend_str, starts_with, str_eq, string_of};

verus! {

#[derive(Clone, Debug)]
pub struct ApiKeyInfo {
    pub id: String,
    pub name: String,
    pub customer_id: Option<String>,
}

#[derive(Clone, Debug)]
pub struct AuthUser {
    pub id: String,
    pub name: String,
    pub email: String,
    pub role: UserRole,
    pub customer_id: Option<String>,
}

/// A stored session joined with its user.
#[derive(Clone, Debug)]
pub struct SessionUserRow {
    pub user_id: String,
    pub name: String,
    pub email: String,
    pub role: UserRole,
    pub customer_id: Option<String>,
    pub expires_at: i64,
}

/// Settings of the OpenID Connect realm.
#[derive(Clone, Debug)]
pub struct KeycloakConfig {
    pub realm_url: String,
    pub client_id: String,
    pub client_secret: Option<String>,
    pub admin_role: Option<String>,
}

/// The claims of the identity provider's user-info answer that the rules read.
#[derive(Clone, Debug)]
pub struct KeycloakUserInfo {
    pub email: Option<String>,
    pub name: Option<String>,
    pub preferred_username: Option<String>,
    pub realm_roles: Option<Vec<String>>,
}

/// The first `n` characters of `s` (all of them when it is shorter).
pub open spec fn take_chars(s: Seq<char>, n: nat) -> Seq<char> {
    if s.len() <= n {
        s
    } else {
        s.subrange(0, n as int)
    }
}

/// The displayable prefix of an API key: its first twelve characters.
pub fn get_key_prefix(key: &str) -> (r: String)
    ensures
        r@ == take_chars(key@, 12),
{
    let v = chars_of(key);
    let n: usize = if v.len() < 12 { v.len() } else { 12 };
    let mut out: Vec<char> = Vec::new();
    let mut i: usize = 0;
    while i < n
        invariant
            n <= v.len(),
            v@ == key@,
            n == (if key@.len() <= 12 { key@.len() } else { 12 }),
            i <= n,
            out@ == key@.subrange(0, i as int),
        decreases n - i,
    {
        out.push(v[i]);
        proof {
            assert(key@.subrange(0, i + 1) =~= key@.subrange(0, i as int).push(key@[i as int]));
        }
        i = i + 1;
    }
    proof {
        if key@.len() <= 12 {
            assert(key@.subrange(0, key@.len() as int) =~= key@);
        }
    }
    string_of(&out)
}

/// The characters an API key's random part is drawn from.
pub open spec fn key_alphabet() -> Seq<char> {
    "abcdefghijklmnopqrstuvwxyzABCDEFGHIJKLMNOPQRSTUVWXYZ0123456789"@
}

/// An index drawn uniformly from `0..n` by the thread-local generator
/// (`rand::thread_rng().gen_range(0..n)`). Trusted: it lies in the range.
#[verifier::external_body]
fn random_index(n: usize) -> (r: usize)
    requires
        n > 0,
    ensures
        r < n,
{
    rand::thread_rng().gen_range(0..n)
}

/// A new API key: `pk_live_` followed by forty characters of `key_alphabet()`.
pub fn generate_api_key() -> (r: String)
    ensures
        r@.len() == 48,
        r@.subrange(0, 8) == "pk_live_"@,
        forall|i: int| 8 <= i < 48 ==> key_alphabet().contains(#[trigger] r@[i]),
{
    let alphabet_text = "abcdefghijklmnopqrstuvwxyzABCDEFGHIJKLMNOPQRSTUVWXYZ0123456789";
    let alphabet = chars_of(alphabet_text);
    proof {
        reveal_strlit("abcdefghijklmnopqrstuvwxyzABCDEFGHIJKLMNOPQRSTUVWXYZ0123456789");
        reveal_strlit("pk_live_");
    }
    let mut out: Vec<char> = Vec::new();
    extend_str(&mut out, "pk_live_");
    let mut k: usize = 0;
    while k < 40
        invariant
            alphabet@ == key_alphabet(),
            alphabet@.len() == 62,
            k <= 40,
            out@.len() == 8 + k,
            out@.subrange(0, 8) == "pk_live_"@,
            forall|i: int| 8 <= i < out@.len() ==> key_alphabet().contains(#[trigger] out@[i]),
        decreases 40 - k,
    {
        let j = random_index(alphabet.len());
        let c = alphabet[j];
        let ghost before = out@;
        out.push(c);
        proof {
            assert(key_alphabet()[j as int] == c);
            assert(out@.subrange(0, 8) =~= before.subrange(0, 8));
            assert forall|i: int| 8 <= i < out@.len() implies key_alphabet().contains(
                #[trigger] out@[i],
            ) by {
                if i < before.len() {
                    assert(out@[i] == before[i]);
                } else {
                    assert(out@[i] == key_alphabet()[j as int]);
                }
            }
        }
        k = k + 1;
    }
    string_of(&out)
}

/// The lowercase hexadecimal digit of `d` (`0 <= d < 16`).
pub open spec fn hex_digit(d: int) -> char {
    if d < 10 {
        (48 + d) as char
    } else {
        (87 + d) as char
    }
}

/// Lowercase hexadecimal text of bytes, two digits per byte, high nibble first.
pub open spec fn hex_text(b: Seq<u8>) -> Seq<char>
    decreases b.len(),
{
    if b.len() == 0 {
        Seq::empty()
    } else {
        hex_text(b.drop_last()) + seq![
            hex_digit((b.last() / 16) as int),
            hex_digit((b.last() % 16) as int),
        ]
    }
}

proof fn lemma_hex_text_len(b: Seq<u8>)
    ensures
        hex_text(b).len() == 2 * b.len(),
    decreases b.len(),
{
    if b.len() > 0 {
        lemma_hex_text_len(b.drop_last());
    }
}

fn hex_digit_char(d: u8) -> (r: char)
    requires
        d < 16,
    ensures
        r == hex_digit(d as int),
{
    if d < 10 {
        (d + 48) as char
    } else {
        (d + 87) as char
    }
}

/// Lowercase hexadecimal encoding of bytes.
pub fn hex_encode(bytes: &Vec<u8>) -> (r: String)
    ensures
        r@ == hex_text(bytes@),
        r@.len() == 2 * bytes@.len(),
{
    let mut out: Vec<char> = Vec::new();
    let mut i: usize = 0;
    while i < bytes.len()
        invariant
            i <= bytes.len(),
            out@ == hex_text(bytes@.subrange(0, i as int)),
        decreases bytes.len() - i,
    {
        let b = bytes[i];
        out.push(hex_digit_char(b / 16));
        out.push(hex_digit_char(b % 16));
        proof {
            assert(bytes@.subrange(0, i + 1).drop_last() =~= bytes@.subrange(0, i as int));
        }
        i = i + 1;
    }
    proof {
        assert(bytes@.subrange(0, bytes@.len() as int) =~= bytes@);
        lemma_hex_text_len(bytes@);
    }
    string_of(&out)
}

/// The SHA-256 digest of the UTF-8 bytes of a text.
pub uninterp spec fn sha256_text(s: Seq<char>) -> Seq<u8>;

/// `sha2::Sha256::digest` of the text's bytes. Trusted: the digest is the named one
/// for this text, and SHA-256 digests are 32 bytes long.
#[verifier::external_body]
fn sha256_of(s: &str) -> (r: Vec<u8>)
    ensures
        r@ == sha256_text(s@),
        r@.len() == 32,
{
    sha2::Sha256::digest(s.as_bytes()).to_vec()
}

/// The stored form of an API key: the hexadecimal SHA-256 digest of the key.
pub fn hash_api_key(key: &str) -> (r: String)
    ensures
        r@ == hex_text(sha256_text(key@)),
        r@.len() == 64,
{
    let digest = sha256_of(key);
    hex_encode(&digest)
}

/// Thirty-two bytes from the thread-local generator (`rand::Rng::fill`).
/// Trusted: the length; the bytes themselves are left unsaid.
#[verifier::external_body]
fn random_bytes_32() -> (r: Vec<u8>)
    ensures
        r@.len() == 32,
{
    let mut bytes = [0u8;32];
    rand::thread_rng().fill(&mut bytes);
    bytes.to_vec()
}

/// A new session token: 32 random bytes in lowercase hexadecimal.
pub fn generate_session_token() -> (r: String)
    ensures
        r@.len() == 64,
        exists|b: Seq<u8>| b.len() == 32 && r@ == hex_text(b),
{
    let bytes = random_bytes_32();
    hex_encode(&bytes)
}

/// When a session created at `now` for `expiry_days` days ends.
pub fn session_expiry(now: i64, expiry_days: u32) -> (r: i64)
    requires
        crate::time::instant_ok(now),
    ensures
        r == now + expiry_days * 86400,
{
    now + (expiry_days as i64) * 86400
}

/// What validating a session token gives: the user while the session runs, and
/// whether the stored session must be deleted because it has expired.
pub fn session_outcome(row: Option<SessionUserRow>, now: i64) -> (r: (Option<AuthUser>, bool))
    ensures
        match row {
            Some(s) => if s.expires_at > now {
                r.1 == false && (r.0 matches Some(u) && u.id == s.user_id && u.name == s.name
                    && u.email == s.email && u.role == s.role && u.customer_id == s.customer_id)
            } else {
                r.0 is None && r.1 == true
            },
            None => r.0 is None && r.1 == false,
        },
{
    match row {
        Some(s) => {
            if s.expires_at > now {
                (
                    Some(
                        AuthUser {
                            id: s.user_id,
                            name: s.name,
                            email: s.email,
                            role: s.role,
                            customer_id: s.customer_id,
                        },
                    ),
                    false,
                )
            } else {
                (None, true)
            }
        },
        None => (None, false),
    }
}

/// Hashes a password with Argon2id and a fresh random salt, in PHC string form
/// (`argon2::Argon2::default().hash_password`). Trusted: the default algorithm is
/// Argon2id and the PHC text starts with `$` and its identifier, so a hash starts with
/// `$argon2id$`; the hash parses back and the Argon2 verifier, re-hashing the password
/// with the hash's own salt and parameters, accepts the password it was made from. The
/// rest rests on the random salt and is left unsaid; an error comes back as its message.
#[verifier::external_body]
fn argon2_hash(password: &str) -> (r: Result<String, String>)
    ensures
        r matches Ok(h) ==> has_prefix(h@, "$argon2id$"@),
        r matches Ok(h) ==> argon2_matches(password@, h@) == Some(true),
{
    let salt = argon2::password_hash::SaltString::generate(&mut rand::rngs::OsRng);
    match argon2::Argon2::default().hash_password(password.as_bytes(), &salt) {
        Ok(h) => Ok(h.to_string()),
        Err(e) => Err(e.to_string()),
    }
}

/// The error text for a failed outside call: `prefix` followed by the outside message.
pub open spec fn failure_text(prefix: Seq<char>, detail: Seq<char>) -> Seq<char> {
    prefix + detail
}

fn failure(prefix: &str, detail: &String) -> (r: BillingError)
    ensures
        r matches BillingError::Internal(m) && m@ == failure_text(prefix@, detail@),
{
    let mut v: Vec<char> = Vec::new();
    extend_str(&mut v, prefix);
    extend_str(&mut v, detail.as_str());
    BillingError::Internal(string_of(&v))
}

/// Hashes a password for storage; a failure of the hasher is an internal error.
pub fn hash_password(password: &str) -> (r: Result<String, BillingError>)
    ensures
        r matches Ok(h) ==> is_argon2_hash(h@),
        r matches Ok(h) ==> argon2_matches(password@, h@) == Some(true),
        r matches Err(e) ==> e matches BillingError::Internal(m) && has_prefix(m@, "password hash failed: "@),
{
    match argon2_hash(password) {
        Ok(h) => {
            proof {
                reveal_strlit("$argon2id$");
                reveal_strlit("$argon2");
                assert(h@.subrange(0, 7) =~= h@.subrange(0, 10).subrange(0, 7));
                assert("$argon2id$"@.subrange(0, 7) =~= "$argon2"@);
            }
            Ok(h)
        },
        Err(e) => {
            let f = failure("password hash failed: ", &e);
            proof {
                let p = "password hash failed: "@;
                assert((p + e@).subrange(0, p.len() as int) =~= p);
            }
            Err(f)
        },
    }
}

/// Whether `password` matches an Argon2 PHC hash; `None` when the hash text does not
/// parse.
pub uninterp spec fn argon2_matches(password: Seq<char>, hash: Seq<char>) -> Option<bool>;

/// Whether `password` matches a bcrypt hash; `None` when the hash is malformed.
pub uninterp spec fn bcrypt_matches(password: Seq<char>, hash: Seq<char>) -> Option<bool>;

/// `argon2::PasswordHash::new` on the hash, then `Argon2::default().verify_password`.
/// Trusted: a parsed hash gives the named verdict, an unparsable one the error; the
/// error's text is left unsaid.
#[verifier::external_body]
fn argon2_verify(password: &str, hash: &str) -> (r: Result<bool, String>)
    ensures
        match r {
            Ok(b) => argon2_matches(password@, hash@) == Some(b),
            Err(_) => argon2_matches(password@, hash@) is None,
        },
{
    match argon2::PasswordHash::new(hash) {
        Ok(parsed) => Ok(argon2::Argon2::default().verify_password(password.as_bytes(), &parsed).is_ok()),
        Err(e) => Err(e.to_string()),
    }
}

/// `bcrypt::verify`. Trusted: the verdict is the named one, an error stands for a
/// malformed hash; the error's text is left unsaid.
#[verifier::external_body]
fn bcrypt_verify(password: &str, hash: &str) -> (r: Result<bool, String>)
    ensures
        match r {
            Ok(b) => bcrypt_matches(password@, hash@) == Some(b),
            Err(_) => bcrypt_matches(password@, hash@) is None,
        },
{
    match bcrypt::verify(password, hash) {
        Ok(b) => Ok(b),
        Err(e) => Err(e.to_string()),
    }
}

/// Whether `s` starts with `p`.
pub open spec fn has_prefix(s: Seq<char>, p: Seq<char>) -> bool {
    p.len() <= s.len() && s.subrange(0, p.len() as int) == p
}

/// The hashing scheme a stored hash names by its prefix.
pub open spec fn is_argon2_hash(h: Seq<char>) -> bool {
    has_prefix(h, "$argon2"@)
}

pub open spec fn is_bcrypt_hash(h: Seq<char>) -> bool {
    has_prefix(h, "$2a$"@) || has_prefix(h, "$2b$"@) || has_prefix(h, "$2y$"@)
}

/// Checks a password against a stored hash: Argon2 hashes (`$argon2...`) and bcrypt
/// hashes (`$2a$`, `$2b$`, `$2y$`) are verified by their scheme; any other hash never
/// matches. A hash of a known scheme that does not parse is an internal error.
pub fn verify_password(password: &str, hash: &str) -> (r: Result<bool, BillingError>)
    ensures
        is_argon2_hash(hash@) ==> match argon2_matches(password@, hash@) {
            Some(b) => r == Ok::<bool, BillingError>(b),
            None => r matches Err(BillingError::Internal(_)),
        },
        !is_argon2_hash(hash@) && is_bcrypt_hash(hash@) ==> match bcrypt_matches(
            password@,
            hash@,
        ) {
            Some(b) => r == Ok::<bool, BillingError>(b),
            None => r matches Err(BillingError::Internal(_)),
        },
        !is_argon2_hash(hash@) && !is_bcrypt_hash(hash@) ==> r == Ok::<bool, BillingError>(false),
{
    if starts_with(hash, "$argon2") {
        match argon2_verify(password, hash) {
            Ok(b) => Ok(b),
            Err(e) => Err(failure("invalid argon2 hash: ", &e)),
        }
    } else if starts_with(hash, "$2a$") || starts_with(hash, "$2b$") || starts_with(hash, "$2y$") {
        match bcrypt_verify(password, hash) {
            Ok(b) => Ok(b),
            Err(e) => Err(failure("bcrypt verify failed: ", &e)),
        }
    } else {
        Ok(false)
    }
}

/// A character that URL encoding leaves as it is.
pub open spec fn url_safe(c: char) -> bool {
    ('a' <= c && c <= 'z') || ('A' <= c && c <= 'Z') || ('0' <= c && c <= '9') || c == '-' || c
        == '_' || c == '.' || c == '~'
}

/// The percent-encoding of a text.
pub uninterp spec fn url_encoded(s: Seq<char>) -> Seq<char>;

/// An uppercase hexadecimal digit.
pub open spec fn upper_hex_digit(d: int) -> char {
    if d < 10 {
        (48 + d) as char
    } else {
        (55 + d) as char
    }
}

/// The percent-encoding of an ASCII text: the unreserved characters stay, every other
/// character becomes `%` and its code in two uppercase hexadecimal digits.
pub open spec fn ascii_url_encoding(s: Seq<char>) -> Seq<char>
    decreases s.len(),
{
    if s.len() == 0 {
        Seq::empty()
    } else {
        let c = s[0];
        (if url_safe(c) {
            seq![c]
        } else {
            seq!['%', upper_hex_digit(c as int / 16), upper_hex_digit(c as int % 16)]
        }) + ascii_url_encoding(s.drop_first())
    }
}

/// `urlencoding::encode`: percent-encodes every byte of the UTF-8 text except ASCII
/// alphanumerics and `-`, `_`, `.`, `~`. Trusted: the text is the named encoding; a text
/// made only of those characters comes back unchanged; and an ASCII text (one byte per
/// character) comes back as `ascii_url_encoding` gives it, each other byte written as `%`
/// and two uppercase hexadecimal digits (the crate's `encode_into` and `to_hex_digit`).
#[verifier::external_body]
pub(crate) fn url_encode(s: &str) -> (r: String)
    ensures
        r@ == url_encoded(s@),
        (forall|i: int| 0 <= i < s@.len() ==> url_safe(#[trigger] s@[i])) ==> r@ == s@,
        (forall|i: int| 0 <= i < s@.len() ==> (#[trigger] s@[i] as int) < 128) ==> r@ == ascii_url_encoding(s@),
{
    urlencoding::encode(s).into_owned()
}

/// The identity provider's login address for a redirect target and a state value.
pub open spec fn auth_url_text(config: KeycloakConfig, redirect_uri: Seq<char>, state: Seq<char>) -> Seq<char> {
    config.realm_url@ + "/protocol/openid-connect/auth?client_id="@ + url_encoded(
        config.client_id@,
    ) + "&redirect_uri="@ + url_encoded(redirect_uri)
        + "&response_type=code&scope=openid email profile&state="@ + url_encoded(state)
}

pub fn build_auth_url(config: &KeycloakConfig, redirect_uri: &str, state: &str) -> (r: String)
    ensures
        r@ == auth_url_text(*config, redirect_uri@, state@),
{
    let mut v: Vec<char> = Vec::new();
    extend_str(&mut v, config.realm_url.as_str());
    extend_str(&mut v, "/protocol/openid-connect/auth?client_id=");
    let a = url_encode(config.client_id.as_str());
    extend_str(&mut v, a.as_str());
    extend_str(&mut v, "&redirect_uri=");
    let b = url_encode(redirect_uri);
    extend_str(&mut v, b.as_str());
    extend_str(&mut v, "&response_type=code&scope=openid email profile&state=");
    let c = url_encode(state);
    extend_str(&mut v, c.as_str());
    string_of(&v)
}

/// The identity provider's logout address, with the id token as a hint when there is one.
pub open spec fn logout_url_text(
    config: KeycloakConfig,
    id_token: Option<Seq<char>>,
    redirect_uri: Seq<char>,
) -> Seq<char> {
    let base = config.realm_url@ + "/protocol/openid-connect/logout?post_logout_redirect_uri="@
        + url_encoded(redirect_uri);
    match id_token {
        Some(t) => base + "&id_token_hint="@ + t,
        None => base,
    }
}

pub fn build_logout_url(config: &KeycloakConfig, id_token: Option<&str>, redirect_uri: &str) -> (r:
    String)
    ensures
        r@ == logout_url_text(
            *config,
            match id_token {
                Some(t) => Some(t@),
                None => None,
            },
            redirect_uri@,
        ),
{
    let mut v: Vec<char> = Vec::new();
    extend_str(&mut v, config.realm_url.as_str());
    extend_str(&mut v, "/protocol/openid-connect/logout?post_logout_redirect_uri=");
    let e = url_encode(redirect_uri);
    extend_str(&mut v, e.as_str());
    if let Some(t) = id_token {
        extend_str(&mut v, "&id_token_hint=");
        extend_str(&mut v, t);
    }
    string_of(&v)
}

/// The form fields of the authorization-code exchange, in the order they are sent.
pub fn token_form_params(config: &KeycloakConfig, code: &str, redirect_uri: &str) -> (r: Vec<
    (String, String),
>)
    ensures
        r@.len() == (if config.client_secret is Some { 5int } else { 4int }),
        r@[0].0@ == "grant_type"@ && r@[0].1@ == "authorization_code"@,
        r@[1].0@ == "code"@ && r@[1].1@ == code@,
        r@[2].0@ == "redirect_uri"@ && r@[2].1@ == redirect_uri@,
        r@[3].0@ == "client_id"@ && r@[3].1@ == config.client_id@,
        config.client_secret matches Some(s) ==> r@[4].0@ == "client_secret"@ && r@[4].1@ == s@,
{
    let mut params: Vec<(String, String)> = Vec::new();
    params.push((owned("grant_type"), owned("authorization_code")));
    params.push((owned("code"), owned(code)));
    params.push((owned("redirect_uri"), owned(redirect_uri)));
    params.push((owned("client_id"), config.client_id.clone()));
    if let Some(secret) = &config.client_secret {
        params.push((owned("client_secret"), secret.clone()));
    }
    params
}

/// Whether `roles` holds `role`.
pub fn has_role(roles: &Vec<String>, role: &String) -> (r: bool)
    ensures
        r == exists|i: int| 0 <= i < roles@.len() && (#[trigger] roles@[i])@ == role@,
{
    let mut i: usize = 0;
    while i < roles.len()
        invariant
            i <= roles.len(),
            forall|j: int| 0 <= j < i ==> (#[trigger] roles@[j])@ != role@,
        decreases roles.len() - i,
    {
        if str_eq(roles[i].as_str(), role.as_str()) {
            return true;
        }
        i = i + 1;
    }
    false
}

/// Whether the user-info claims grant `role` among the realm roles.
pub open spec fn info_has_role(info: KeycloakUserInfo, role: Seq<char>) -> bool {
    match info.realm_roles {
        Some(roles) => exists|i: int| 0 <= i < roles@.len() && (#[trigger] roles@[i])@ == role,
        None => false,
    }
}

/// The (email, display name) under which an identity-provider login is recorded:
/// no email is a bad request; with an admin role configured, a user without it is
/// forbidden; the name is the full name, else the user name, else the email.
pub fn keycloak_identity(info: &KeycloakUserInfo, config: &KeycloakConfig) -> (r: Result<
    (String, String),
    BillingError,
>)
    ensures
        info.email is None ==> (r matches Err(BillingError::BadRequest(m)) && m@
            == "Keycloak account has no email"@),
        info.email is Some && (config.admin_role matches Some(role) && !info_has_role(
            *info,
            role@,
        )) ==> r matches Err(BillingError::Forbidden),
        r is Ok <==> info.email is Some && (config.admin_role matches Some(role) ==> info_has_role(
            *info,
            role@,
        )),
        r matches Ok(p) ==> p.0 == info.email.unwrap() && p.1 == (match info.name {
            Some(n) => n,
            None => match info.preferred_username {
                Some(u) => u,
                None => info.email.unwrap(),
            },
        }),
{
    let email = match &info.email {
        Some(e) => e.clone(),
        None => {
            return Err(bad_request("Keycloak account has no email"));
        },
    };
    if let Some(role) = &config.admin_role {
        let allowed = match &info.realm_roles {
            Some(roles) => has_role(roles, role),
            None => false,
        };
        if !allowed {
            return Err(BillingError::Forbidden);
        }
    }
    let name = match &info.name {
        Some(n) => n.clone(),
        None => match &info.preferred_username {
            Some(u) => u.clone(),
            None => email.clone(),
        },
    };
    Ok((email, name))
}

} // verus!

verus! {

/// A stored API key as read for authentication.
#[derive(Clone, Debug)]
pub struct ApiKeyRow {
    pub id: String,
    pub name: String,
    pub customer_id: Option<String>,
    pub status: String,
}

/// Only an active key authenticates.
pub fn api_key_info(row: Option<ApiKeyRow>) -> (r: Option<ApiKeyInfo>)
    ensures
        match row {
            Some(k) => if k.status@ == "active"@ {
                r matches Some(i) && i.id == k.id && i.name == k.name && i.customer_id == k.customer_id
            } else {
                r is None
            },
            None => r is None,
        },
{
    match row {
        Some(k) => {
            if str_eq(k.status.as_str(), "active") {
                Some(ApiKeyInfo { id: k.id, name: k.name, customer_id: k.customer_id })
            } else {
                None
            }
        },
        None => None,
    }
}

/// Storage of API keys, sessions and identity-provider users.
pub trait AuthRepository: Sized {
    /// Holds of each answer the store gives when asked for the active key whose hash is
    /// `key_hash`; a store that does not describe its answers admits every answer (so
    /// for each relation below).
    closed spec fn find_api_key_by_hash_answer(&self, key_hash: Seq<char>, answer: Result<Option<ApiKeyInfo>, BillingError>) -> bool {
        true
    }

    /// Holds of each answer to storing the session `token` of `user_id` until `expires_at`.
    closed spec fn create_session_answer(&self, token: Seq<char>, user_id: Seq<char>, expires_at: int, answer: Result<(), BillingError>) -> bool {
        true
    }

    /// Holds of each answer to looking the session `token` up.
    closed spec fn validate_session_answer(&self, token: Seq<char>, answer: Result<Option<SessionUserRow>, BillingError>) -> bool {
        true
    }

    /// Holds of each answer to deleting the session `token` (the rows deleted).
    closed spec fn delete_session_answer(&self, token: Seq<char>, answer: Result<u64, BillingError>) -> bool {
        true
    }

    /// The key whose stored hash is `key_hash`, when it is active.
    fn find_api_key_by_hash(&self, key_hash: &str) -> (r: Result<Option<ApiKeyInfo>, BillingError>)
        ensures
            self.find_api_key_by_hash_answer(key_hash@, r),
    ;

    /// The store after storing the session `token`, with that answer; a store that does
    /// not describe its state keeps the same value (so for each `after_` function below).
    closed spec fn after_create_session(&self, token: Seq<char>, user_id: Seq<char>, expires_at: int, answer: Result<(), BillingError>) -> Self {
        *self
    }

    /// The store after deleting the session `token`.
    closed spec fn after_delete_session(&self, token: Seq<char>, answer: Result<u64, BillingError>) -> Self {
        *self
    }

    /// The store after recording the identity-provider user `email`.
    closed spec fn after_upsert_keycloak_user(&self, email: Seq<char>, name: Seq<char>, answer: Result<String, BillingError>) -> Self {
        *self
    }

    fn create_session(&mut self, token: &str, user_id: &str, expires_at: i64) -> (r: Result<(), BillingError>)
        ensures
            old(self).create_session_answer(token@, user_id@, expires_at as int, r),
            *final(self) == old(self).after_create_session(token@, user_id@, expires_at as int, r),
    ;

    fn validate_session(&self, token: &str) -> (r: Result<Option<SessionUserRow>, BillingError>)
        ensures
            self.validate_session_answer(token@, r),
    ;

    fn delete_session(&mut self, token: &str) -> (r: Result<u64, BillingError>)
        ensures
            old(self).delete_session_answer(token@, r),
            *final(self) == old(self).after_delete_session(token@, r),
    ;

    /// Holds of each answer to recording the identity-provider user `email` under `name`
    /// (the user's id).
    closed spec fn upsert_keycloak_user_answer(&self, email: Seq<char>, name: Seq<char>, answer: Result<String, BillingError>) -> bool {
        true
    }

    fn upsert_keycloak_user(&mut self, email: &str, name: &str) -> (r: Result<String, BillingError>)
        ensures
            old(self).upsert_keycloak_user_answer(email@, name@, r),
            *final(self) == old(self).after_upsert_keycloak_user(email@, name@, r),
    ;
}

/// The user a session row gives at `now`: its user while it runs, none once expired or
/// missing.
pub open spec fn session_user(row: Option<SessionUserRow>, now: int, user: Option<AuthUser>) -> bool {
    match row {
        Some(s) => if s.expires_at > now {
            user matches Some(u) && u.id == s.user_id && u.name == s.name && u.email == s.email
                && u.role == s.role && u.customer_id == s.customer_id
        } else {
            user is None
        },
        None => user is None,
    }
}

/// Looks an API key up by its hash; the key itself is never stored.
pub fn verify_api_key_with_repo<R: AuthRepository>(repo: &R, key: &str) -> (r: Result<
    Option<ApiKeyInfo>,
    BillingError,
>)
    ensures
        repo.find_api_key_by_hash_answer(hex_text(sha256_text(key@)), r),
{
    let key_hash = hash_api_key(key);
    repo.find_api_key_by_hash(key_hash.as_str())
}

/// Opens a session for a user: a fresh token, stored with its expiry `expiry_days` days
/// from `now`; gives the token.
pub fn create_session_with_repo<R: AuthRepository>(repo: &mut R, user_id: &str, expiry_days: u32, now: i64) -> (r:
    Result<String, BillingError>)
    requires
        crate::time::instant_ok(now),
    ensures
        r matches Ok(t) ==> t@.len() == 64 && old(repo).create_session_answer(
            t@,
            user_id@,
            now + expiry_days * 86400,
            Ok(()),
        ) && *final(repo) == old(repo).after_create_session(
            t@,
            user_id@,
            now + expiry_days * 86400,
            Ok(()),
        ),
        r matches Err(e) ==> exists|t: Seq<char>|
            #[trigger] old(repo).create_session_answer(t, user_id@, now + expiry_days * 86400, Err(e))
                && *final(repo) == old(repo).after_create_session(
                t,
                user_id@,
                now + expiry_days * 86400,
                Err(e),
            ),
{
    let token = generate_session_token();
    let expires_at = session_expiry(now, expiry_days);
    repo.create_session(token.as_str(), user_id, expires_at)?;
    Ok(token)
}

/// The user of a running session; an expired session is deleted (a failure to delete
/// is ignored) and gives no user.
pub fn validate_session_with_repo<R: AuthRepository>(repo: &mut R, token: &str, now: i64) -> (r: Result<
    Option<AuthUser>,
    BillingError,
>)
    ensures
        exists|answer: Result<Option<SessionUserRow>, BillingError>|
            #[trigger] old(repo).validate_session_answer(token@, answer) && match answer {
                Ok(row) => r matches Ok(user) && session_user(row, now as int, user) && if row matches Some(
                    s,
                ) && s.expires_at <= now {
                    exists|da: Result<u64, BillingError>|
                        #[trigger] old(repo).delete_session_answer(token@, da) && *final(repo)
                            == old(repo).after_delete_session(token@, da)
                } else {
                    *final(repo) == *old(repo)
                },
                Err(e) => r == Err::<Option<AuthUser>, BillingError>(e) && *final(repo) == *old(repo),
            },
{
    let row = repo.validate_session(token)?;
    let (user, expired) = session_outcome(row, now);
    if expired {
        let _ = repo.delete_session(token);
    }
    Ok(user)
}

pub fn delete_session_with_repo<R: AuthRepository>(repo: &mut R, token: &str) -> (r: Result<(), BillingError>)
    ensures
        exists|answer: Result<u64, BillingError>|
            #[trigger] old(repo).delete_session_answer(token@, answer) && *final(repo) == old(
                repo,
            ).after_delete_session(token@, answer) && match answer {
                Ok(_) => r is Ok,
                Err(e) => r == Err::<(), BillingError>(e),
            },
{
    repo.delete_session(token)?;
    Ok(())
}

/// The name a login is recorded under: the user's name, else the preferred user name,
/// else the e-mail address.
pub open spec fn identity_name(info: KeycloakUserInfo) -> String {
    match info.name {
        Some(n) => n,
        None => match info.preferred_username {
            Some(u) => u,
            None => info.email.unwrap(),
        },
    }
}

/// Records an identity-provider login under the identity `keycloak_identity` gives and
/// returns the user id.
pub fn find_or_create_user_with_repo<R: AuthRepository>(
    repo: &mut R,
    config: &KeycloakConfig,
    info: &KeycloakUserInfo,
) -> (r: Result<String, BillingError>)
    ensures
        info.email is None ==> (r matches Err(BillingError::BadRequest(_))) && *final(repo) == *old(
            repo,
        ),
        info.email is Some && (config.admin_role matches Some(role) && !info_has_role(*info, role@))
            ==> (r matches Err(BillingError::Forbidden)) && *final(repo) == *old(repo),
        info.email is Some && (config.admin_role matches Some(role) ==> info_has_role(*info, role@))
            ==> old(repo).upsert_keycloak_user_answer(info.email.unwrap()@, identity_name(*info)@, r)
            && *final(repo) == old(repo).after_upsert_keycloak_user(
            info.email.unwrap()@,
            identity_name(*info)@,
            r,
        ),
{
    let (email, name) = keycloak_identity(info, config)?;
    repo.upsert_keycloak_user(email.as_str(), name.as_str())
}

} // verus!
