use vstd::prelude::*;

use crate::clock::now_unix_seconds;
use crate::email::{valid_email, Email};
use crate::entities::{opt_view, AuthClaims, AuthIdentity};
use crate::errors::{DomainError, DomainErrorKind};
use crate::ports::IdentityService;
use crate::text::{chars_of, decimal, decimal_text, owned, string_of};

verus! {

// ---------------------------------------------------------------------------
// Names for what the JWT and JSON libraries compute
// ---------------------------------------------------------------------------

/// Name for the HS256 JSON Web Token that `jsonwebtoken::encode` builds with the
/// default header for the claims whose JSON text is `claims_json`, signed with
/// `secret`.
pub uninterp spec fn hs256_jwt(claims_json: Seq<char>, secret: Seq<char>) -> Seq<char>;

/// Name for "`token` carries a valid HS256 signature under `secret`": it is three
/// dot-separated segments, its header segment decodes to a header that names
/// HS256, and its last segment is the base64url HMAC-SHA256, keyed with
/// `secret`, of the header and claims segments joined by `.` (what
/// `jsonwebtoken::decode` checks before it reads the claims).
pub uninterp spec fn hs256_verifies(token: Seq<char>, secret: Seq<char>) -> bool;

/// Name for the JSON text of the claims part of `token` (its middle segment,
/// base64url-decoded, without surrounding white space), when that part is JSON.
pub uninterp spec fn jwt_claims_text(token: Seq<char>) -> Option<Seq<char>>;

/// Name for the text value of field `key` of the JSON object `json`, when `json`
/// parses as an object with a string at `key` (`serde_json`).
pub uninterp spec fn json_object_text(json: Seq<char>, key: Seq<char>) -> Option<Seq<char>>;

/// Name for the unsigned integer value of field `key` of the JSON object `json`,
/// when `json` parses as an object with an integer in `u64` at `key` (`serde_json`).
pub uninterp spec fn json_object_u64(json: Seq<char>, key: Seq<char>) -> Option<u64>;

/// The characters of a session token: those of the base64url alphabet (ASCII
/// letters, digits, `-` and `_`) and the `.` that joins its segments.
pub open spec fn token_char(c: char) -> bool {
    ('a' <= c && c <= 'z') || ('A' <= c && c <= 'Z') || ('0' <= c && c <= '9') || c == '-' || c
        == '_' || c == '.'
}

/// `jsonwebtoken::encode` with the default header (HS256) over the claims given
/// as JSON text (kept as it is through `serde_json::value::RawValue`), signed with
/// `secret`. Claimed: a produced token is [`hs256_jwt`] of the arguments, its
/// signature verifies under `secret` ([`hs256_verifies`]: `encode` signs the
/// header and claims segments with HMAC-SHA256 keyed by the secret, which is what
/// `decode` recomputes and compares), it is made of base64url segments joined by
/// dots, and its claims part holds the given JSON text when that text is an
/// object written without surrounding white space. `None` comes when the text is
/// not JSON, so never for the text that [`claims_json`] writes: it is one JSON
/// object whose string values are escaped as JSON requires
/// (`RawValue::from_string` accepts it), and `encode` with an HMAC key and the
/// HS256 default header does not fail otherwise.
#[verifier::external_body]
fn hs256_sign(claims_json: &str, secret: &str) -> (r: Option<String>)
    ensures
        (exists|c: JwtClaims| #[trigger] self::claims_json(c) == claims_json@) ==> r is Some,
        r matches Some(t) ==> {
            &&& t@ == hs256_jwt(claims_json@, secret@)
            &&& hs256_verifies(t@, secret@)
            &&& forall|i: int| 0 <= i < t@.len() ==> token_char(#[trigger] t@[i])
            &&& (claims_json@.len() > 0 && claims_json@[0] == '{' && claims_json@.last() == '}')
                ==> jwt_claims_text(t@) == Some(claims_json@)
        },
{
    let claims = serde_json::value::RawValue::from_string(claims_json.to_string()).ok()?;
    let key = jsonwebtoken::EncodingKey::from_secret(secret.as_bytes());
    jsonwebtoken::encode(&jsonwebtoken::Header::default(), &claims, &key).ok()
}

/// `jsonwebtoken::decode` of an HS256 token signed with `secret`, whose audience
/// and issuer must be `audience` and `issuer` and whose expiry may be passed by at
/// most `leeway` seconds; the claims are kept as their JSON text. Whether a token
/// is accepted depends on the clock. Claimed of an accepted token: its signature
/// verifies under `secret` ([`hs256_verifies`]; `verify_signature` runs first),
/// its claims text is [`jwt_claims_text`] of the token, and an `aud` or `iss`
/// claim written as a JSON string is `audience` or `issuer` (`validate` refuses
/// a single audience or issuer outside the configured one-element sets). Not
/// claimed: the expiry check, which rests on the clock, and `aud` or `iss`
/// written as arrays, which the claims are never read from here.
#[verifier::external_body]
fn hs256_decode(token: &str, secret: &str, audience: &str, issuer: &str, leeway: u64) -> (r:
    Option<String>)
    ensures
        r matches Some(p) ==> {
            &&& hs256_verifies(token@, secret@)
            &&& jwt_claims_text(token@) == Some(p@)
            &&& (json_object_text(p@, "aud"@) is Some ==> json_object_text(p@, "aud"@) == Some(
                audience@,
            ))
            &&& (json_object_text(p@, "iss"@) is Some ==> json_object_text(p@, "iss"@) == Some(
                issuer@,
            ))
        },
{
    let mut validation = jsonwebtoken::Validation::new(jsonwebtoken::Algorithm::HS256);
    validation.set_audience(&[audience]);
    validation.set_issuer(&[issuer]);
    validation.leeway = leeway;
    let key = jsonwebtoken::DecodingKey::from_secret(secret.as_bytes());
    let data = jsonwebtoken::decode::<Box<serde_json::value::RawValue>>(token, &key, &validation)
        .ok()?;
    Some(data.claims.get().to_string())
}

/// `serde_json::from_str` into a `serde_json::Value`, then the string at field
/// `key`. Claimed: the outcome is [`json_object_text`] of the arguments, and on a
/// text that [`claims_text`] writes (one JSON object, each field once, strings
/// escaped as JSON requires) it is the value written for a text field, and
/// `None` for a number field or a key that is not there.
#[verifier::external_body]
fn json_text_field(json: &str, key: &str) -> (r: Option<String>)
    ensures
        opt_view(r) == json_object_text(json@, key@),
        forall|
            aud: Seq<char>,
            exp: u64,
            iat: u64,
            iss: Seq<char>,
            sub: Seq<char>,
            email: Seq<char>,
            name: Seq<char>,
            picture: Seq<char>,
        |
            #[trigger] claims_text(aud, exp, iat, iss, sub, email, name, picture) == json@
                ==> opt_view(r) == claims_text_field(key@, aud, iss, sub, email, name, picture),
{
    let value: serde_json::Value = serde_json::from_str(json).ok()?;
    value.get(key)?.as_str().map(|s| s.to_string())
}

/// `serde_json::from_str` into a `serde_json::Value`, then the `u64` at field
/// `key`. Claimed: the outcome is [`json_object_u64`] of the arguments, and on a
/// text that [`claims_text`] writes it is the number written for `exp` or `iat`,
/// and `None` for a text field or a key that is not there.
#[verifier::external_body]
fn json_u64_field(json: &str, key: &str) -> (r: Option<u64>)
    ensures
        r == json_object_u64(json@, key@),
        forall|
            aud: Seq<char>,
            exp: u64,
            iat: u64,
            iss: Seq<char>,
            sub: Seq<char>,
            email: Seq<char>,
            name: Seq<char>,
            picture: Seq<char>,
        |
            #[trigger] claims_text(aud, exp, iat, iss, sub, email, name, picture) == json@
                ==> r == (if key@ == "exp"@ {
                Some(exp)
            } else if key@ == "iat"@ {
                Some(iat)
            } else {
                None
            }),
{
    let value: serde_json::Value = serde_json::from_str(json).ok()?;
    value.get(key)?.as_u64()
}

// ---------------------------------------------------------------------------
// JSON text of the claims
// ---------------------------------------------------------------------------

/// The lower-case hexadecimal digit of `d < 16`.
pub open spec fn hex_digit(d: nat) -> char {
    if d < 10 {
        ((48 + d) as u32) as char
    } else {
        ((87 + d) as u32) as char
    }
}

/// How one character is written inside a JSON string: quote, backslash and the
/// control characters are escaped, everything else is written as it is.
pub open spec fn escape_char(c: char) -> Seq<char> {
    if c == '"' {
        seq!['\\', '"']
    } else if c == '\\' {
        seq!['\\', '\\']
    } else if c == '\u{8}' {
        seq!['\\', 'b']
    } else if c == '\t' {
        seq!['\\', 't']
    } else if c == '\n' {
        seq!['\\', 'n']
    } else if c == '\u{c}' {
        seq!['\\', 'f']
    } else if c == '\r' {
        seq!['\\', 'r']
    } else if (c as u32) < 32 {
        seq!['\\', 'u', '0', '0', hex_digit((c as u32 / 16) as nat), hex_digit((c as u32 % 16) as nat)]
    } else {
        seq![c]
    }
}

/// The characters of `s`, escaped for a JSON string.
pub open spec fn json_escape(s: Seq<char>) -> Seq<char>
    decreases s.len(),
{
    if s.len() == 0 {
        Seq::empty()
    } else {
        json_escape(s.drop_last()) + escape_char(s.last())
    }
}

/// `s` as a JSON string.
pub open spec fn json_string(s: Seq<char>) -> Seq<char> {
    seq!['"'] + json_escape(s) + seq!['"']
}

/// The claims of a session token.
pub struct JwtClaims {
    pub aud: String,
    pub exp: u64,
    pub iat: u64,
    pub iss: String,
    pub sub: String,
    pub email: String,
    pub name: String,
    pub picture: String,
}

/// The JSON text of session claims with the given values: one object with the
/// fields `aud`, `exp`, `iat`, `iss`, `sub`, `email`, `name` and `picture`, each
/// once and in that order, no white space between tokens.
pub open spec fn claims_text(
    aud: Seq<char>,
    exp: u64,
    iat: u64,
    iss: Seq<char>,
    sub: Seq<char>,
    email: Seq<char>,
    name: Seq<char>,
    picture: Seq<char>,
) -> Seq<char> {
    "{\"aud\":"@ + json_string(aud) + ",\"exp\":"@ + decimal(exp as nat) + ",\"iat\":"@
        + decimal(iat as nat) + ",\"iss\":"@ + json_string(iss) + ",\"sub\":"@ + json_string(sub)
        + ",\"email\":"@ + json_string(email) + ",\"name\":"@ + json_string(name)
        + ",\"picture\":"@ + json_string(picture) + "}"@
}

/// The text value of field `key` in the claims text with the given values: the
/// value of a text field, `None` for the number fields and for other keys.
pub open spec fn claims_text_field(
    key: Seq<char>,
    aud: Seq<char>,
    iss: Seq<char>,
    sub: Seq<char>,
    email: Seq<char>,
    name: Seq<char>,
    picture: Seq<char>,
) -> Option<Seq<char>> {
    if key == "aud"@ {
        Some(aud)
    } else if key == "iss"@ {
        Some(iss)
    } else if key == "sub"@ {
        Some(sub)
    } else if key == "email"@ {
        Some(email)
    } else if key == "name"@ {
        Some(name)
    } else if key == "picture"@ {
        Some(picture)
    } else {
        None
    }
}

/// The JSON text of the claims.
pub open spec fn claims_json(c: JwtClaims) -> Seq<char> {
    claims_text(c.aud@, c.exp, c.iat, c.iss@, c.sub@, c.email@, c.name@, c.picture@)
}

fn push_text(out: &mut Vec<char>, s: &str)
    ensures
        final(out)@ == old(out)@ + s@,
{
    let v = chars_of(s);
    let mut i: usize = 0;
    while i < v.len()
        invariant
            v@ == s@,
            i <= v.len(),
            out@ == old(out)@ + v@.take(i as int),
        decreases v.len() - i,
    {
        out.push(v[i]);
        assert(v@.take(i + 1) == v@.take(i as int).push(v@[i as int]));
        i = i + 1;
    }
    assert(v@.take(v.len() as int) == v@);
}

fn hex_char(d: u32) -> (r: char)
    requires
        d < 16,
    ensures
        r == hex_digit(d as nat),
{
    if d < 10 {
        ((48 + d) as u8) as char
    } else {
        ((87 + d) as u8) as char
    }
}

fn push_escaped(out: &mut Vec<char>, c: char)
    ensures
        final(out)@ == old(out)@ + escape_char(c),
{
    if c == '"' {
        out.push('\\');
        out.push('"');
    } else if c == '\\' {
        out.push('\\');
        out.push('\\');
    } else if c == '\u{8}' {
        out.push('\\');
        out.push('b');
    } else if c == '\t' {
        out.push('\\');
        out.push('t');
    } else if c == '\n' {
        out.push('\\');
        out.push('n');
    } else if c == '\u{c}' {
        out.push('\\');
        out.push('f');
    } else if c == '\r' {
        out.push('\\');
        out.push('r');
    } else if (c as u32) < 32 {
        let b: u32 = c as u32;
        out.push('\\');
        out.push('u');
        out.push('0');
        out.push('0');
        out.push(hex_char(b / 16));
        out.push(hex_char(b % 16));
    } else {
        out.push(c);
    }
}

fn push_json_string(out: &mut Vec<char>, s: &str)
    ensures
        final(out)@ == old(out)@ + json_string(s@),
{
    let v = chars_of(s);
    out.push('"');
    let ghost start = out@;
    let mut i: usize = 0;
    while i < v.len()
        invariant
            v@ == s@,
            i <= v.len(),
            out@ == start + json_escape(v@.take(i as int)),
        decreases v.len() - i,
    {
        assert(v@.take(i + 1).drop_last() == v@.take(i as int));
        push_escaped(out, v[i]);
        i = i + 1;
    }
    assert(v@.take(v.len() as int) == v@);
    out.push('"');
}

impl JwtClaims {
    /// The JSON text of the claims.
    pub fn to_json(&self) -> (r: String)
        ensures
            r@ == claims_json(*self),
    {
        let mut out: Vec<char> = Vec::new();
        push_text(&mut out, "{\"aud\":");
        push_json_string(&mut out, self.aud.as_str());
        push_text(&mut out, ",\"exp\":");
        push_text(&mut out, decimal_text(self.exp).as_str());
        push_text(&mut out, ",\"iat\":");
        push_text(&mut out, decimal_text(self.iat).as_str());
        push_text(&mut out, ",\"iss\":");
        push_json_string(&mut out, self.iss.as_str());
        push_text(&mut out, ",\"sub\":");
        push_json_string(&mut out, self.sub.as_str());
        push_text(&mut out, ",\"email\":");
        push_json_string(&mut out, self.email.as_str());
        push_text(&mut out, ",\"name\":");
        push_json_string(&mut out, self.name.as_str());
        push_text(&mut out, ",\"picture\":");
        push_json_string(&mut out, self.picture.as_str());
        push_text(&mut out, "}");
        string_of(&out)
    }

    /// The claims that a valid token carries, once its address is validated.
    pub fn into_auth_claims(self) -> (r: Result<AuthClaims, DomainError>)
        ensures
            match r {
                Ok(c) => {
                    &&& valid_email(self.email@)
                    &&& c.email@ == self.email@
                    &&& c.name == self.name
                    &&& c.picture == self.picture
                },
                Err(e) => !valid_email(self.email@) && e == DomainError::InvalidEmail(self.email),
            },
    {
        let JwtClaims { email, name, picture, .. } = self;
        let email = Email::new(email)?;
        Ok(AuthClaims { email: email.to_string(), name, picture })
    }
}

// ---------------------------------------------------------------------------
// The identity service
// ---------------------------------------------------------------------------

/// The error for a token that could not be produced.
pub fn jwt_encode_error() -> (r: DomainError)
    ensures
        r@ == (DomainErrorKind::Unauthorized, "Falha ao gerar token de autenticação"@),
{
    DomainError::Unauthorized(owned("Falha ao gerar token de autenticação"))
}

/// The error for a token that was refused.
pub fn jwt_decode_error() -> (r: DomainError)
    ensures
        r@ == (DomainErrorKind::Unauthorized, "Token de autenticação inválido ou expirado"@),
{
    DomainError::Unauthorized(owned("Token de autenticação inválido ou expirado"))
}

/// Session tokens: HS256 JSON Web Tokens with a fixed audience and issuer, valid
/// for a number of hours, accepted up to some seconds after they expire.
pub struct JwtIdentityService {
    secret: String,
    audience: String,
    issuer: String,
    expires_in_hours: i64,
    leeway_seconds: u64,
}

/// The settings of a [`JwtIdentityService`].
pub struct JwtSettings {
    pub secret: Seq<char>,
    pub audience: Seq<char>,
    pub issuer: Seq<char>,
    pub expires_in_hours: i64,
    pub leeway_seconds: u64,
}

impl JwtIdentityService {
    /// Tokens live between zero and a million hours, so that an expiry always fits
    /// in a timestamp.
    #[verifier::type_invariant]
    spec fn lifetime_in_range(self) -> bool {
        0 <= self.expires_in_hours <= 1_000_000
    }
}

impl View for JwtIdentityService {
    type V = JwtSettings;

    closed spec fn view(&self) -> JwtSettings {
        JwtSettings {
            secret: self.secret@,
            audience: self.audience@,
            issuer: self.issuer@,
            expires_in_hours: self.expires_in_hours,
            leeway_seconds: self.leeway_seconds,
        }
    }
}

/// The claims text of a token for `identity`, issued at `iat` and expiring at
/// `exp` (seconds since the Unix epoch), by a service with settings `s`.
pub open spec fn identity_claims_json(s: JwtSettings, identity: AuthIdentity, iat: u64, exp: u64) -> Seq<
    char,
> {
    claims_text(
        s.audience,
        exp,
        iat,
        s.issuer,
        identity.sub@,
        identity.email@,
        identity.name@,
        identity.picture@,
    )
}

/// The claims text of a token for `identity` issued at `iat` by a service with
/// settings `s`: it expires `s.expires_in_hours` hours later.
pub open spec fn token_claims_at(s: JwtSettings, identity: AuthIdentity, iat: i64) -> Seq<char> {
    identity_claims_json(s, identity, iat as u64, (iat + s.expires_in_hours * 3600) as u64)
}

/// A token issued at `now` by a service with settings `s` has an expiry that fits
/// in a timestamp: the lifetime in seconds and the expiry both fit in an `i64`.
pub open spec fn expiry_fits(s: JwtSettings, now: i64) -> bool {
    &&& i64::MIN <= s.expires_in_hours * 3600 <= i64::MAX
    &&& i64::MIN <= now + s.expires_in_hours * 3600 <= i64::MAX
}

/// The claims that the JSON text `p` carries are `c`: same address, name and
/// picture, and the address is valid.
pub open spec fn claims_carried(p: Seq<char>, c: AuthClaims) -> bool {
    &&& json_object_text(p, "email"@) == Some(c.email@)
    &&& json_object_text(p, "name"@) == Some(c.name@)
    &&& json_object_text(p, "picture"@) == Some(c.picture@)
    &&& valid_email(c.email@)
}

impl JwtIdentityService {
    /// A service signing with `secret`, for audience and issuer `company-compass`,
    /// whose tokens last 24 hours and are accepted up to 60 seconds after expiry.
    pub fn new(secret: String) -> (r: JwtIdentityService)
        ensures
            r@ == (JwtSettings {
                secret: secret@,
                audience: "company-compass"@,
                issuer: "company-compass"@,
                expires_in_hours: 24,
                leeway_seconds: 60,
            }),
    {
        JwtIdentityService {
            secret,
            audience: owned("company-compass"),
            issuer: owned("company-compass"),
            expires_in_hours: 24,
            leeway_seconds: 60,
        }
    }

    /// The claims of a token for `identity` issued at `now`; `None` when its expiry
    /// would not fit in a timestamp.
    fn claims_for(&self, identity: &AuthIdentity, now: i64) -> (r: Option<JwtClaims>)
        ensures
            r is Some <==> expiry_fits(self@, now),
            r matches Some(c) ==> claims_json(c) == token_claims_at(self@, *identity, now),
    {
        let lifetime = match self.expires_in_hours.checked_mul(3600) {
            Some(l) => l,
            None => return None,
        };
        let expiry = match now.checked_add(lifetime) {
            Some(e) => e,
            None => return None,
        };
        Some(
            JwtClaims {
                aud: self.audience.clone(),
                exp: expiry as u64,
                iat: now as u64,
                iss: self.issuer.clone(),
                sub: identity.sub.clone(),
                email: identity.email.to_string(),
                name: identity.name.clone(),
                picture: identity.picture.clone(),
            },
        )
    }
}

impl JwtIdentityService {
    /// The session token for `identity` issued at `now` (seconds since the Unix
    /// epoch): its claims text is that of `identity` with `iat` equal to `now` and
    /// `exp` the configured number of hours later, signed with this service's
    /// secret. `None` exactly when that expiry would not fit in a timestamp.
    pub fn token_issued_at(&self, identity: &AuthIdentity, now: i64) -> (r: Option<String>)
        ensures
            r is Some <==> expiry_fits(self@, now),
            r matches Some(t) ==> {
                &&& t@ == hs256_jwt(token_claims_at(self@, *identity, now), self@.secret)
                &&& hs256_verifies(t@, self@.secret)
                &&& jwt_claims_text(t@) == Some(token_claims_at(self@, *identity, now))
                &&& jwt_claims_text(t@) == Some(
                    claims_text(
                        self@.audience,
                        (now + self@.expires_in_hours * 3600) as u64,
                        now as u64,
                        self@.issuer,
                        identity.sub@,
                        identity.email@,
                        identity.name@,
                        identity.picture@,
                    ),
                )
                &&& forall|i: int| 0 <= i < t@.len() ==> token_char(#[trigger] t@[i])
            },
    {
        let claims = match self.claims_for(identity, now) {
            Some(c) => c,
            None => return None,
        };
        let json = claims.to_json();
        match hs256_sign(json.as_str(), self.secret.as_str()) {
            Some(t) => {
                proof {
                    reveal_strlit("{\"aud\":");
                    reveal_strlit("}");
                    let j = token_claims_at(self@, *identity, now);
                    assert(j[0] == '{');
                    assert(j.last() == '}');
                    assert(t@ == hs256_jwt(j, self@.secret));
                    assert(jwt_claims_text(t@) == Some(j));
                }
                Some(t)
            },
            None => None,
        }
    }
}

impl IdentityService for JwtIdentityService {
    /// A token this service issues for `identity` is the HS256 token, signed with
    /// its secret, of that identity's claims, issued at some moment `iat` and
    /// expiring the configured number of hours later; its claims part holds that
    /// claims text, and it is written in base64url segments joined by dots.
    open spec fn issues(&self, identity: AuthIdentity, token: Seq<char>) -> bool {
        exists|iat: i64|
            #![trigger token_claims_at(self@, identity, iat)]
            token == hs256_jwt(token_claims_at(self@, identity, iat), self@.secret)
                && hs256_verifies(token, self@.secret)
                && jwt_claims_text(token) == Some(token_claims_at(self@, identity, iat))
                && forall|i: int| 0 <= i < token.len() ==> token_char(#[trigger] token[i])
    }

    /// This service refuses to issue a token only with its encoding error.
    open spec fn may_refuse(&self, identity: AuthIdentity, error: DomainError) -> bool {
        error@ == (DomainErrorKind::Unauthorized, "Falha ao gerar token de autenticação"@)
    }

    /// This service accepts a token as carrying `claims` only when the token's
    /// signature verifies under its secret, its claims text names this service's
    /// audience and issuer, and that text names the same address, name and
    /// picture, with a valid address.
    open spec fn accepts(&self, token: Seq<char>, claims: AuthClaims) -> bool {
        &&& hs256_verifies(token, self@.secret)
        &&& exists|p: Seq<char>|
            jwt_claims_text(token) == Some(p) && #[trigger] claims_carried(p, claims)
                && json_object_text(p, "aud"@) == Some(self@.audience) && json_object_text(
                p,
                "iss"@,
            ) == Some(self@.issuer)
    }

    /// This service refuses a token with its decoding error, or, for a token
    /// whose signature verifies and whose claims name this service's audience and
    /// issuer, with an invalid-address error.
    open spec fn rejects(&self, token: Seq<char>, error: DomainError) -> bool {
        ||| error@ == (DomainErrorKind::Unauthorized, "Token de autenticação inválido ou expirado"@)
        ||| (error.kind() == DomainErrorKind::InvalidEmail && hs256_verifies(token, self@.secret)
            && exists|p: Seq<char>|
            jwt_claims_text(token) == Some(p) && json_object_text(p, "aud"@) == Some(
                self@.audience,
            ) && #[trigger] json_object_text(p, "iss"@) == Some(self@.issuer))
    }

    fn generate_token(&self, identity: &AuthIdentity) -> (r: Result<String, DomainError>)
        ensures
            r is Ok,
    {
        proof {
            use_type_invariant(self);
        }
        let now = now_unix_seconds();
        match self.token_issued_at(identity, now) {
            Some(t) => Ok(t),
            None => Err(jwt_encode_error()),
        }
    }

    fn validate_token(&self, token: &str) -> (r: Result<AuthClaims, DomainError>)
        ensures
            r is Ok ==> hs256_verifies(token@, self@.secret),
            forall|identity: AuthIdentity|
                #[trigger] self.issues(identity, token@) && r is Ok ==> {
                    &&& r->Ok_0.email@ == identity.email@
                    &&& r->Ok_0.name@ == identity.name@
                    &&& r->Ok_0.picture@ == identity.picture@
                },
            !hs256_verifies(token@, self@.secret) ==> (r matches Err(e) && e@ == (
                DomainErrorKind::Unauthorized,
                "Token de autenticação inválido ou expirado"@,
            )),
            r matches Err(e) ==> e@ == (
                DomainErrorKind::Unauthorized,
                "Token de autenticação inválido ou expirado"@,
            ) || (e.kind() == DomainErrorKind::InvalidEmail && hs256_verifies(
                token@,
                self@.secret,
            ) && exists|p: Seq<char>|
                jwt_claims_text(token@) == Some(p) && json_object_text(p, "aud"@) == Some(
                    self@.audience,
                ) && #[trigger] json_object_text(p, "iss"@) == Some(self@.issuer)),
    {
        let payload = match hs256_decode(
            token,
            self.secret.as_str(),
            self.audience.as_str(),
            self.issuer.as_str(),
            self.leeway_seconds,
        ) {
            Some(p) => p,
            None => return Err(jwt_decode_error()),
        };
        let r = claims_from_payload(payload.as_str());
        proof {
            assert forall|identity: AuthIdentity|
                #[trigger] self.issues(identity, token@) && r is Ok implies {
                    &&& r->Ok_0.email@ == identity.email@
                    &&& r->Ok_0.name@ == identity.name@
                    &&& r->Ok_0.picture@ == identity.picture@
                } by {
                let iat = choose|iat: i64|
                    #![trigger token_claims_at(self@, identity, iat)]
                    token@ == hs256_jwt(token_claims_at(self@, identity, iat), self@.secret)
                        && hs256_verifies(token@, self@.secret) && jwt_claims_text(token@) == Some(
                        token_claims_at(self@, identity, iat),
                    ) && forall|i: int|
                        0 <= i < token@.len() ==> token_char(#[trigger] token@[i]);
                let j = token_claims_at(self@, identity, iat);
                assert(j == payload@);
                assert(j == claims_text(
                    self@.audience,
                    (iat + self@.expires_in_hours * 3600) as u64,
                    iat as u64,
                    self@.issuer,
                    identity.sub@,
                    identity.email@,
                    identity.name@,
                    identity.picture@,
                ));
            }
        }
        r
    }
}

/// The claims text `p` holds every field of the session claims: the audience,
/// issuer, subject, address, name and picture as text, the expiry and issue times
/// as unsigned integers.
pub open spec fn payload_complete(p: Seq<char>) -> bool {
    &&& json_object_text(p, "aud"@) is Some
    &&& json_object_u64(p, "exp"@) is Some
    &&& json_object_u64(p, "iat"@) is Some
    &&& json_object_text(p, "iss"@) is Some
    &&& json_object_text(p, "sub"@) is Some
    &&& json_object_text(p, "email"@) is Some
    &&& json_object_text(p, "name"@) is Some
    &&& json_object_text(p, "picture"@) is Some
}

/// The claims carried by the claims text `payload` of an accepted token. Refused
/// as an invalid token when a field is missing or of the wrong type, and as an
/// invalid address when the address is not a valid one. On the claims text that
/// this library writes, each field reads back as the value written. Fields are
/// read through `serde_json::Value`, so a field written twice counts with its
/// last value.
pub fn claims_from_payload(payload: &str) -> (r: Result<AuthClaims, DomainError>)
    ensures
        !payload_complete(payload@) ==> (r matches Err(e) && e@ == (
            DomainErrorKind::Unauthorized,
            "Token de autenticação inválido ou expirado"@,
        )),
        payload_complete(payload@) ==> {
            let email = json_object_text(payload@, "email"@)->Some_0;
            if valid_email(email) {
                r matches Ok(c) && claims_carried(payload@, c)
            } else {
                r matches Err(e) && e@ == (DomainErrorKind::InvalidEmail, email)
            }
        },
        forall|
            aud: Seq<char>,
            exp: u64,
            iat: u64,
            iss: Seq<char>,
            sub: Seq<char>,
            email: Seq<char>,
            name: Seq<char>,
            picture: Seq<char>,
        |
            #[trigger] claims_text(aud, exp, iat, iss, sub, email, name, picture) == payload@
                ==> {
                &&& payload_complete(payload@)
                &&& json_object_text(payload@, "aud"@) == Some(aud)
                &&& json_object_text(payload@, "iss"@) == Some(iss)
                &&& json_object_text(payload@, "email"@) == Some(email)
                &&& json_object_text(payload@, "name"@) == Some(name)
                &&& json_object_text(payload@, "picture"@) == Some(picture)
            },
{
    let p = payload;
    let aud = json_text_field(p, "aud");
    let exp = json_u64_field(p, "exp");
    let iat = json_u64_field(p, "iat");
    let iss = json_text_field(p, "iss");
    let sub = json_text_field(p, "sub");
    let email = json_text_field(p, "email");
    let name = json_text_field(p, "name");
    let picture = json_text_field(p, "picture");
    proof {
        reveal_strlit("aud");
        reveal_strlit("exp");
        reveal_strlit("iat");
        reveal_strlit("iss");
        reveal_strlit("sub");
        reveal_strlit("email");
        reveal_strlit("name");
        reveal_strlit("picture");
        assert("iss"@ != "aud"@) by { assert("iss"@[0] != "aud"@[0]); }
        assert("sub"@ != "aud"@) by { assert("sub"@[0] != "aud"@[0]); }
        assert("sub"@ != "iss"@) by { assert("sub"@[0] != "iss"@[0]); }
        assert("email"@ != "aud"@) by { assert("email"@.len() != "aud"@.len()); }
        assert("email"@ != "iss"@) by { assert("email"@.len() != "iss"@.len()); }
        assert("email"@ != "sub"@) by { assert("email"@.len() != "sub"@.len()); }
        assert("name"@ != "aud"@) by { assert("name"@.len() != "aud"@.len()); }
        assert("name"@ != "iss"@) by { assert("name"@.len() != "iss"@.len()); }
        assert("name"@ != "sub"@) by { assert("name"@.len() != "sub"@.len()); }
        assert("name"@ != "email"@) by { assert("name"@.len() != "email"@.len()); }
        assert("picture"@ != "aud"@) by { assert("picture"@.len() != "aud"@.len()); }
        assert("picture"@ != "iss"@) by { assert("picture"@.len() != "iss"@.len()); }
        assert("picture"@ != "sub"@) by { assert("picture"@.len() != "sub"@.len()); }
        assert("picture"@ != "email"@) by { assert("picture"@.len() != "email"@.len()); }
        assert("picture"@ != "name"@) by { assert("picture"@.len() != "name"@.len()); }
        assert("iat"@ != "exp"@) by { assert("iat"@[0] != "exp"@[0]); }
    }
    let (aud, exp, iat, iss, sub, email, name, picture) = match (
        aud,
        exp,
        iat,
        iss,
        sub,
        email,
        name,
        picture,
    ) {
        (
            Some(aud),
            Some(exp),
            Some(iat),
            Some(iss),
            Some(sub),
            Some(email),
            Some(name),
            Some(picture),
        ) => (aud, exp, iat, iss, sub, email, name, picture),
        _ => return Err(jwt_decode_error()),
    };
    let claims = JwtClaims { aud, exp, iat, iss, sub, email, name, picture };
    claims.into_auth_claims()
}

/// Every token that a service issues carries a valid signature under that
/// service's secret.
pub proof fn law_issued_tokens_verify(
    service: JwtIdentityService,
    identity: AuthIdentity,
    token: Seq<char>,
)
    requires
        service.issues(identity, token),
    ensures
        hs256_verifies(token, service@.secret),
{
}

/// A token that a service accepts carries a valid signature under that service's
/// secret, and names that service's audience and issuer.
pub proof fn law_accepted_tokens_are_signed_for_this_service(
    service: JwtIdentityService,
    token: Seq<char>,
    claims: AuthClaims,
)
    requires
        service.accepts(token, claims),
    ensures
        hs256_verifies(token, service@.secret),
        exists|p: Seq<char>|
            jwt_claims_text(token) == Some(p) && json_object_text(p, "aud"@) == Some(
                service@.audience,
            ) && #[trigger] json_object_text(p, "iss"@) == Some(service@.issuer),
{
}

/// What a service accepts of a token it issued is read from the claims text it
/// wrote into that token: when `token` was issued for `identity` and is accepted
/// as carrying `claims`, then `claims` are carried by the claims text of
/// `identity` for some moment of issue.
pub proof fn law_accepted_claims_come_from_issued_text(
    service: JwtIdentityService,
    identity: AuthIdentity,
    token: Seq<char>,
    claims: AuthClaims,
)
    requires
        service.issues(identity, token),
        service.accepts(token, claims),
    ensures
        exists|iat: i64| claims_carried(#[trigger] token_claims_at(service@, identity, iat), claims),
{
    let iat = choose|iat: i64|
        #![trigger token_claims_at(service@, identity, iat)]
        token == hs256_jwt(token_claims_at(service@, identity, iat), service@.secret)
            && jwt_claims_text(token) == Some(token_claims_at(service@, identity, iat));
    let p = choose|p: Seq<char>| jwt_claims_text(token) == Some(p) && #[trigger] claims_carried(p, claims);
    assert(p == token_claims_at(service@, identity, iat));
}

} // verus!
