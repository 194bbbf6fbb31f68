use vstd::prelude::*;

use crate::app_error::{AppError, AppErrorKind};
use crate::errors::DomainError;
use crate::entities::{opt_str_view, opt_view, AuthClaims, AuthIdentity};
use crate::jwt::{token_char, JwtIdentityService};
use crate::ports::{IdentityService, SessionCookieService};
use crate::session_cookie::{auth_cookie_text, AxumSessionCookieService};
use crate::text::{
    lemma_split_nonempty,
    ascii_lower_seq, chars_of, has_prefix, is_ws, owned, split_char, split_spec, starts_with,
    str_eq, strip_all_prefixes, to_ascii_lowercase, trim, trim_end_spec, trim_spec,
    trim_start_matches, trim_start_spec, count_char,
};

verus! {

// ---------------------------------------------------------------------------
// Request logging
// ---------------------------------------------------------------------------

/// The level at which a finished request with HTTP status `status` is logged.
pub open spec fn log_level_spec(status: u16) -> Seq<char> {
    if 200 <= status <= 399 {
        "INFO"@
    } else if 400 <= status <= 499 {
        "WARN"@
    } else if 500 <= status <= 599 {
        "ERROR"@
    } else {
        "DEBUG"@
    }
}

/// The level at which a finished request with HTTP status `status` is logged:
/// success and redirection `INFO`, client errors `WARN`, server errors `ERROR`,
/// anything else `DEBUG`.
pub fn log_level(status: u16) -> (r: &'static str)
    ensures
        r@ == log_level_spec(status),
{
    if 200 <= status && status <= 299 {
        "INFO"
    } else if 300 <= status && status <= 399 {
        "INFO"
    } else if 400 <= status && status <= 499 {
        "WARN"
    } else if 500 <= status && status <= 599 {
        "ERROR"
    } else {
        "DEBUG"
    }
}

/// Every error answer of the application is logged as a warning.
pub proof fn law_error_answers_log_as_warnings(e: AppError)
    ensures
        log_level_spec(e.kind().status()) == "WARN"@,
{
}

// ---------------------------------------------------------------------------
// The session cookie in a request
// ---------------------------------------------------------------------------

/// The name and separator that start the session cookie in a `Cookie` header.
pub open spec fn token_prefix() -> Seq<char> {
    "token="@
}

/// The session token among the cookies `pieces`: the first one that, trimmed,
/// starts with `token=`, with every leading `token=` removed.
pub open spec fn token_in_cookies(pieces: Seq<Seq<char>>) -> Option<Seq<char>>
    decreases pieces.len(),
{
    if pieces.len() == 0 {
        None
    } else {
        let t = trim_spec(pieces[0]);
        if has_prefix(t, token_prefix()) {
            Some(strip_all_prefixes(t, token_prefix()))
        } else {
            token_in_cookies(pieces.drop_first())
        }
    }
}

/// The session token in the `Cookie` header value `header`.
pub open spec fn cookie_token(header: Seq<char>) -> Option<Seq<char>> {
    token_in_cookies(split_spec(header, ';'))
}

/// The session token in the `Cookie` header value `cookie_header`, if any: the
/// first `;`-separated cookie that, trimmed, starts with `token=`.
pub fn extract_token_cookie(cookie_header: &str) -> (r: Option<String>)
    ensures
        match r {
            Some(t) => cookie_token(cookie_header@) == Some(t@),
            None => cookie_token(cookie_header@) is None,
        },
{
    let pieces = split_char(cookie_header, ';');
    let ghost sp = split_spec(cookie_header@, ';');
    let mut i: usize = 0;
    assert(sp.skip(0) == sp);
    while i < pieces.len()
        invariant
            pieces@.len() == sp.len(),
            forall|j: int| 0 <= j < pieces@.len() ==> #[trigger] pieces@[j]@ == sp[j],
            i <= pieces.len(),
            cookie_token(cookie_header@) == token_in_cookies(sp.skip(i as int)),
        decreases pieces.len() - i,
    {
        let cookie = trim(pieces[i].as_str());
        assert(sp.skip(i as int)[0] == sp[i as int]);
        if starts_with(cookie.as_str(), "token=") {
            return Some(trim_start_matches(cookie.as_str(), "token="));
        }
        assert(sp.skip(i as int).drop_first() == sp.skip(i + 1));
        i = i + 1;
    }
    None
}

/// What checking the session of a request whose `Cookie` header is `header`
/// may answer with `service`: the claims that the service accepts for the
/// header's session token; or the authentication error, when there is no header,
/// no session token in it, or the service refuses the token.
pub open spec fn session_checked<I: IdentityService>(
    service: I,
    header: Option<Seq<char>>,
    r: Result<AuthClaims, AppError>,
) -> bool {
    match r {
        Ok(c) => header matches Some(h) && cookie_token(h) matches Some(t) && service.accepts(t, c),
        Err(e) => {
            &&& e@ == (AppErrorKind::AuthenticationError, "Token inválido ou expirado"@)
            &&& match header {
                None => true,
                Some(h) => match cookie_token(h) {
                    None => true,
                    Some(t) => exists|x: DomainError| #[trigger] service.rejects(t, x),
                },
            }
        },
    }
}

/// A request whose `Cookie` header carries a session token that the service
/// would not refuse is let through, with claims the service accepts for that
/// token; a request is refused only when it has no session token or the service
/// refuses it.
pub proof fn law_only_refused_tokens_are_turned_away<I: IdentityService>(
    service: I,
    header: Seq<char>,
    token: Seq<char>,
    r: Result<AuthClaims, AppError>,
)
    requires
        session_checked(service, Some(header), r),
        cookie_token(header) == Some(token),
        forall|x: DomainError| !#[trigger] service.rejects(token, x),
    ensures
        r matches Ok(c) && service.accepts(token, c),
{
}

/// The outcome of checking the session of a request whose `Cookie` header is
/// `cookie_header`: the claims of its session token, or an authentication error.
pub fn authenticate<I: IdentityService>(identity_service: &I, cookie_header: Option<&str>) -> (r:
    Result<AuthClaims, AppError>)
    ensures
        session_checked(*identity_service, opt_str_view(cookie_header), r),
        match r {
            Ok(c) => cookie_header matches Some(h) && cookie_token(h@) matches Some(t)
                && identity_service.accepts(t, c),
            Err(e) => e@ == (AppErrorKind::AuthenticationError, "Token inválido ou expirado"@),
        },
        cookie_header is None ==> r is Err,
{
    let token = match cookie_header {
        Some(h) => extract_token_cookie(h),
        None => None,
    };
    let validation = match token {
        Some(t) => Some(identity_service.validate_token(t.as_str())),
        None => None,
    };
    let r = session_outcome(validation);
    proof {
        if let Some(h) = cookie_header {
            assert(opt_str_view(cookie_header) == Some(h@));
            if r is Err {
                match cookie_token(h@) {
                    None => {},
                    Some(t) => {
                        let tt = token->Some_0;
                        assert(tt@ == t);
                        let x = validation->Some_0->Err_0;
                        assert(identity_service.rejects(t, x));
                        assert(exists|y: DomainError| #[trigger] identity_service.rejects(t, y));
                    },
                }
            }
        }
        assert(session_checked(*identity_service, opt_str_view(cookie_header), r));
    }
    r
}

/// The outcome of checking a request's session once the identity service
/// answered `validation` for its session token (`None`: the request has none):
/// the claims the service accepted, or an authentication error for a missing or
/// refused token.
pub fn session_outcome(validation: Option<Result<AuthClaims, DomainError>>) -> (r:
    Result<AuthClaims, AppError>)
    ensures
        match validation {
            Some(Ok(c)) => r == Ok::<AuthClaims, AppError>(c),
            _ => r matches Err(e) && e@ == (
                AppErrorKind::AuthenticationError,
                "Token inválido ou expirado"@,
            ),
        },
{
    match validation {
        Some(Ok(claims)) => Ok(claims),
        _ => Err(AppError::AuthenticationError(owned("Token inválido ou expirado"))),
    }
}

/// The `name=value` pair of a `Set-Cookie` value: what the browser sends back.
pub open spec fn cookie_pair(set_cookie: Seq<char>) -> Seq<char> {
    split_spec(set_cookie, ';')[0]
}

proof fn lemma_split_no_sep(s: Seq<char>, sep: char)
    requires
        forall|j: int| 0 <= j < s.len() ==> s[j] != sep,
    ensures
        split_spec(s, sep) == seq![s],
    decreases s.len(),
{
    if s.len() > 0 {
        lemma_split_no_sep(s.drop_last(), sep);
        assert(s.drop_last().push(s.last()) == s);
    } else {
        assert(s == Seq::<char>::empty());
    }
}

proof fn lemma_split_len(s: Seq<char>, sep: char)
    ensures
        split_spec(s, sep).len() == count_char(s, sep) + 1,
    decreases s.len(),
{
    if s.len() > 0 {
        lemma_split_len(s.drop_last(), sep);
    }
}

proof fn lemma_count_pos(s: Seq<char>, c: char, k: int)
    requires
        0 <= k < s.len(),
        s[k] == c,
    ensures
        count_char(s, c) >= 1,
    decreases s.len(),
{
    if k < s.len() - 1 {
        lemma_count_pos(s.drop_last(), c, k);
    }
}

/// The first piece of a text split at `sep` is what comes before the first `sep`.
proof fn lemma_split_first(s: Seq<char>, sep: char, k: int)
    requires
        0 <= k < s.len(),
        s[k] == sep,
        forall|j: int| 0 <= j < k ==> s[j] != sep,
    ensures
        split_spec(s, sep)[0] == s.take(k),
    decreases s.len(),
{
    if k == s.len() - 1 {
        lemma_split_no_sep(s.drop_last(), sep);
        assert(s.drop_last() == s.take(k));
    } else {
        let t = s.drop_last();
        lemma_split_first(t, sep, k);
        lemma_split_len(t, sep);
        lemma_count_pos(t, sep, k);
        assert(t.take(k) == s.take(k));
    }
}

/// A value that a session cookie can carry and give back: no `;` in it, no
/// trailing white space, and not itself starting with `token=`.
pub open spec fn cookie_value_ok(token: Seq<char>) -> bool {
    &&& forall|i: int| 0 <= i < token.len() ==> #[trigger] token[i] != ';'
    &&& (token.len() > 0 ==> !is_ws(token.last()))
    &&& !has_prefix(token, token_prefix())
}

/// Every token this library issues can be carried by a session cookie.
proof fn lemma_token_chars_fit_a_cookie(token: Seq<char>)
    requires
        forall|i: int| 0 <= i < token.len() ==> token_char(#[trigger] token[i]),
    ensures
        cookie_value_ok(token),
{
    reveal_strlit("token=");
    assert forall|i: int| 0 <= i < token.len() implies #[trigger] token[i] != ';' by {
        assert(token_char(token[i]));
    }
    if token.len() > 0 {
        assert(token_char(token[token.len() - 1]));
    }
    if has_prefix(token, token_prefix()) {
        assert(token[5] == token_prefix()[5]);
        assert(token_char(token[5]));
    }
}

proof fn lemma_split_concat(a: Seq<char>, b: Seq<char>, sep: char)
    ensures
        split_spec(a + seq![sep] + b, sep) == split_spec(a, sep) + split_spec(b, sep),
    decreases b.len(),
{
    let s = a + seq![sep] + b;
    if b.len() == 0 {
        assert(s.drop_last() == a);
        assert(split_spec(b, sep) == seq![Seq::<char>::empty()]);
        assert(split_spec(a, sep).push(Seq::<char>::empty()) == split_spec(a, sep) + seq![
            Seq::<char>::empty(),
        ]);
    } else {
        let b1 = b.drop_last();
        lemma_split_concat(a, b1, sep);
        assert(s.drop_last() == a + seq![sep] + b1);
        assert(s.last() == b.last());
        lemma_split_nonempty(b1, sep);
        lemma_split_nonempty(a, sep);
        let sa = split_spec(a, sep);
        let sb1 = split_spec(b1, sep);
        let rest = sa + sb1;
        if b.last() == sep {
            assert(rest.push(Seq::<char>::empty()) == sa + sb1.push(Seq::<char>::empty()));
        } else {
            assert(rest.last() == sb1.last());
            assert(rest.update(rest.len() - 1, rest.last().push(b.last())) == sa + sb1.update(
                sb1.len() - 1,
                sb1.last().push(b.last()),
            ));
        }
    }
}

proof fn lemma_token_in_cookies_concat(a: Seq<Seq<char>>, b: Seq<Seq<char>>)
    requires
        token_in_cookies(a) is None,
    ensures
        token_in_cookies(a + b) == token_in_cookies(b),
    decreases a.len(),
{
    if a.len() == 0 {
        assert(a + b == b);
    } else {
        assert((a + b)[0] == a[0]);
        assert((a + b).drop_first() == a.drop_first() + b);
        lemma_token_in_cookies_concat(a.drop_first(), b);
    }
}

/// What the pair `token=` + `token` reads back as, once trimmed.
proof fn lemma_pair_reads_back(token: Seq<char>)
    requires
        cookie_value_ok(token),
    ensures
        trim_spec(token_prefix() + token) == token_prefix() + token,
        has_prefix(token_prefix() + token, token_prefix()),
        strip_all_prefixes(token_prefix() + token, token_prefix()) == token,
        forall|j: int|
            0 <= j < (token_prefix() + token).len() ==> #[trigger] (token_prefix() + token)[j]
                != ';',
{
    reveal_strlit("token=");
    let pair = token_prefix() + token;
    assert forall|j: int| 0 <= j < pair.len() implies #[trigger] pair[j] != ';' by {
        if j >= 6 {
            assert(pair[j] == token[j - 6]);
        }
    }
    assert(!is_ws(pair[0]));
    assert(trim_start_spec(pair) == pair);
    if token.len() > 0 {
        assert(pair.last() == token.last());
    }
    assert(!is_ws(pair.last()));
    assert(trim_end_spec(pair) == pair);
    assert(pair.take(6) == token_prefix());
    assert(pair.skip(6) == token);
    assert(strip_all_prefixes(token, token_prefix()) == token);
}

/// A session cookie set for a token that a cookie can carry gives that token
/// back: the `name=value` pair of the `Set-Cookie` value is `token=` and the
/// token, and reading the session token from that pair, or from the whole
/// `Set-Cookie` text, gives the token.
pub proof fn law_session_cookie_round_trip(domain: Seq<char>, token: Seq<char>)
    requires
        cookie_value_ok(token),
    ensures
        cookie_pair(auth_cookie_text("token"@, token, "/"@, domain)) == token_prefix() + token,
        cookie_token(token_prefix() + token) == Some(token),
        cookie_token(auth_cookie_text("token"@, token, "/"@, domain)) == Some(token),
{
    reveal_strlit("token");
    reveal_strlit("token=");
    reveal_strlit("=");
    reveal_strlit("; Path=");
    let sc = auth_cookie_text("token"@, token, "/"@, domain);
    let pair = token_prefix() + token;
    lemma_pair_reads_back(token);
    assert(sc == pair + ("; Path="@ + "/"@ + "; Domain="@ + domain
        + "; HttpOnly; Secure; SameSite=Lax"@));
    assert(sc[pair.len() as int] == ';');
    lemma_split_first(sc, ';', pair.len() as int);
    assert(sc.take(pair.len() as int) == pair);
    lemma_split_nonempty(sc, ';');
    assert(token_in_cookies(split_spec(sc, ';')) == Some(token));
    lemma_split_no_sep(pair, ';');
    assert(token_in_cookies(seq![pair]) == Some(token));
}

/// A `Cookie` header that carries other cookies first, none of them the session
/// cookie, and then `; token=` and a token that a cookie can carry gives back
/// that token.
pub proof fn law_session_cookie_after_other_cookies(before: Seq<char>, token: Seq<char>)
    requires
        cookie_token(before) is None,
        cookie_value_ok(token),
    ensures
        cookie_token(before + "; "@ + token_prefix() + token) == Some(token),
{
    reveal_strlit("; ");
    reveal_strlit("token=");
    let pair = token_prefix() + token;
    let tail = seq![' '] + pair;
    let h = before + "; "@ + token_prefix() + token;
    assert(h == before + seq![';'] + tail);
    lemma_split_concat(before, tail, ';');
    lemma_pair_reads_back(token);
    assert forall|j: int| 0 <= j < tail.len() implies tail[j] != ';' by {
        if j >= 1 {
            assert(tail[j] == pair[j - 1]);
        }
    }
    lemma_split_no_sep(tail, ';');
    assert(is_ws(tail[0]));
    assert(tail.drop_first() == pair);
    assert(trim_start_spec(pair) == pair) by {
        assert(!is_ws(pair[0]));
    }
    assert(trim_start_spec(tail) == pair);
    assert(trim_spec(tail) == pair) by {
        assert(trim_spec(pair) == pair);
    }
    assert(token_in_cookies(seq![tail]) == Some(token));
    lemma_token_in_cookies_concat(split_spec(before, ';'), seq![tail]);
}

/// A session token that the JWT service issued, set as the session cookie, comes
/// back from the browser's `Cookie` header as that same token, whether the
/// header holds just its pair or other cookies before it.
pub proof fn law_issued_token_survives_the_cookie(
    service: JwtIdentityService,
    cookies: AxumSessionCookieService,
    identity: AuthIdentity,
    token: Seq<char>,
    before: Seq<char>,
)
    requires
        service.issues(identity, token),
        cookies@.0 == "token"@,
        cookies@.2 == "/"@,
        cookie_token(before) is None,
    ensures
        cookie_token(cookie_pair(cookies.auth_cookie_spec(token))) == Some(token),
        cookie_token(before + "; "@ + cookie_pair(cookies.auth_cookie_spec(token))) == Some(token),
{
    lemma_token_chars_fit_a_cookie(token);
    law_session_cookie_round_trip(cookies@.1, token);
    law_session_cookie_after_other_cookies(before, token);
    assert(before + "; "@ + (token_prefix() + token) == before + "; "@ + token_prefix() + token);
}

// ---------------------------------------------------------------------------
// Configuration values
// ---------------------------------------------------------------------------

/// A flag's text means "on" when, trimmed and ASCII lower-cased, it is one of
/// `1`, `true`, `yes`, `on`.
pub open spec fn flag_on(value: Seq<char>) -> bool {
    let t = ascii_lower_seq(trim_spec(value));
    t == "1"@ || t == "true"@ || t == "yes"@ || t == "on"@
}

/// The value of a flag whose text is `value`, if it is set: `default` when it is
/// not, otherwise whether the text means "on".
pub open spec fn flag_setting(value: Option<Seq<char>>, default: bool) -> bool {
    match value {
        Some(v) => flag_on(v),
        None => default,
    }
}

/// The value of a flag: `default` when it is not set, otherwise whether its text
/// means "on".
pub fn env_flag_value(value: Option<&str>, default: bool) -> (r: bool)
    ensures
        r == flag_setting(opt_str_view(value), default),
{
    match value {
        Some(v) => {
            let trimmed = trim(v);
            let t = to_ascii_lowercase(trimmed.as_str());
            str_eq(t.as_str(), "1") || str_eq(t.as_str(), "true") || str_eq(t.as_str(), "yes")
                || str_eq(t.as_str(), "on")
        },
        None => default,
    }
}

/// The allowed e-mail domains in the comma-separated list `pieces`: each piece
/// trimmed, empty ones dropped, ASCII lower-cased.
pub open spec fn domains_of(pieces: Seq<Seq<char>>) -> Seq<Seq<char>>
    decreases pieces.len(),
{
    if pieces.len() == 0 {
        Seq::empty()
    } else {
        let rest = domains_of(pieces.drop_last());
        let t = trim_spec(pieces.last());
        if t.len() == 0 {
            rest
        } else {
            rest.push(ascii_lower_seq(t))
        }
    }
}

/// The allowed e-mail domains listed, comma-separated, in `raw`.
pub fn parse_allowed_domains(raw: &str) -> (r: Vec<String>)
    ensures
        r@.len() == domains_of(split_spec(raw@, ',')).len(),
        forall|i: int| 0 <= i < r@.len() ==> #[trigger] r@[i]@ == domains_of(split_spec(raw@, ','))[i],
{
    let pieces = split_char(raw, ',');
    let ghost sp = split_spec(raw@, ',');
    let mut out: Vec<String> = Vec::new();
    let mut i: usize = 0;
    while i < pieces.len()
        invariant
            pieces@.len() == sp.len(),
            forall|j: int| 0 <= j < pieces@.len() ==> #[trigger] pieces@[j]@ == sp[j],
            i <= pieces.len(),
            out@.len() == domains_of(sp.take(i as int)).len(),
            forall|j: int| 0 <= j < out@.len() ==> #[trigger] out@[j]@ == domains_of(sp.take(i as int))[j],
        decreases pieces.len() - i,
    {
        assert(sp.take(i + 1).drop_last() == sp.take(i as int));
        let t = trim(pieces[i].as_str());
        let tv = chars_of(t.as_str());
        if tv.len() > 0 {
            out.push(to_ascii_lowercase(t.as_str()));
        }
        i = i + 1;
    }
    assert(sp.take(pieces.len() as int) == sp);
    out
}

/// Google OAuth is on when both its client identifier and its secret are set,
/// that is, not blank.
pub fn google_oauth_enabled(client_id: &str, client_secret: &str) -> (r: bool)
    ensures
        r == (trim_spec(client_id@).len() > 0 && trim_spec(client_secret@).len() > 0),
{
    let a = chars_of(trim(client_id).as_str());
    let b = chars_of(trim(client_secret).as_str());
    a.len() > 0 && b.len() > 0
}

/// The port the server listens on when none is configured.
pub open spec fn default_port() -> u16 {
    5555
}

/// `c` is an ASCII decimal digit.
pub open spec fn is_digit(c: char) -> bool {
    '0' <= c && c <= '9'
}

/// The number that the decimal digits `s` write.
pub open spec fn digits_value(s: Seq<char>) -> nat
    decreases s.len(),
{
    if s.len() == 0 {
        0
    } else {
        digits_value(s.drop_last()) * 10 + ((s.last() as u32) - 48) as nat
    }
}

/// The digits of a port number as text: what follows an optional leading `+`.
pub open spec fn port_digits(s: Seq<char>) -> Seq<char> {
    if s.len() > 0 && s[0] == '+' {
        s.skip(1)
    } else {
        s
    }
}

/// The text is a port number as Rust reads a `u16`: an optional `+`, then one or
/// more decimal digits whose value is at most 65535.
pub open spec fn is_port_text(s: Seq<char>) -> bool {
    let d = port_digits(s);
    &&& d.len() > 0
    &&& forall|i: int| 0 <= i < d.len() ==> is_digit(#[trigger] d[i])
    &&& digits_value(d) <= 65535
}

/// The port configured by the text `value`: the number it writes, or the default
/// port when it is not set or is not a port number.
pub open spec fn port_setting(value: Option<Seq<char>>) -> u16 {
    match value {
        Some(v) => if is_port_text(v) {
            digits_value(port_digits(v)) as u16
        } else {
            default_port()
        },
        None => default_port(),
    }
}

proof fn lemma_digits_value_grows(s: Seq<char>, i: int, j: int)
    requires
        0 <= i <= j <= s.len(),
        forall|k: int| 0 <= k < s.len() ==> is_digit(#[trigger] s[k]),
    ensures
        digits_value(s.take(i)) <= digits_value(s.take(j)),
    decreases j - i,
{
    if i < j {
        lemma_digits_value_grows(s, i, j - 1);
        assert(s.take(j).drop_last() == s.take(j - 1));
        assert(is_digit(s[j - 1]));
    }
}

/// The port to listen on, configured by `value` (unset: `None`); the default
/// port when it is not set or is not a port number.
pub fn port_from_setting(value: Option<&str>) -> (r: u16)
    ensures
        r == port_setting(opt_str_view(value)),
{
    let v = match value {
        Some(v) => chars_of(v),
        None => return 5555,
    };
    let ghost sv = v@;
    let start: usize = if v.len() > 0 && v[0] == '+' {
        1
    } else {
        0
    };
    let ghost d = port_digits(sv);
    assert(d == sv.skip(start as int));
    if start >= v.len() {
        return 5555;
    }
    let mut acc: u32 = 0;
    let mut i: usize = start;
    while i < v.len()
        invariant
            v@ == sv,
            opt_str_view(value) == Some(sv),
            d == port_digits(sv),
            d == sv.skip(start as int),
            start <= i <= v.len(),
            start < v.len(),
            forall|k: int| 0 <= k < i - start ==> is_digit(#[trigger] d[k]),
            acc as nat == digits_value(d.take(i - start)),
            acc <= 65535,
        decreases v.len() - i,
    {
        let c = v[i];
        if !('0' <= c && c <= '9') {
            assert(!is_digit(d[i - start]));
            return 5555;
        }
        let digit: u32 = (c as u32) - 48;
        proof {
            assert(d.take(i - start + 1).drop_last() == d.take(i - start));
            assert(d.take(i - start + 1).last() == c);
        }
        let next: u32 = acc * 10 + digit;
        if next > 65535 {
            proof {
                if forall|k: int| 0 <= k < d.len() ==> is_digit(#[trigger] d[k]) {
                    lemma_digits_value_grows(d, i - start + 1, d.len() as int);
                    assert(d.take(d.len() as int) == d);
                }
            }
            return 5555;
        }
        acc = next;
        i = i + 1;
    }
    assert(d.take(i - start) == d);
    acc as u16
}

/// How the connection to the database uses TLS, when it does.
pub struct MongoTlsSettings {
    pub allow_invalid_certificates: bool,
    pub ca_file: Option<String>,
    pub cert_key_file: Option<String>,
}

/// A path setting: its text, trimmed, when it is set and not blank.
pub open spec fn path_setting(value: Option<Seq<char>>) -> Option<Seq<char>> {
    match value {
        Some(v) => if trim_spec(v).len() > 0 {
            Some(trim_spec(v))
        } else {
            None
        },
        None => None,
    }
}

fn path_from_setting(value: Option<&str>) -> (r: Option<String>)
    ensures
        opt_view(r) == path_setting(opt_str_view(value)),
{
    match value {
        Some(v) => {
            let t = trim(v);
            if chars_of(t.as_str()).len() > 0 {
                Some(t)
            } else {
                None
            }
        },
        None => None,
    }
}

/// The TLS settings of the database connection, from the texts of the flags that
/// turn it on (off by default) and that accept invalid certificates (on by
/// default once TLS is on), and of the paths of the CA file and of the client
/// certificate and key file: `None` when TLS is off.
pub fn mongo_tls_settings(
    enabled: Option<&str>,
    allow_invalid_certificates: Option<&str>,
    ca_file: Option<&str>,
    cert_key_file: Option<&str>,
) -> (r: Option<MongoTlsSettings>)
    ensures
        r is Some <==> flag_setting(opt_str_view(enabled), false),
        r matches Some(t) ==> {
            &&& t.allow_invalid_certificates == flag_setting(
                opt_str_view(allow_invalid_certificates),
                true,
            )
            &&& opt_view(t.ca_file) == path_setting(opt_str_view(ca_file))
            &&& opt_view(t.cert_key_file) == path_setting(opt_str_view(cert_key_file))
        },
{
    if !env_flag_value(enabled, false) {
        return None;
    }
    Some(
        MongoTlsSettings {
            allow_invalid_certificates: env_flag_value(allow_invalid_certificates, true),
            ca_file: path_from_setting(ca_file),
            cert_key_file: path_from_setting(cert_key_file),
        },
    )
}

} // verus!
