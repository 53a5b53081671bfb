//! The session cookie: its name in each security mode, its attributes, how it
//! is rendered as a `Set-Cookie` value, and how the session token is read back
//! from `Cookie` request headers.

use crate::session::SESSION_DURATION_SECONDS;
use crate::text::{
    decimal, find_char, is_white_space, lemma_find_char, lemma_trimmed_unchanged, trimmed,
};
use crate::token::{
    is_base64_url_char, is_session_token_text, lemma_session_token_text_shape, parsed_token_text,
    SessionToken,
};
use vstd::prelude::*;
use vstd::string::*;

verus! {

/// The cookie name in each security mode: the `__Host-` prefix binds the
/// cookie to a secure origin and is used only when cookies are secure.
pub open spec fn session_cookie_name(secure: bool) -> Seq<char> {
    if secure {
        "__Host-rincuma_session"@
    } else {
        "rincuma_session"@
    }
}

/// The name of the session cookie in the given security mode.
pub fn cookie_name(secure: bool) -> (r: &'static str)
    ensures
        r@ == session_cookie_name(secure),
{
    if secure {
        "__Host-rincuma_session"
    } else {
        "rincuma_session"
    }
}

/// The `SameSite` attribute of a cookie.
#[derive(Debug, Clone, Copy, PartialEq, Eq)]
pub enum SameSitePolicy {
    Strict,
    Lax,
}

/// The attribute text of a `SameSite` policy.
pub open spec fn same_site_text(p: SameSitePolicy) -> Seq<char> {
    match p {
        SameSitePolicy::Strict => "Strict"@,
        SameSitePolicy::Lax => "Lax"@,
    }
}

/// A `Set-Cookie` value, as plain data.
#[derive(Debug)]
pub struct SessionCookie {
    pub name: String,
    pub value: String,
    pub http_only: bool,
    pub secure: bool,
    pub same_site: SameSitePolicy,
    pub path: String,
    pub max_age_seconds: u32,
    /// A removal cookie also carries an `Expires` date in the past.
    pub removal: bool,
}

/// A `Set-Cookie` text up to and excluding any `Expires` attribute, in the
/// order the cookie crate writes the attributes.
pub open spec fn cookie_text(
    name: Seq<char>,
    value: Seq<char>,
    http_only: bool,
    secure: bool,
    same_site: SameSitePolicy,
    path: Seq<char>,
    max_age_seconds: nat,
) -> Seq<char> {
    name + "="@ + value + (if http_only {
        "; HttpOnly"@
    } else {
        Seq::<char>::empty()
    }) + "; SameSite="@ + same_site_text(same_site) + (if secure {
        "; Secure"@
    } else {
        Seq::<char>::empty()
    }) + "; Path="@ + path + "; Max-Age="@ + decimal(max_age_seconds)
}

/// The `Set-Cookie` text of `c` without an `Expires` attribute.
pub open spec fn set_cookie_text(c: SessionCookie) -> Seq<char> {
    cookie_text(
        c.name@,
        c.value@,
        c.http_only,
        c.secure,
        c.same_site,
        c.path@,
        c.max_age_seconds as nat,
    )
}

/// The text of `c` once `Cookie::make_removal` has emptied the value and set
/// `Max-Age` to zero, up to the `Expires` attribute it adds.
pub open spec fn removal_text_prefix(c: SessionCookie) -> Seq<char> {
    cookie_text(c.name@, Seq::empty(), c.http_only, c.secure, c.same_site, c.path@, 0)
        + "; Expires="@
}

/// Builds a `cookie::Cookie` with the attributes of `c` and formats it with
/// its `Display` impl. Claimed: the text is exactly `set_cookie_text(c)`, as
/// the crate's formatter writes name, value and these attributes.
#[verifier::external_body]
fn render_set_cookie(c: &SessionCookie) -> (r: String)
    ensures
        r@ == set_cookie_text(*c),
{
    let same_site = match c.same_site {
        SameSitePolicy::Strict => cookie::SameSite::Strict,
        SameSitePolicy::Lax => cookie::SameSite::Lax,
    };
    cookie::Cookie::build((c.name.clone(), c.value.clone())).http_only(c.http_only).secure(
        c.secure,
    ).same_site(same_site).path(c.path.clone()).max_age(
        cookie::time::Duration::seconds(c.max_age_seconds as i64),
    ).build().to_string()
}

/// Builds a `cookie::Cookie` with the attributes of `c`, applies
/// `Cookie::make_removal` and formats it. Claimed: the text starts with the
/// rendering of `c` with an empty value and `Max-Age=0`, followed by
/// `; Expires=`. The date that follows is a year before the current time, so
/// it is not stated.
#[verifier::external_body]
fn render_removal_set_cookie(c: &SessionCookie) -> (r: String)
    ensures
        r@.len() >= removal_text_prefix(*c).len(),
        r@.subrange(0, removal_text_prefix(*c).len() as int) == removal_text_prefix(*c),
{
    let same_site = match c.same_site {
        SameSitePolicy::Strict => cookie::SameSite::Strict,
        SameSitePolicy::Lax => cookie::SameSite::Lax,
    };
    let mut cookie = cookie::Cookie::build((c.name.clone(), c.value.clone())).http_only(
        c.http_only,
    ).secure(c.secure).same_site(same_site).path(c.path.clone()).max_age(
        cookie::time::Duration::seconds(c.max_age_seconds as i64),
    ).build();
    cookie.make_removal();
    cookie.to_string()
}

impl SessionCookie {
    /// The `Set-Cookie` header value of this cookie.
    pub fn to_string(&self) -> (r: String)
        ensures
            !self.removal ==> r@ == set_cookie_text(*self),
            self.removal ==> r@.len() >= removal_text_prefix(*self).len() && r@.subrange(
                0,
                removal_text_prefix(*self).len() as int,
            ) == removal_text_prefix(*self),
    {
        if self.removal {
            render_removal_set_cookie(self)
        } else {
            render_set_cookie(self)
        }
    }
}

/// The cookie that carries session token text `token`.
pub open spec fn is_session_cookie(c: SessionCookie, token: Seq<char>, secure: bool) -> bool {
    &&& c.name@ == session_cookie_name(secure)
    &&& c.value@ == token
    &&& c.http_only
    &&& c.secure == secure
    &&& c.same_site == SameSitePolicy::Strict
    &&& c.path@ == "/"@
    &&& c.max_age_seconds == SESSION_DURATION_SECONDS as u32
    &&& !c.removal
}

/// The `Set-Cookie` text of a session cookie: HTTP-only, `SameSite=Strict`,
/// path `/`, 30 days, and `Secure` exactly in secure mode.
pub proof fn law_session_cookie_text(c: SessionCookie, token: Seq<char>, secure: bool)
    requires
        is_session_cookie(c, token, secure),
    ensures
        set_cookie_text(c) == session_cookie_name(secure) + "="@ + token
            + "; HttpOnly; SameSite=Strict"@ + (if secure {
            "; Secure"@
        } else {
            Seq::<char>::empty()
        }) + "; Path=/; Max-Age=2592000"@,
{
    reveal_strlit("=");
    reveal_strlit("; HttpOnly");
    reveal_strlit("; SameSite=");
    reveal_strlit("Strict");
    reveal_strlit("; Secure");
    reveal_strlit("; Path=");
    reveal_strlit("/");
    reveal_strlit("; Max-Age=");
    reveal_strlit("; HttpOnly; SameSite=Strict");
    reveal_strlit("; Path=/; Max-Age=2592000");
    reveal_with_fuel(decimal, 8);
    assert(decimal(2592000) =~= seq!['2', '5', '9', '2', '0', '0', '0']);
    assert(set_cookie_text(c) =~= session_cookie_name(secure) + "="@ + token
        + "; HttpOnly; SameSite=Strict"@ + (if secure {
        "; Secure"@
    } else {
        Seq::<char>::empty()
    }) + "; Path=/; Max-Age=2592000"@);
}

/// The session cookie for `token`: HTTP-only, `SameSite=Strict`, path `/`,
/// lasting `SESSION_DURATION_SECONDS`, secure and `__Host-` prefixed in secure mode.
pub fn session_cookie(token: &str, secure: bool) -> (r: SessionCookie)
    ensures
        is_session_cookie(r, token@, secure),
{
    SessionCookie {
        name: String::from_str(cookie_name(secure)),
        value: String::from_str(token),
        http_only: true,
        secure,
        same_site: SameSitePolicy::Strict,
        path: String::from_str("/"),
        max_age_seconds: SESSION_DURATION_SECONDS as u32,
        removal: false,
    }
}

/// `c` is the cookie that clears the session cookie in the given mode.
pub open spec fn is_removal_cookie(c: SessionCookie, secure: bool) -> bool {
    &&& c.removal
    &&& c.name@ == session_cookie_name(secure)
    &&& c.value@ == Seq::<char>::empty()
    &&& c.http_only
    &&& c.secure == secure
    &&& c.same_site == SameSitePolicy::Strict
    &&& c.path@ == "/"@
    &&& c.max_age_seconds == SESSION_DURATION_SECONDS as u32
}

/// The cookie that clears the session cookie in the given mode: the session
/// cookie with an empty value, marked for removal.
pub fn removal_cookie(secure: bool) -> (r: SessionCookie)
    ensures
        is_removal_cookie(r, secure),
{
    proof {
        reveal_strlit("");
    }
    let mut c = session_cookie("", secure);
    c.removal = true;
    assert(c.value@ =~= Seq::<char>::empty());
    c
}

/// One piece of a `Cookie` header read as a cookie, without
/// percent-decoding: the trimmed text before the first `=` is the name, the
/// trimmed text after it the value; `None` when there is no `=` or the name
/// is empty.
pub open spec fn cookie_pair(piece: Seq<char>) -> Option<(Seq<char>, Seq<char>)> {
    let t = trimmed(piece);
    let k = find_char(t, '=', 0);
    if k >= t.len() || trimmed(t.subrange(0, k)).len() == 0 {
        None
    } else {
        Some((trimmed(t.subrange(0, k)), trimmed(t.subrange(k + 1, t.len() as int))))
    }
}

/// `rest` preceded by the cookie read from `piece`, unless the piece is only
/// white space.
pub open spec fn with_piece(
    piece: Seq<char>,
    rest: Seq<Option<(Seq<char>, Seq<char>)>>,
) -> Seq<Option<(Seq<char>, Seq<char>)>> {
    if trimmed(piece).len() == 0 {
        rest
    } else {
        seq![cookie_pair(piece)] + rest
    }
}

/// The cookies read from `header`, scanning at `i` with the current piece
/// starting at `start`: pieces end at each `;` and at the end of the text.
pub open spec fn cookie_pairs_from(header: Seq<char>, start: int, i: int) -> Seq<
    Option<(Seq<char>, Seq<char>)>,
>
    decreases header.len() - i,
{
    if i < 0 || i >= header.len() {
        with_piece(header.subrange(start, header.len() as int), Seq::empty())
    } else if header[i] == ';' {
        with_piece(header.subrange(start, i), cookie_pairs_from(header, i + 1, i + 1))
    } else {
        cookie_pairs_from(header, start, i + 1)
    }
}

/// The cookies of one `Cookie` header value, in order: the value is split at
/// every `;`, pieces that are only white space are skipped, and each other
/// piece gives `Some((name, value))` or, when it is no cookie, `None`.
pub open spec fn cookie_pairs(header: Seq<char>) -> Seq<Option<(Seq<char>, Seq<char>)>> {
    cookie_pairs_from(header, 0, 0)
}

/// `Cookie::split_parse` of the cookie crate on one header value, each
/// cookie reduced to its name and value. Claimed: the list is `cookie_pairs`
/// of the header text (the crate splits at `;`, skips pieces that are all
/// white space, trims each other piece, cuts it at its first `=`, trims name
/// and value, and fails on a piece without `=` or with an empty name).
#[verifier::external_body]
fn split_parse_cookies(header: &str) -> (r: Vec<Option<(String, String)>>)
    ensures
        r.deep_view() == cookie_pairs(header@),
{
    cookie::Cookie::split_parse(header).map(
        |c| c.ok().map(|c| (c.name().to_string(), c.value().to_string())),
    ).collect()
}

/// The value of the first cookie named `name` in `pairs`.
pub open spec fn first_cookie_value(
    pairs: Seq<Option<(Seq<char>, Seq<char>)>>,
    name: Seq<char>,
) -> Option<Seq<char>>
    decreases pairs.len(),
{
    if pairs.len() == 0 {
        None
    } else {
        match pairs[0] {
            Some(p) => if p.0 == name {
                Some(p.1)
            } else {
                first_cookie_value(pairs.drop_first(), name)
            },
            None => first_cookie_value(pairs.drop_first(), name),
        }
    }
}

/// The value of the first cookie named `name` over all header values, in order.
pub open spec fn first_header_cookie(headers: Seq<Seq<char>>, name: Seq<char>) -> Option<
    Seq<char>,
>
    decreases headers.len(),
{
    if headers.len() == 0 {
        None
    } else {
        match first_cookie_value(cookie_pairs(headers[0]), name) {
            Some(v) => Some(v),
            None => first_header_cookie(headers.drop_first(), name),
        }
    }
}

/// The session token text found in `Cookie` header values: the first cookie
/// with the session cookie name of the mode, if its value is a token.
pub open spec fn session_token_text(headers: Seq<Seq<char>>, secure: bool) -> Option<
    Seq<char>,
> {
    match first_header_cookie(headers, session_cookie_name(secure)) {
        Some(v) => parsed_token_text(v),
        None => None,
    }
}

fn find_cookie_value(pairs: &Vec<Option<(String, String)>>, name: &String) -> (r: Option<String>)
    ensures
        match r {
            Some(v) => first_cookie_value(pairs.deep_view(), name@) == Some(v@),
            None => first_cookie_value(pairs.deep_view(), name@) is None,
        },
{
    let ghost all = pairs.deep_view();
    proof {
        assert(all.subrange(0, all.len() as int) =~= all);
    }
    let mut j: usize = 0;
    while j < pairs.len()
        invariant
            all == pairs.deep_view(),
            j <= pairs.len(),
            first_cookie_value(all, name@) == first_cookie_value(
                all.subrange(j as int, all.len() as int),
                name@,
            ),
        decreases pairs.len() - j,
    {
        proof {
            let rest = all.subrange(j as int, all.len() as int);
            assert(rest.drop_first() =~= all.subrange(j + 1, all.len() as int));
            assert(rest[0] == pairs@[j as int].deep_view());
        }
        match &pairs[j] {
            Some(p) => {
                if p.0 == *name {
                    return Some(p.1.clone());
                }
            },
            None => {},
        }
        j = j + 1;
    }
    proof {
        assert(all.subrange(j as int, all.len() as int).len() == 0);
    }
    None
}

/// Reads the session token from the `Cookie` header values of a request: the
/// first cookie named for the current security mode, if it holds a token.
pub fn session_token(headers: &Vec<String>, secure: bool) -> (r: Option<SessionToken>)
    ensures
        match r {
            Some(t) => session_token_text(headers.deep_view(), secure) == Some(t@),
            None => session_token_text(headers.deep_view(), secure) is None,
        },
{
    let name = String::from_str(cookie_name(secure));
    let ghost all = headers.deep_view();
    proof {
        assert(all.subrange(0, all.len() as int) =~= all);
    }
    let mut i: usize = 0;
    while i < headers.len()
        invariant
            all == headers.deep_view(),
            name@ == session_cookie_name(secure),
            i <= headers.len(),
            first_header_cookie(all, name@) == first_header_cookie(
                all.subrange(i as int, all.len() as int),
                name@,
            ),
        decreases headers.len() - i,
    {
        proof {
            let rest = all.subrange(i as int, all.len() as int);
            assert(rest.drop_first() =~= all.subrange(i + 1, all.len() as int));
            assert(rest[0] == headers@[i as int]@);
        }
        let pairs = split_parse_cookies(headers[i].as_str());
        match find_cookie_value(&pairs, &name) {
            Some(v) => {
                return SessionToken::parse(v.as_str());
            },
            None => {},
        }
        i = i + 1;
    }
    proof {
        assert(all.subrange(i as int, all.len() as int).len() == 0);
    }
    None
}

/// A character of the URL-safe Base64 alphabet is neither white space nor
/// one of the separators `;` and `=`.
proof fn lemma_url_char_is_plain(c: char)
    requires
        is_base64_url_char(c),
    ensures
        !is_white_space(c),
        c != ';',
        c != '=',
{
}

/// A header text with no `;` from `i` on reads as one piece from `start`.
proof fn lemma_single_piece(header: Seq<char>, start: int, i: int)
    requires
        0 <= i <= header.len(),
        forall|k: int| i <= k < header.len() ==> header[k] != ';',
    ensures
        cookie_pairs_from(header, start, i) == with_piece(
            header.subrange(start, header.len() as int),
            Seq::empty(),
        ),
    decreases header.len() - i,
{
    if i < header.len() {
        lemma_single_piece(header, start, i + 1);
    }
}

/// The session cookie reads back: a `Cookie` header that holds the session
/// cookie of a mode as `name=token`, the way a client returns what the
/// `Set-Cookie` header gave it, yields that token in the same mode.
pub proof fn law_session_cookie_reads_back(token: Seq<char>, secure: bool)
    requires
        is_session_token_text(token),
    ensures
        session_token_text(seq![session_cookie_name(secure) + "="@ + token], secure) == Some(
            token,
        ),
{
    reveal_strlit("=");
    reveal_strlit("__Host-rincuma_session");
    reveal_strlit("rincuma_session");
    lemma_session_token_text_shape(token);
    let n = session_cookie_name(secure);
    let h = n + "="@ + token;
    let m = n.len() as int;
    assert(n.len() > 0);
    assert forall|k: int| 0 <= k < m implies is_base64_url_char(#[trigger] n[k]) by {
        if secure {
            assert(n == "__Host-rincuma_session"@);
        } else {
            assert(n == "rincuma_session"@);
        }
    }
    assert forall|k: int| 0 <= k < h.len() implies #[trigger] h[k] != ';' && (k < m ==> h[k]
        != '=') && (k != m ==> !is_white_space(h[k])) by {
        if k < m {
            assert(h[k] == n[k]);
            lemma_url_char_is_plain(n[k]);
        } else if k > m {
            assert(h[k] == token[k - m - 1]);
            lemma_url_char_is_plain(token[k - m - 1]);
        } else {
            assert(h[k] == '=');
        }
    }
    lemma_single_piece(h, 0, 0);
    assert(h.subrange(0, h.len() as int) =~= h);
    lemma_trimmed_unchanged(h);
    lemma_find_char(h, '=', 0, m);
    assert(h.subrange(0, m) =~= n);
    assert(h.subrange(m + 1, h.len() as int) =~= token);
    assert forall|k: int| 0 <= k < m implies !is_white_space(#[trigger] n[k]) by {
        assert(h[k] == n[k]);
    }
    lemma_trimmed_unchanged(n);
    if token.len() > 0 {
        lemma_url_char_is_plain(token[0]);
        lemma_url_char_is_plain(token[token.len() - 1]);
    }
    lemma_trimmed_unchanged(token);
    assert(cookie_pair(h) == Some((n, token)));
    assert(cookie_pairs(h) =~= seq![Some((n, token))]);
    assert(cookie_pairs(h).drop_first() =~= Seq::<Option<(Seq<char>, Seq<char>)>>::empty());
    assert(first_cookie_value(cookie_pairs(h), n) == Some(token));
    assert(first_header_cookie(seq![h], n) == Some(token));
}

} // verus!
