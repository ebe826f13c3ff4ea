//! The browser side of the GitHub sign-in: the cookie that carries the OAuth state
//! across the round trip, the check of the state that comes back, and the address
//! the browser is sent to at the end.
use vstd::prelude::*;
use crate::shared::error::{AppError, outcome_is, unauthorized};
use crate::shared::text::{str_eq, trim, trim_spec};

verus! {

/// The `Set-Cookie` value that stores the OAuth state for ten minutes, readable by
/// the server only.
pub fn oauth_state_cookie(state: &str) -> (r: String)
    ensures
        r@ == "oauth_state="@ + state@ + "; HttpOnly; SameSite=Lax; Path=/; Max-Age=600"@,
{
    let mut c = String::from_str("oauth_state=");
    c.append(state);
    c.append("; HttpOnly; SameSite=Lax; Path=/; Max-Age=600");
    c
}

/// The `Set-Cookie` value that removes the OAuth state.
pub fn expired_oauth_state_cookie() -> (r: String)
    ensures
        r@ == "oauth_state=; Path=/; Max-Age=0"@,
{
    String::from_str("oauth_state=; Path=/; Max-Age=0")
}

/// Splits a text at every `sep`: `cur` is the piece read so far, `rest` what is left.
pub open spec fn split_at_sep(cur: Seq<char>, rest: Seq<char>, sep: char) -> Seq<Seq<char>>
    decreases rest.len(),
{
    if rest.len() == 0 {
        seq![cur]
    } else if rest[0] == sep {
        seq![cur] + split_at_sep(seq![], rest.drop_first(), sep)
    } else {
        split_at_sep(cur.push(rest[0]), rest.drop_first(), sep)
    }
}

/// The position of the first `=` at or after `i`.
pub open spec fn first_eq_from(p: Seq<char>, i: int) -> Option<int>
    decreases p.len() - i,
{
    if i < 0 || i >= p.len() {
        None
    } else if p[i] == '=' {
        Some(i)
    } else {
        first_eq_from(p, i + 1)
    }
}

/// The value of a `name=value` pair of a cookie header when its name (trimmed) is
/// `name`; the value is trimmed.
pub open spec fn pair_value(p: Seq<char>, name: Seq<char>) -> Option<Seq<char>> {
    match first_eq_from(p, 0) {
        Some(i) => if trim_spec(p.subrange(0, i)) == name {
            Some(trim_spec(p.subrange(i + 1, p.len() as int)))
        } else {
            None
        },
        None => None,
    }
}

/// Reads the pairs in order; a later pair of the name replaces an earlier one.
pub open spec fn latest_value(pairs: Seq<Seq<char>>, name: Seq<char>, found: Option<Seq<char>>) -> Option<Seq<char>>
    decreases pairs.len(),
{
    if pairs.len() == 0 {
        found
    } else {
        latest_value(
            pairs.drop_first(),
            name,
            match pair_value(pairs[0], name) {
                Some(v) => Some(v),
                None => found,
            },
        )
    }
}

/// The value of the cookie `name` in a `Cookie` header (`a=1; b=2`): that of the last
/// pair with the name.
pub open spec fn cookie_value_spec(header: Seq<char>, name: Seq<char>) -> Option<Seq<char>> {
    latest_value(split_at_sep(seq![], header, ';'), name, None)
}

fn pair_value_of(p: &str, name: &str) -> (r: Option<String>)
    ensures
        match r {
            Some(v) => pair_value(p@, name@) == Some(v@),
            None => pair_value(p@, name@) is None,
        },
{
    let n = p.unicode_len();
    let mut i: usize = 0;
    while i < n && p.get_char(i) != '='
        invariant
            n == p@.len(),
            i <= n,
            first_eq_from(p@, 0) == first_eq_from(p@, i as int),
        decreases n - i,
    {
        i = i + 1;
    }
    if i == n {
        return None;
    }
    let key = trim(p.substring_char(0, i));
    if !str_eq(key, name) {
        return None;
    }
    Some(String::from_str(trim(p.substring_char(i + 1, n))))
}

proof fn lemma_latest_cons(a: Seq<char>, rest: Seq<Seq<char>>, name: Seq<char>, found: Option<Seq<char>>)
    ensures
        latest_value(seq![a] + rest, name, found) == latest_value(
            rest,
            name,
            match pair_value(a, name) {
                Some(v) => Some(v),
                None => found,
            },
        ),
{
    let s = seq![a] + rest;
    assert(s[0] == a);
    assert(s.drop_first() =~= rest);
}

pub open spec fn opt_string_view(s: Option<String>) -> Option<Seq<char>> {
    match s {
        Some(t) => Some(t@),
        None => None,
    }
}

/// Reads a cookie from a `Cookie` header.
pub fn cookie_value(header: &str, name: &str) -> (r: Option<String>)
    ensures
        match r {
            Some(v) => cookie_value_spec(header@, name@) == Some(v@),
            None => cookie_value_spec(header@, name@) is None,
        },
{
    let n = header.unicode_len();
    let mut found: Option<String> = None;
    let mut start: usize = 0;
    let mut i: usize = 0;
    assert(header@.subrange(0, 0) =~= Seq::<char>::empty());
    assert(header@.subrange(0, n as int) =~= header@);
    while i < n
        invariant
            n == header@.len(),
            start <= i <= n,
            cookie_value_spec(header@, name@) == latest_value(
                split_at_sep(header@.subrange(start as int, i as int), header@.subrange(i as int, n as int), ';'),
                name@,
                opt_string_view(found),
            ),
        decreases n - i,
    {
        let ghost a = header@.subrange(start as int, i as int);
        let ghost r = header@.subrange(i as int, n as int);
        assert(r[0] == header@[i as int]);
        assert(r.drop_first() =~= header@.subrange(i + 1, n as int));
        let c = header.get_char(i);
        if c == ';' {
            let seg = header.substring_char(start, i);
            proof {
                lemma_latest_cons(
                    a,
                    split_at_sep(seq![], r.drop_first(), ';'),
                    name@,
                    opt_string_view(found),
                );
            }
            match pair_value_of(seg, name) {
                Some(v) => {
                    found = Some(v);
                },
                None => {},
            }
            start = i + 1;
            assert(header@.subrange(start as int, i + 1) =~= Seq::<char>::empty());
        } else {
            assert(a.push(c) =~= header@.subrange(start as int, i + 1));
        }
        i = i + 1;
    }
    let seg = header.substring_char(start, n);
    proof {
        let a = header@.subrange(start as int, n as int);
        assert(header@.subrange(n as int, n as int) =~= Seq::<char>::empty());
        assert(split_at_sep(a, Seq::<char>::empty(), ';') == seq![a]);
        lemma_latest_cons(
            a,
            Seq::<Seq<char>>::empty(),
            name@,
            opt_string_view(found),
        );
        assert(seq![a] + Seq::<Seq<char>>::empty() =~= seq![a]);
    }
    match pair_value_of(seg, name) {
        Some(v) => Some(v),
        None => found,
    }
}

/// The checks of GitHub's callback: it must bring a code and a state, and the state
/// must be the one the browser's cookie kept.
pub open spec fn callback_spec(code: Option<Seq<char>>, received: Option<Seq<char>>, expected: Option<Seq<char>>) -> Result<Seq<char>, (u16, Seq<char>)> {
    match code {
        None => Err(unauthorized()),
        Some(c) => match received {
            None => Err(unauthorized()),
            Some(s) => if expected == Some(s) {
                Ok(c)
            } else {
                Err(unauthorized())
            },
        },
    }
}

pub open spec fn opt_view(s: Option<&str>) -> Option<Seq<char>> {
    match s {
        Some(t) => Some(t@),
        None => None,
    }
}

/// Checks GitHub's callback against the state kept in the cookie; gives the code.
pub fn check_callback(code: Option<&str>, received_state: Option<&str>, expected_state: Option<&str>) -> (r: Result<String, AppError>)
    ensures
        match callback_spec(opt_view(code), opt_view(received_state), opt_view(expected_state)) {
            Ok(c) => r matches Ok(x) && x@ == c,
            Err(e) => r matches Err(x) && outcome_is(Err::<(), AppError>(x), Err(e)),
        },
{
    let c = match code {
        None => return Err(AppError::Unauthorized),
        Some(c) => c,
    };
    let s = match received_state {
        None => return Err(AppError::Unauthorized),
        Some(s) => s,
    };
    match expected_state {
        Some(e) => if str_eq(e, s) {
            Ok(String::from_str(c))
        } else {
            Err(AppError::Unauthorized)
        },
        None => Err(AppError::Unauthorized),
    }
}

/// Where the browser goes once the sign-in is over: the front end's callback page
/// with the session token, or its login page with an error.
pub fn sign_in_redirect(frontend_url: &str, token: Option<&str>) -> (r: String)
    ensures
        r@ == match token {
            Some(t) => frontend_url@ + "/oauth/callback?token="@ + t@,
            None => frontend_url@ + "/login?error=oauth_failed"@,
        },
{
    let mut url = String::from_str(frontend_url);
    match token {
        Some(t) => {
            url.append("/oauth/callback?token=");
            url.append(t);
        },
        None => {
            url.append("/login?error=oauth_failed");
        },
    }
    url
}

} // verus!
