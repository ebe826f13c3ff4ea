//! The GitHub OAuth client: the authorization URL that starts the flow, and the
//! choice of a profile's email among those GitHub lists.
use vstd::prelude::*;
use vstd::string::StringSliceAdditionalSpecFns;
use vstd::utf8::encode_utf8;

verus! {

/// A GitHub user, as the profile endpoint gives it.
#[derive(Debug)]
pub struct UserProfile {
    pub id: u64,
    pub login: String,
    pub email: Option<String>,
}

/// One entry of the account's email list.
#[derive(Debug)]
pub struct GithubEmail {
    pub email: String,
    pub primary: bool,
    pub verified: bool,
}

/// Whether a byte is left as it is by `application/x-www-form-urlencoded`:
/// `*`, `-`, `.`, `_`, ASCII digits and letters.
pub open spec fn form_unchanged(b: u8) -> bool {
    b == 0x2a || b == 0x2d || b == 0x2e || b == 0x5f || (0x30 <= b <= 0x39) || (0x41 <= b
        <= 0x5a) || (0x61 <= b <= 0x7a)
}

/// An uppercase hexadecimal digit.
pub open spec fn upper_hex_digit(n: int) -> char {
    if n < 10 {
        (48 + n) as char
    } else {
        (55 + n) as char
    }
}

/// How one byte is written in a form-urlencoded text: itself, `+` for a space, or
/// `%` and two uppercase hexadecimal digits.
pub open spec fn form_byte(b: u8) -> Seq<char> {
    if form_unchanged(b) {
        seq![b as char]
    } else if b == 0x20 {
        seq!['+']
    } else {
        seq!['%', upper_hex_digit((b / 16) as int), upper_hex_digit((b % 16) as int)]
    }
}

/// The form-urlencoded text of a byte string, byte by byte.
pub open spec fn form_encoded(bytes: Seq<u8>) -> Seq<char>
    decreases bytes.len(),
{
    if bytes.len() == 0 {
        Seq::empty()
    } else {
        form_encoded(bytes.drop_last()) + form_byte(bytes.last())
    }
}

/// The form-urlencoded text of a string's UTF-8 bytes.
pub open spec fn form_text(s: Seq<char>) -> Seq<char> {
    form_encoded(encode_utf8(s))
}

/// The query that `form_urlencoded::Serializer` writes for name/value pairs: each
/// pair as its form-urlencoded name, `=` and its form-urlencoded value, the pairs
/// joined by `&`.
pub open spec fn query_text(pairs: Seq<(Seq<char>, Seq<char>)>) -> Seq<char>
    decreases pairs.len(),
{
    if pairs.len() == 0 {
        Seq::empty()
    } else {
        let last = pairs.last();
        let pair = form_text(last.0) + "="@ + form_text(last.1);
        if pairs.len() == 1 {
            pair
        } else {
            query_text(pairs.drop_last()) + "&"@ + pair
        }
    }
}

/// The pairs of text slices, as texts.
pub open spec fn pair_texts(pairs: Seq<(&str, &str)>) -> Seq<(Seq<char>, Seq<char>)> {
    pairs.map_values(|p: (&str, &str)| (p.0@, p.1@))
}

/// Calls `url::Url::parse` on GitHub's authorization address, appends the pairs with
/// `query_pairs_mut().extend_pairs`, and writes the URL with `to_string`. That
/// address parses, has neither query nor fragment, and is written back as it was
/// given, so the result is the address, `?` and the serializer's query (the
/// serializer form-urlencodes the UTF-8 bytes of each name and value).
#[verifier::external_body]
fn url_with_query(base: &str, pairs: &Vec<(&str, &str)>) -> (r: String)
    requires
        base@ == authorize_base(),
    ensures
        r@ == base@ + "?"@ + query_text(pair_texts(pairs@)),
{
    match url::Url::parse(base) {
        Ok(mut url) => {
            url.query_pairs_mut().extend_pairs(pairs.iter());
            url.to_string()
        },
        Err(_) => String::new(),
    }
}

/// Whether a text is a UUID in its hyphenated form: 36 characters, hyphens at
/// positions 8, 13, 18 and 23, lowercase hexadecimal digits elsewhere.
pub open spec fn uuid_text_shape(s: Seq<char>) -> bool {
    &&& s.len() == 36
    &&& forall|i: int|
        0 <= i < 36 ==> if i == 8 || i == 13 || i == 18 || i == 23 {
            #[trigger] s[i] == '-'
        } else {
            ('0' <= s[i] <= '9') || ('a' <= s[i] <= 'f')
        }
}

/// Calls `uuid::Uuid::new_v4` and writes it with `to_string`. The value is random;
/// the contract claims only the hyphenated form that `Display` documents.
#[verifier::external_body]
fn random_uuid_text() -> (r: String)
    ensures
        uuid_text_shape(r@),
{
    uuid::Uuid::new_v4().to_string()
}

/// The address of GitHub's authorization page.
pub open spec fn authorize_base() -> Seq<char> {
    "https://github.com/login/oauth/authorize"@
}

/// The scopes asked for: the profile and the email addresses.
pub open spec fn authorize_scope() -> Seq<char> {
    "read:user user:email"@
}

/// The authorization URL: the page's address and a query of the client id, the
/// redirect URI, the scopes and the state, in that order, each form-urlencoded.
pub open spec fn authorize_text(client_id: Seq<char>, redirect_uri: Seq<char>, state: Seq<char>) -> Seq<char> {
    authorize_base() + "?"@ + query_text(
        seq![
            ("client_id"@, client_id),
            ("redirect_uri"@, redirect_uri),
            ("scope"@, authorize_scope()),
            ("state"@, state),
        ],
    )
}

/// The URL that sends a user to GitHub to authorize the application, with a fresh
/// random state (returned beside it) that the callback must present again.
pub fn authorize_url(client_id: &str, redirect_uri: &str) -> (r: (String, String))
    ensures
        r.0@ == authorize_text(client_id@, redirect_uri@, r.1@),
        uuid_text_shape(r.1@),
{
    let state = random_uuid_text();
    let pairs: Vec<(&str, &str)> = vec![
        ("client_id", client_id),
        ("redirect_uri", redirect_uri),
        ("scope", "read:user user:email"),
        ("state", state.as_str()),
    ];
    let url = url_with_query("https://github.com/login/oauth/authorize", &pairs);
    proof {
        assert(pair_texts(pairs@) =~= seq![
            ("client_id"@, client_id@),
            ("redirect_uri"@, redirect_uri@),
            ("scope"@, authorize_scope()),
            ("state"@, state@),
        ]);
    }
    (url, state)
}

/// The address GitHub's email list yields: that of the first entry both primary and
/// verified.
pub open spec fn primary_verified(emails: Seq<GithubEmail>) -> Option<Seq<char>>
    decreases emails.len(),
{
    if emails.len() == 0 {
        None
    } else if emails[0].primary && emails[0].verified {
        Some(emails[0].email@)
    } else {
        primary_verified(emails.drop_first())
    }
}

/// Picks the first primary and verified address of the list, if there is one.
pub fn primary_verified_email(emails: &Vec<GithubEmail>) -> (r: Option<String>)
    ensures
        match r {
            Some(e) => primary_verified(emails@) == Some(e@),
            None => primary_verified(emails@) is None,
        },
{
    let mut i: usize = 0;
    assert(emails@.subrange(0, emails@.len() as int) =~= emails@);
    while i < emails.len()
        invariant
            i <= emails@.len(),
            primary_verified(emails@) == primary_verified(emails@.subrange(i as int, emails@.len() as int)),
        decreases emails@.len() - i,
    {
        let e = &emails[i];
        proof {
            let rest = emails@.subrange(i as int, emails@.len() as int);
            assert(rest[0] == emails@[i as int]);
            assert(rest.drop_first() =~= emails@.subrange(i + 1, emails@.len() as int));
        }
        if e.primary && e.verified {
            return Some(e.email.clone());
        }
        i = i + 1;
    }
    None
}

} // verus!
