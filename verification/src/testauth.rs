//! The browser's call of the protected `GET /testauth`.

use vstd::prelude::*;
use vstd::string::StringExecFns;
use crate::text::{chars_of, decimal, push_decimal, string_of_range};

verus! {

/// `s` without its trailing `c` characters, as `str::trim_end_matches` with a `char` gives it.
pub open spec fn trim_end_char(s: Seq<char>, c: char) -> Seq<char>
    decreases s.len(),
{
    if s.len() > 0 && s.last() == c {
        trim_end_char(s.drop_last(), c)
    } else {
        s
    }
}

/// The URL of `GET /testauth` under the API base, whatever trailing slashes the base has.
pub open spec fn testauth_url_text(api_base: Seq<char>) -> Seq<char> {
    trim_end_char(api_base, '/') + "/testauth"@
}

/// What the call gives the user, from the response's status and text: the text, or
/// `OK` when it is empty, on success; a fixed message on 401 and 403; otherwise the
/// status and the text.
pub open spec fn testauth_result_text(status: u16, body: Seq<char>) -> Result<Seq<char>, Seq<char>> {
    if 200 <= status <= 299 {
        if body.len() == 0 {
            Ok("OK"@)
        } else {
            Ok(body)
        }
    } else if status == 401 || status == 403 {
        Err("Unauthorized (401/403)"@)
    } else {
        Err("Err "@ + decimal(status as nat) + ": "@ + body)
    }
}

/// A `GET` request with an optional `Authorization` header.
pub struct TestAuthRequest {
    pub url: String,
    pub authorization: Option<String>,
}

/// The request for `GET /testauth`, with the access token as a bearer token when there is one.
pub fn testauth(api_base: &str, token: Option<String>) -> (r: TestAuthRequest)
    ensures
        r.url@ == testauth_url_text(api_base@),
        match token {
            Some(t) => r.authorization matches Some(h) && h@ == "Bearer "@ + t@,
            None => r.authorization is None,
        },
{
    let cs = chars_of(api_base);
    let mut end = cs.len();
    assert(cs@.take(end as int) =~= cs@);
    while end > 0 && cs[end - 1] == '/'
        invariant
            end <= cs.len(),
            cs@ == api_base@,
            trim_end_char(cs@, '/') == trim_end_char(cs@.take(end as int), '/'),
        decreases end,
    {
        assert(cs@.take(end as int).drop_last() =~= cs@.take(end - 1));
        end = end - 1;
    }
    assert(cs@.subrange(0, end as int) =~= cs@.take(end as int));
    let mut url = string_of_range(&cs, 0, end);
    url.append("/testauth");
    let authorization = match token {
        Some(t) => {
            let mut h = String::from_str("Bearer ");
            h.append(t.as_str());
            Some(h)
        },
        None => None,
    };
    TestAuthRequest { url, authorization }
}

/// What the call gives the user (see `testauth_result_text`).
pub fn testauth_result(status: u16, body: String) -> (r: Result<String, String>)
    ensures
        match testauth_result_text(status, body@) {
            Ok(t) => r matches Ok(s) && s@ == t,
            Err(t) => r matches Err(s) && s@ == t,
        },
{
    if 200 <= status && status <= 299 {
        if body.as_str().is_empty() {
            Ok(String::from_str("OK"))
        } else {
            Ok(body)
        }
    } else if status == 401 || status == 403 {
        Err(String::from_str("Unauthorized (401/403)"))
    } else {
        let mut m = String::from_str("Err ");
        push_decimal(&mut m, status as u64);
        m.append(": ");
        m.append(body.as_str());
        Err(m)
    }
}

/// Trailing slashes of the API base do not change the URL.
pub proof fn lemma_testauth_url_ignores_trailing_slash(api_base: Seq<char>)
    ensures
        testauth_url_text(api_base.push('/')) == testauth_url_text(api_base),
{
    assert(api_base.push('/').drop_last() =~= api_base);
}

/// A successful call (any 2xx status) shows the response text as it is, and `OK` only
/// when the text is empty; a 401 or a 403 is always reported as unauthorized.
pub proof fn lemma_testauth_success_shows_text(status: u16, other: u16, body: Seq<char>)
    ensures
        200 <= status <= 299 && body.len() > 0 ==> testauth_result_text(status, body) == Ok::<
            Seq<char>,
            Seq<char>,
        >(body),
        200 <= status <= 299 && body.len() == 0 ==> testauth_result_text(status, body) == Ok::<
            Seq<char>,
            Seq<char>,
        >("OK"@),
        200 <= status <= 299 && 200 <= other <= 299 ==> testauth_result_text(status, body)
            == testauth_result_text(other, body),
        status == 401 || status == 403 ==> testauth_result_text(status, body) == Err::<
            Seq<char>,
            Seq<char>,
        >("Unauthorized (401/403)"@),
{
}

} // verus!
