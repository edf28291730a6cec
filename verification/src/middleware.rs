//! The bearer-token guard in front of the API: which requests pass straight
//! through, which must present a token, and what becomes of them.

use vstd::prelude::*;
use crate::text::{chars_of, range_equals, string_of_range};

verus! {

/// The API's Auth0 settings: the audience access tokens must be issued for, and the
/// URL of the tenant's JSON Web Key Set.
pub struct ArgsAuth0 {
    pub auth0_audience: String,
    pub auth0_jwks: String,
}

/// The settings once they have been stored; asking for them before is a fault.
pub fn get_cfg(stored: Option<&ArgsAuth0>) -> (cfg: &ArgsAuth0)
    requires
        stored is Some,
    ensures
        cfg == stored->0,
{
    stored.unwrap()
}

/// The public paths as text.
pub open spec fn paths_text(paths: Seq<&'static str>) -> Seq<Seq<char>> {
    paths.map_values(|p: &'static str| p@)
}

/// A path is public when one of the public paths is a prefix of it.
pub open spec fn is_public_path(public: Seq<Seq<char>>, path: Seq<char>) -> bool {
    exists|i: int| 0 <= i < public.len() && (#[trigger] public[i]).is_prefix_of(path)
}

/// The token of an `Authorization` header value of the form `Bearer <token>`.
pub open spec fn bearer_token(header: Seq<char>) -> Option<Seq<char>> {
    if "Bearer "@.is_prefix_of(header) {
        Some(header.skip("Bearer "@.len() as int))
    } else {
        None
    }
}

/// The `Authorization` header value; a missing one counts as empty.
pub open spec fn header_text(header: Option<&str>) -> Seq<char> {
    match header {
        Some(h) => h@,
        None => Seq::empty(),
    }
}

/// Whether the guard lets a request through: on a public path always, elsewhere only
/// with a bearer token that verified.
pub open spec fn guard_forwards(public: Seq<Seq<char>>, path: Seq<char>, header: Seq<char>, verified: bool) -> bool {
    is_public_path(public, path) || (bearer_token(header) is Some && verified)
}

/// What the guard does with a request.
pub enum AuthDecision {
    /// Hand the request to the service.
    Forward,
    /// Verify this access token first.
    Verify(String),
    /// Answer `401 Unauthorized`.
    Reject,
}

impl AuthDecision {
    /// Whether the request ends up at the service, given the verification's result.
    pub open spec fn forwards_after(self, verified: bool) -> bool {
        match self {
            AuthDecision::Forward => true,
            AuthDecision::Verify(_) => verified,
            AuthDecision::Reject => false,
        }
    }

    /// The decision once the token's verification is known: `Verify` becomes `Forward`
    /// when the token verified and `Reject` when it did not.
    pub fn resolve(self, verified: bool) -> (d: AuthDecision)
        ensures
            d is Forward <==> self.forwards_after(verified),
            d is Forward || d is Reject,
    {
        match self {
            AuthDecision::Forward => AuthDecision::Forward,
            AuthDecision::Verify(_) => if verified {
                AuthDecision::Forward
            } else {
                AuthDecision::Reject
            },
            AuthDecision::Reject => AuthDecision::Reject,
        }
    }
}

/// The layer that puts the guard in front of a service.
#[derive(Clone)]
pub struct AuthLayer {
    pub public_paths: Vec<&'static str>,
}

/// A service behind the guard.
#[derive(Clone)]
pub struct AuthMiddleware<S> {
    pub inner: S,
    pub public_paths: Vec<&'static str>,
}

impl AuthLayer {
    /// Puts the guard in front of `inner`, with this layer's public paths.
    pub fn layer<S>(&self, inner: S) -> (m: AuthMiddleware<S>)
        ensures
            m.inner == inner,
            m.public_paths@ == self.public_paths@,
    {
        AuthMiddleware { inner, public_paths: self.public_paths.clone() }
    }
}

/// Whether `p` is a prefix of `s`.
fn starts_with(s: &Vec<char>, p: &Vec<char>) -> (b: bool)
    ensures
        b == p@.is_prefix_of(s@),
{
    if p.len() > s.len() {
        return false;
    }
    range_equals(s, 0, p.len(), p)
}

/// Whether `path` starts with one of the public paths.
pub fn is_public(public_paths: &Vec<&'static str>, path: &str) -> (b: bool)
    ensures
        b == is_public_path(paths_text(public_paths@), path@),
{
    let cs = chars_of(path);
    let mut i: usize = 0;
    while i < public_paths.len()
        invariant
            i <= public_paths.len(),
            cs@ == path@,
            forall|j: int| 0 <= j < i ==> !(#[trigger] paths_text(public_paths@)[j]).is_prefix_of(path@),
        decreases public_paths.len() - i,
    {
        let p = chars_of(public_paths[i]);
        if starts_with(&cs, &p) {
            assert(paths_text(public_paths@)[i as int] == public_paths@[i as int]@);
            return true;
        }
        i = i + 1;
    }
    false
}

/// The token of an `Authorization` header value `Bearer <token>`.
pub fn bearer_token_of(header: &str) -> (t: Option<String>)
    ensures
        match t {
            Some(s) => bearer_token(header@) == Some(s@),
            None => bearer_token(header@) is None,
        },
{
    let cs = chars_of(header);
    let prefix = chars_of("Bearer ");
    if starts_with(&cs, &prefix) {
        Some(string_of_range(&cs, prefix.len(), cs.len()))
    } else {
        None
    }
}

impl<S> AuthMiddleware<S> {
    /// What the guard does with a request to `path` with the given `Authorization`
    /// header: public paths pass, a `Bearer` token must be verified, anything else is
    /// refused.
    pub fn decide(&self, path: &str, authorization: Option<&str>) -> (d: AuthDecision)
        ensures
            is_public_path(paths_text(self.public_paths@), path@) ==> d is Forward,
            !is_public_path(paths_text(self.public_paths@), path@) ==> match bearer_token(
                header_text(authorization),
            ) {
                Some(t) => d matches AuthDecision::Verify(tok) && tok@ == t,
                None => d is Reject,
            },
            forall|verified: bool|
                #![trigger d.forwards_after(verified)]
                d.forwards_after(verified) == guard_forwards(
                    paths_text(self.public_paths@),
                    path@,
                    header_text(authorization),
                    verified,
                ),
    {
        if is_public(&self.public_paths, path) {
            return AuthDecision::Forward;
        }
        let header = match authorization {
            Some(h) => h,
            None => "",
        };
        proof {
            reveal_strlit("");
        }
        match bearer_token_of(header) {
            Some(token) => AuthDecision::Verify(token),
            None => AuthDecision::Reject,
        }
    }
}

/// The guard reads back the token that a client sends as `Bearer <token>`.
pub proof fn lemma_bearer_header_round_trip(token: Seq<char>)
    ensures
        bearer_token("Bearer "@ + token) == Some(token),
{
    let h = "Bearer "@ + token;
    assert(h.subrange(0, "Bearer "@.len() as int) =~= "Bearer "@);
    assert(h.skip("Bearer "@.len() as int) =~= token);
}

} // verus!
