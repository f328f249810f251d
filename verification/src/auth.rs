//! The bearer-token check that admits a request.

use vstd::prelude::*;
use vstd::string::*;
use crate::error::ErrorAuth;
use crate::text::{find_char, split_once, str_eq, trim, trim_str};

verus! {

/// The only token the service accepts.
pub open spec fn accepted_token() -> Seq<char> {
    "s9999"@
}

/// What the check decides for the text of an `Authorization` header (or its
/// absence): the acting user id, which is the token as sent, or the code of the
/// refusal.
pub open spec fn auth_decision(header: Option<Seq<char>>) -> Result<Seq<char>, Seq<char>> {
    match header {
        None => Err("missing_token"@),
        Some(h) => {
            let (auth_type, token) = split_once(h, ' ').unwrap();
            if trim(auth_type) != "Bearer"@ {
                Err("invalid_type_token"@)
            } else if trim(token) == Seq::<char>::empty() {
                Err("missing_token"@)
            } else if trim(token) != accepted_token() {
                Err("invalid_token"@)
            } else {
                Ok(token)
            }
        },
    }
}

pub open spec fn option_view(h: Option<&str>) -> Option<Seq<char>> {
    match h {
        Some(s) => Some(s@),
        None => None,
    }
}

/// Checks the text of a request's `Authorization` header, where it has one:
/// a `Bearer` scheme followed by the accepted token admits the request and
/// gives the token as the acting user; anything else is refused with the error
/// code that says why.
pub fn auth_check(header: Option<&str>) -> (r: Result<String, ErrorAuth>)
    requires
        header matches Some(h) ==> split_once(h@, ' ') is Some,
    ensures
        match r {
            Ok(user) => auth_decision(option_view(header)) == Ok::<Seq<char>, Seq<char>>(user@),
            Err(e) => {
                &&& auth_decision(option_view(header)) == Err::<Seq<char>, Seq<char>>(e.error@)
                &&& e.error_description is None
                &&& e.error_uri is None
            },
        },
{
    proof {
        reveal_strlit("missing_token");
        reveal_strlit("invalid_type_token");
        reveal_strlit("invalid_token");
        reveal_strlit("Bearer");
        reveal_strlit("s9999");
    }
    let mut error_auth = ErrorAuth::new();
    match header {
        None => {
            error_auth.error = String::from_str("missing_token");
            Err(error_auth)
        },
        Some(h) => {
            let i = find_char(h, ' ');
            let n = h.unicode_len();
            let auth_type = h.substring_char(0, i);
            let token = h.substring_char(i + 1, n);
            proof {
                assert(auth_type@ =~= h@.take(i as int));
                assert(token@ =~= h@.skip(i + 1));
            }
            let t_type = trim_str(auth_type);
            let t_token = trim_str(token);
            if !str_eq(t_type.as_str(), "Bearer") {
                error_auth.error = String::from_str("invalid_type_token");
                return Err(error_auth);
            }
            if t_token.as_str().is_empty() {
                assert(t_token@ =~= Seq::<char>::empty());
                error_auth.error = String::from_str("missing_token");
                return Err(error_auth);
            }
            if !str_eq(t_token.as_str(), "s9999") {
                error_auth.error = String::from_str("invalid_token");
                return Err(error_auth);
            }
            Ok(String::from_str(token))
        },
    }
}


/// A request without the header is refused as missing its token, and a
/// request is admitted only with the `Bearer` scheme and, once trimmed, the
/// accepted token; the acting user is the token as sent.
pub proof fn law_only_accepted_token_admits(header: Option<Seq<char>>)
    requires
        header matches Some(h) ==> split_once(h, ' ') is Some,
    ensures
        header is None ==> auth_decision(header) == Err::<Seq<char>, Seq<char>>("missing_token"@),
        auth_decision(header) matches Ok(user) ==> {
            &&& header matches Some(h)
            &&& trim(split_once(h, ' ').unwrap().0) == "Bearer"@
            &&& user == split_once(h, ' ').unwrap().1
            &&& trim(user) == accepted_token()
        },
{
}


/// The scheme is judged before the token: a header whose scheme, trimmed, is
/// not `Bearer` is refused as `invalid_type_token`, whatever token follows.
pub proof fn law_scheme_judged_before_token(scheme: Seq<char>, token: Seq<char>)
    requires
        index_of_space_free(scheme),
        trim(scheme) != "Bearer"@,
    ensures
        auth_decision(Some(scheme + " "@ + token)) == Err::<Seq<char>, Seq<char>>(
            "invalid_type_token"@,
        ),
{
    reveal_strlit(" ");
    let h = scheme + " "@ + token;
    crate::text::lemma_index_of(h, ' ', scheme.len() as int);
    assert(h.take(scheme.len() as int) =~= scheme);
    assert(h.skip(scheme.len() as int + 1) =~= token);
}

/// Whether `s` holds no space, so that it is the whole scheme of a header.
pub open spec fn index_of_space_free(s: Seq<char>) -> bool {
    forall|i: int| 0 <= i < s.len() ==> #[trigger] s[i] != ' '
}

/// With the `Bearer` scheme, a token that is the accepted one once trimmed
/// admits the request as that token, and any other non-blank token is refused
/// as `invalid_token`.
pub proof fn law_bearer_token_decides(token: Seq<char>)
    ensures
        trim(token) == accepted_token() ==> auth_decision(Some("Bearer "@ + token)) == Ok::<
            Seq<char>,
            Seq<char>,
        >(token),
        trim(token) != accepted_token() && trim(token).len() > 0 ==> auth_decision(
            Some("Bearer "@ + token),
        ) == Err::<Seq<char>, Seq<char>>("invalid_token"@),
{
    reveal_strlit("Bearer ");
    reveal_strlit("Bearer");
    reveal_strlit("s9999");
    let h = "Bearer "@ + token;
    crate::text::lemma_index_of(h, ' ', 6);
    assert(h.take(6) =~= "Bearer"@);
    assert(h.skip(7) =~= token);
    crate::text::lemma_trim_plain("Bearer"@);
    if trim(token).len() > 0 {
        assert(trim(token) != Seq::<char>::empty());
    }
    if trim(token) == accepted_token() {
        assert(trim(token).len() == 5);
        assert(trim(token) != Seq::<char>::empty());
    }
}

} // verus!
