use vstd::prelude::*;
use crate::error::{expect_success, is_success, HrBoxError, ProtocolIssue};

verus! {

/// A cookie that a response set: its name and its value.
#[derive(Debug, Clone)]
pub struct Cookie {
    pub name: String,
    pub value: String,
}

/// The cookie that carries the anti-CSRF token.
pub open spec fn is_token_cookie(c: Cookie) -> bool {
    c.name@ == "XSRF-TOKEN"@
}

/// The value of the first token cookie among `cookies`, if any.
pub open spec fn token_in(cookies: Seq<Cookie>) -> Option<Seq<char>>
    decreases cookies.len(),
{
    if cookies.len() == 0 {
        None
    } else if is_token_cookie(cookies[0]) {
        Some(cookies[0].value@)
    } else {
        token_in(cookies.drop_first())
    }
}

/// The token is the value of the first `XSRF-TOKEN` cookie, and there is
/// none exactly when no cookie has that name.
pub proof fn lemma_token_is_first_match(cookies: Seq<Cookie>)
    ensures
        forall|i: int|
            0 <= i < cookies.len() && is_token_cookie(#[trigger] cookies[i])
                && (forall|j: int| 0 <= j < i ==> !is_token_cookie(#[trigger] cookies[j]))
                ==> token_in(cookies) == Some(cookies[i].value@),
        token_in(cookies) is None <==> (forall|i: int| 0 <= i < cookies.len() ==> !is_token_cookie(#[trigger] cookies[i])),
    decreases cookies.len(),
{
    if cookies.len() > 0 {
        let rest = cookies.drop_first();
        lemma_token_is_first_match(rest);
        assert forall|i: int|
            0 <= i < cookies.len() && is_token_cookie(#[trigger] cookies[i])
                && (forall|j: int| 0 <= j < i ==> !is_token_cookie(#[trigger] cookies[j]))
                implies token_in(cookies) == Some(cookies[i].value@) by {
            if i > 0 {
                assert(!is_token_cookie(cookies[0]));
                assert(rest[i - 1] == cookies[i]);
                assert forall|j: int| 0 <= j < i - 1 implies !is_token_cookie(#[trigger] rest[j]) by {
                    assert(rest[j] == cookies[j + 1]);
                }
            }
        }
        if token_in(cookies) is None {
            assert forall|i: int| 0 <= i < cookies.len() implies !is_token_cookie(#[trigger] cookies[i]) by {
                if i > 0 {
                    assert(rest[i - 1] == cookies[i]);
                }
            }
        }
        if token_in(cookies) is Some {
            if !is_token_cookie(cookies[0]) {
                let k = choose|k: int| 0 <= k < rest.len() && is_token_cookie(#[trigger] rest[k]);
                assert(cookies[k + 1] == rest[k]);
            }
        }
    }
}

/// What bootstrapping a session gives for a response with this status and
/// these cookies.
pub open spec fn bootstrap_result(status: u16, cookies: Seq<Cookie>) -> Result<Seq<char>, HrBoxError> {
    if !is_success(status) {
        Err(HrBoxError::Http { status })
    } else {
        match token_in(cookies) {
            Some(t) => Ok(t),
            None => Err(HrBoxError::Protocol(ProtocolIssue::MissingSessionToken)),
        }
    }
}

/// Extracts the anti-CSRF token from the answer to the unauthenticated
/// first request: the value of the first `XSRF-TOKEN` cookie.
pub fn bootstrap(status: u16, cookies: &Vec<Cookie>) -> (r: Result<String, HrBoxError>)
    ensures
        r is Ok <==> bootstrap_result(status, cookies@) is Ok,
        r matches Ok(t) ==> bootstrap_result(status, cookies@) == Ok::<Seq<char>, HrBoxError>(t@),
        r matches Err(e) ==> bootstrap_result(status, cookies@) == Err::<Seq<char>, HrBoxError>(e),
{
    if let Err(e) = expect_success(status) {
        return Err(e);
    }
    let wanted = "XSRF-TOKEN".to_string();
    let mut i: usize = 0;
    assert(cookies@.subrange(0, cookies@.len() as int) =~= cookies@);
    while i < cookies.len()
        invariant
            i <= cookies@.len(),
            is_success(status),
            wanted@ == "XSRF-TOKEN"@,
            token_in(cookies@) == token_in(cookies@.subrange(i as int, cookies@.len() as int)),
        decreases cookies@.len() - i,
    {
        let ghost rest = cookies@.subrange(i as int, cookies@.len() as int);
        assert(rest.drop_first() =~= cookies@.subrange(i + 1, cookies@.len() as int));
        assert(rest[0] == cookies@[i as int]);
        if cookies[i].name == wanted {
            let value = cookies[i].value.clone();
            assert(token_in(rest) == Some(value@));
            return Ok(value);
        }
        i = i + 1;
    }
    Err(HrBoxError::Protocol(ProtocolIssue::MissingSessionToken))
}

} // verus!
