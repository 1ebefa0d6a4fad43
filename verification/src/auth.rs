//! Personal access tokens and the two gates in front of the protected
//! endpoints.

use vstd::prelude::*;

use crate::models::{reply_is, ReportResponse, STATUS_FORBIDDEN, STATUS_UNAUTHORIZED};

verus! {

/// How many characters a personal access token has.
pub const PAT_LENGTH: usize = 48;

/// The characters that a personal access token is drawn from.
pub const PAT_CHARS: &'static str = "abcdefghijklmnopqrstuvwxyzABCDEFGHIJKLMNOPQRSTUVWXYZ0123456789";

#[verifier::external_type_specification]
#[verifier::external_body]
pub struct ExThreadRng(rand::rngs::ThreadRng);

/// `rand::rng`: a handle to the thread-local random number generator. Nothing
/// is claimed of it.
#[verifier::external_body]
fn thread_rng() -> rand::rngs::ThreadRng {
    rand::rng()
}

/// `rand::Rng::random_range` on `0..bound`: a random number below `bound`.
/// The crate documents that it draws from the given range and that it panics
/// on an empty one, which `requires` rules out; which number comes is left
/// open.
#[verifier::external_body]
fn random_below(rng: &mut rand::rngs::ThreadRng, bound: usize) -> (n: usize)
    requires
        bound > 0,
    ensures
        n < bound,
{
    rand::Rng::random_range(rng, 0..bound)
}

/// The token spelled by a sequence of draws: the `i`-th character is the
/// character of [`PAT_CHARS`] at the `i`-th drawn position.
pub open spec fn pat_of_draws(draws: Seq<usize>) -> Seq<char> {
    Seq::new(draws.len(), |i: int| PAT_CHARS@[draws[i] as int])
}

/// Spells out a token from positions drawn in [`PAT_CHARS`]; see
/// [`pat_of_draws`].
pub fn pat_from_draws(draws: &Vec<usize>) -> (pat: String)
    requires
        forall|i: int| 0 <= i < draws.len() ==> #[trigger] draws[i] < PAT_CHARS@.len(),
    ensures
        pat@ == pat_of_draws(draws@),
        pat@.len() == draws.len(),
        forall|i: int| 0 <= i < draws.len() ==> pat@[i] == PAT_CHARS@[#[trigger] draws[i] as int],
{
    proof {
        reveal_strlit("abcdefghijklmnopqrstuvwxyzABCDEFGHIJKLMNOPQRSTUVWXYZ0123456789");
    }
    let mut pat = String::new();
    let mut k: usize = 0;
    while k < draws.len()
        invariant
            k <= draws.len(),
            PAT_CHARS@.len() == 62,
            forall|i: int| 0 <= i < draws.len() ==> #[trigger] draws[i] < PAT_CHARS@.len(),
            pat@ =~= pat_of_draws(draws@.take(k as int)),
        decreases draws.len() - k,
    {
        let idx = draws[k];
        let piece = PAT_CHARS.substring_char(idx, idx + 1);
        pat.append(piece);
        proof {
            assert(pat_of_draws(draws@.take(k + 1)) =~= pat_of_draws(draws@.take(k as int)) + piece@);
        }
        k = k + 1;
    }
    proof {
        assert(draws@.take(draws.len() as int) =~= draws@);
    }
    pat
}

/// A fresh personal access token: [`PAT_LENGTH`] positions drawn at random in
/// [`PAT_CHARS`], spelled out by [`pat_from_draws`]. Every character is from
/// the alphabet; which ones come is left to chance.
pub fn generate_pat() -> (pat: String)
    ensures
        pat@.len() == PAT_LENGTH,
        forall|i: int| 0 <= i < pat@.len() ==> PAT_CHARS@.contains(#[trigger] pat@[i]),
        exists|draws: Seq<usize>|
            draws.len() == PAT_LENGTH && (forall|i: int|
                0 <= i < draws.len() ==> #[trigger] draws[i] < PAT_CHARS@.len()) && pat@
                == pat_of_draws(draws),
{
    proof {
        reveal_strlit("abcdefghijklmnopqrstuvwxyzABCDEFGHIJKLMNOPQRSTUVWXYZ0123456789");
    }
    let alphabet_len = PAT_CHARS.unicode_len();
    let mut rng = thread_rng();
    let mut draws: Vec<usize> = Vec::new();
    while draws.len() < PAT_LENGTH
        invariant
            draws.len() <= PAT_LENGTH,
            alphabet_len == PAT_CHARS@.len(),
            alphabet_len > 0,
            forall|i: int| 0 <= i < draws.len() ==> #[trigger] draws[i] < PAT_CHARS@.len(),
        decreases PAT_LENGTH - draws.len(),
    {
        draws.push(random_below(&mut rng, alphabet_len));
    }
    let pat = pat_from_draws(&draws);
    proof {
        assert forall|i: int| 0 <= i < pat@.len() implies PAT_CHARS@.contains(#[trigger] pat@[i]) by {
            assert(pat@[i] == PAT_CHARS@[draws@[i] as int]);
        }
    }
    pat
}

/// The prefix of an `Authorization` header that carries a bearer token.
pub open spec fn bearer_prefix() -> Seq<char> {
    seq!['B', 'e', 'a', 'r', 'e', 'r', ' ']
}

/// The token that an `Authorization` header value carries: what follows the
/// prefix `Bearer `, if the value starts with it.
pub open spec fn bearer_token_of(header: Seq<char>) -> Option<Seq<char>> {
    if header.len() >= bearer_prefix().len() && header.take(bearer_prefix().len() as int)
        == bearer_prefix() {
        Some(header.skip(bearer_prefix().len() as int))
    } else {
        None
    }
}

/// The bearer token of a request, given its `Authorization` header as text
/// (`None` where the request has no such header or its value is not text).
pub fn extract_token<'a>(authorization: Option<&'a str>) -> (token: Option<&'a str>)
    ensures
        match authorization {
            None => token is None,
            Some(h) => match bearer_token_of(h@) {
                Some(t) => token matches Some(r) && r@ == t,
                None => token is None,
            },
        },
        authorization is None ==> token is None,
        token matches Some(t) ==> (authorization matches Some(h) && h@ == seq![
            'B',
            'e',
            'a',
            'r',
            'e',
            'r',
            ' ',
        ] + t@),
        authorization matches Some(h) ==> (h@.len() >= 7 && h@.take(7) == seq![
            'B',
            'e',
            'a',
            'r',
            'e',
            'r',
            ' ',
        ] ==> token is Some),
{
    let h = match authorization {
        Some(h) => h,
        None => {
            return None;
        },
    };
    let n = h.unicode_len();
    if n < 7 {
        return None;
    }
    let starts = h.get_char(0) == 'B' && h.get_char(1) == 'e' && h.get_char(2) == 'a'
        && h.get_char(3) == 'r' && h.get_char(4) == 'e' && h.get_char(5) == 'r'
        && h.get_char(6) == ' ';
    if starts {
        proof {
            assert(h@.take(7) =~= bearer_prefix());
        }
        Some(h.substring_char(7, n))
    } else {
        proof {
            if h@.take(7) == bearer_prefix() {
                assert(h@.take(7)[0] == h@[0]);
                assert(h@.take(7)[1] == h@[1]);
                assert(h@.take(7)[2] == h@[2]);
                assert(h@.take(7)[3] == h@[3]);
                assert(h@.take(7)[4] == h@[4]);
                assert(h@.take(7)[5] == h@[5]);
                assert(h@.take(7)[6] == h@[6]);
            }
        }
        None
    }
}

/// Law: the token that a client writes behind `Bearer ` is the token that
/// the server reads back from the header.
pub proof fn lemma_bearer_round_trip(token: Seq<char>)
    ensures
        bearer_token_of(bearer_prefix() + token) == Some(token),
{
    let h = bearer_prefix() + token;
    assert(h.take(7) =~= bearer_prefix());
    assert(h.skip(7) =~= token);
}

/// Why a gate refused a request.
#[derive(Debug, Clone, Copy, PartialEq, Eq, Structural)]
pub enum AccessDenied {
    /// No valid token came with the request.
    Unauthorized,
    /// A token came, but not one of an admin.
    Forbidden,
}

impl AccessDenied {
    /// The HTTP status of the refusal.
    pub fn status(&self) -> (code: u16)
        ensures
            *self == AccessDenied::Unauthorized ==> code == STATUS_UNAUTHORIZED,
            *self == AccessDenied::Forbidden ==> code == STATUS_FORBIDDEN,
    {
        match self {
            AccessDenied::Unauthorized => STATUS_UNAUTHORIZED,
            AccessDenied::Forbidden => STATUS_FORBIDDEN,
        }
    }

    /// The body of the refusal.
    pub fn body(&self) -> (body: ReportResponse)
        ensures
            *self == AccessDenied::Unauthorized ==> reply_is(
                body,
                "unauthorized"@,
                Some("Invalid or missing Bearer token"@),
            ),
            *self == AccessDenied::Forbidden ==> reply_is(
                body,
                "forbidden"@,
                Some("Admin access required"@),
            ),
    {
        match self {
            AccessDenied::Unauthorized => ReportResponse {
                status: String::from_str("unauthorized"),
                message: Some(String::from_str("Invalid or missing Bearer token")),
            },
            AccessDenied::Forbidden => ReportResponse {
                status: String::from_str("forbidden"),
                message: Some(String::from_str("Admin access required")),
            },
        }
    }
}

/// Who may report usage: a request is let through if and only if it brought
/// a token and the lookup of that token found it valid.
pub open spec fn auth_gate(lookup: Option<Result<bool, String>>) -> Result<(), AccessDenied> {
    match lookup {
        Some(Ok(true)) => Ok(()),
        _ => Err(AccessDenied::Unauthorized),
    }
}

/// Who may use the admin endpoints: a request is let through if and only if
/// the lookup found its token to be an admin's; a request without a token is
/// unauthorized, one with any other token forbidden.
pub open spec fn admin_gate(lookup: Option<Result<bool, String>>) -> Result<(), AccessDenied> {
    match lookup {
        Some(Ok(true)) => Ok(()),
        Some(_) => Err(AccessDenied::Forbidden),
        None => Err(AccessDenied::Unauthorized),
    }
}

/// Decides whether a request may reach the reporting endpoint. `lookup` is
/// `None` where the request brought no bearer token (see [`extract_token`]),
/// else the outcome of asking the database whether the token is valid.
pub fn require_auth(lookup: Option<Result<bool, String>>) -> (outcome: Result<(), AccessDenied>)
    ensures
        outcome == auth_gate(lookup),
        outcome is Ok <==> lookup == Some(Ok::<bool, String>(true)),
        outcome is Err ==> outcome == Err::<(), AccessDenied>(AccessDenied::Unauthorized),
{
    match lookup {
        Some(Ok(true)) => Ok(()),
        _ => Err(AccessDenied::Unauthorized),
    }
}

/// Decides whether a request may reach the admin endpoints. `lookup` is
/// `None` where the request brought no bearer token, else the outcome of
/// asking the database whether the token is an admin's.
pub fn require_admin(lookup: Option<Result<bool, String>>) -> (outcome: Result<(), AccessDenied>)
    ensures
        outcome == admin_gate(lookup),
        outcome is Ok <==> lookup == Some(Ok::<bool, String>(true)),
        lookup is None ==> outcome == Err::<(), AccessDenied>(AccessDenied::Unauthorized),
        lookup is Some && lookup != Some(Ok::<bool, String>(true)) ==> outcome == Err::<
            (),
            AccessDenied,
        >(AccessDenied::Forbidden),
{
    match lookup {
        Some(Ok(true)) => Ok(()),
        Some(_) => Err(AccessDenied::Forbidden),
        None => Err(AccessDenied::Unauthorized),
    }
}

/// Law: a request without a token is refused as unauthorized by both gates,
/// and a request with a token is never refused as unauthorized by the admin
/// gate, whatever the lookup said.
pub proof fn lemma_gates_on_tokens(lookup: Result<bool, String>)
    ensures
        auth_gate(None) == Err::<(), AccessDenied>(AccessDenied::Unauthorized),
        admin_gate(None) == Err::<(), AccessDenied>(AccessDenied::Unauthorized),
        admin_gate(Some(lookup)) != Err::<(), AccessDenied>(AccessDenied::Unauthorized),
{
}

/// Law: for one and the same lookup outcome the two gates agree on whether
/// the request passes; they differ only in how a present token is refused.
pub proof fn lemma_gates_agree_on_passing(lookup: Option<Result<bool, String>>)
    ensures
        auth_gate(lookup) is Ok <==> admin_gate(lookup) is Ok,
{
}

} // verus!
