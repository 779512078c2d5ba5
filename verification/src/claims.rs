//! Identity resolver: the numeric user identifier carried as an unverified
//! claim in the bearer token's middle, base64-encoded segment.

use vstd::prelude::*;
use vstd::string::StrSliceExecFns;
use vstd::utf8::encode_utf8;

use base64::Engine;

use crate::errors::ClaimError;
use crate::json::json_of;
use crate::json::parse_value;
use crate::json::rep_get;
use crate::json::get_key;
use crate::json::value_as_i64;
use crate::json::JsonRep;
use crate::token::AccessToken;

verus! {

/// First position of `b` in `s` at or after `from`, if any.
pub open spec fn find_byte(s: Seq<u8>, b: u8, from: int) -> Option<int>
    decreases s.len() - from,
{
    if from < 0 || from >= s.len() {
        None
    } else if s[from] == b {
        Some(from)
    } else {
        find_byte(s, b, from + 1)
    }
}

/// The claims segment of a dot-delimited token: the bytes between the first
/// dot and the next dot (or the end). `None` when no dot exists, that is,
/// when fewer than two segments exist.
pub open spec fn claims_segment(t: Seq<u8>) -> Option<Seq<u8>> {
    match find_byte(t, 0x2e, 0) {
        None => None,
        Some(i) => match find_byte(t, 0x2e, i + 1) {
            None => Some(t.subrange(i + 1, t.len() as int)),
            Some(j) => Some(t.subrange(i + 1, j)),
        },
    }
}

/// What base64-decoding with the standard alphabet yields for the given
/// bytes, if they are valid base64.
pub uninterp spec fn base64_decoded(s: Seq<u8>) -> Option<Seq<u8>>;

/// The text that a lossy UTF-8 decode of the given bytes yields, invalid
/// sequences becoming replacement characters.
pub uninterp spec fn lossy_utf8(b: Seq<u8>) -> Seq<char>;

/// Relies on base64's `STANDARD` engine `decode`: whether bytes decode, and
/// to what, is a function of the input alone; empty input decodes to no
/// bytes.
#[verifier::external_body]
fn b64_decode(s: &Vec<u8>) -> (r: Option<Vec<u8>>)
    ensures
        match base64_decoded(s@) {
            Some(bs) => r matches Some(v) && v@ == bs,
            None => r is None,
        },
        match r {
            Some(v) => s@.len() == 0 ==> v@ == Seq::<u8>::empty(),
            None => s@.len() > 0,
        },
{
    base64::engine::general_purpose::STANDARD.decode(s.as_slice()).ok()
}

/// Relies on std's `String::from_utf8_lossy`: invalid sequences become
/// replacement characters, a function of the bytes alone; no bytes decode
/// to the empty text.
#[verifier::external_body]
fn utf8_lossy(b: &Vec<u8>) -> (r: String)
    ensures
        r@ == lossy_utf8(b@),
        r@.len() == 0 || b@.len() > 0,
{
    String::from_utf8_lossy(b.as_slice()).into_owned()
}

/// The integer under `user_id` in a claims document, if present.
pub open spec fn claim_user_id(rep: JsonRep) -> Option<i64> {
    match rep_get(rep, "user_id"@) {
        Some(JsonRep::Num(Some(i), t)) => Some(i),
        _ => None,
    }
}

/// What resolving the user id from the token's bytes yields: each stage's
/// failure is its own error, and the result is a pure function of the
/// token text.
pub open spec fn resolve_user_id_spec(t: Seq<u8>) -> Result<i64, ClaimError> {
    match claims_segment(t) {
        None => Err(ClaimError::MalformedToken),
        Some(seg) => match base64_decoded(seg) {
            None => Err(ClaimError::DecodeFailure),
            Some(bs) => match json_of(lossy_utf8(bs)) {
                None => Err(ClaimError::InvalidJson),
                Some(rep) => match claim_user_id(rep) {
                    None => Err(ClaimError::MissingClaim),
                    Some(i) => Ok(i),
                },
            },
        },
    }
}

/// Resolving the user id is a pure function of the token contents: equal
/// tokens resolve to equal results, so a second call can never differ.
pub proof fn lemma_resolve_user_id_deterministic(t1: Seq<u8>, t2: Seq<u8>)
    requires
        t1 == t2,
    ensures
        resolve_user_id_spec(t1) == resolve_user_id_spec(t2),
{
}

fn find_byte_exec(v: &Vec<u8>, b: u8, from: usize) -> (r: Option<usize>)
    requires
        from <= v@.len(),
    ensures
        match r {
            Some(i) => from <= i < v@.len() && find_byte(v@, b, from as int) == Some(i as int),
            None => find_byte(v@, b, from as int) is None,
        },
{
    let mut i: usize = from;
    while i < v.len()
        invariant
            from <= i <= v@.len(),
            find_byte(v@, b, from as int) == find_byte(v@, b, i as int),
        decreases v@.len() - i,
    {
        if v[i] == b {
            return Some(i);
        }
        i = i + 1;
    }
    None
}

fn subrange_vec(v: &Vec<u8>, from: usize, to: usize) -> (r: Vec<u8>)
    requires
        from <= to <= v@.len(),
    ensures
        r@ == v@.subrange(from as int, to as int),
{
    let mut out: Vec<u8> = Vec::new();
    let mut i: usize = from;
    while i < to
        invariant
            from <= i <= to <= v@.len(),
            out@ == v@.subrange(from as int, i as int),
        decreases to - i,
    {
        out.push(v[i]);
        proof {
            assert(v@.subrange(from as int, i as int).push(v@[i as int]) =~= v@.subrange(
                from as int,
                i as int + 1,
            ));
        }
        i = i + 1;
    }
    proof {
        assert(out@ =~= v@.subrange(from as int, to as int));
    }
    out
}

/// Extracts the user id claim from the access token: split on dots, decode
/// the middle segment, parse it leniently, and read the integer claim. No
/// signature is verified; the token is an opaque carrier. An empty claims
/// segment in particular is never a fault: it fails as invalid JSON.
pub fn resolve_user_id(tok: &AccessToken) -> (r: Result<i64, ClaimError>)
    ensures
        r == resolve_user_id_spec(encode_utf8(tok.access_token@)),
        claims_segment(encode_utf8(tok.access_token@)) == Some(Seq::<u8>::empty()) ==> r == Err::<
            i64,
            ClaimError,
        >(ClaimError::InvalidJson),
{
    let bv: Vec<u8> = tok.access_token.as_str().as_bytes_vec();
    let i1 = match find_byte_exec(&bv, 0x2e, 0) {
        None => {
            return Err(ClaimError::MalformedToken);
        },
        Some(i) => i,
    };
    let end = match find_byte_exec(&bv, 0x2e, i1 + 1) {
        None => bv.len(),
        Some(j) => j,
    };
    let seg = subrange_vec(&bv, i1 + 1, end);
    let decoded = match b64_decode(&seg) {
        None => {
            return Err(ClaimError::DecodeFailure);
        },
        Some(d) => d,
    };
    let text = utf8_lossy(&decoded);
    let parsed = match parse_value(text.as_str()) {
        None => {
            return Err(ClaimError::InvalidJson);
        },
        Some(v) => v,
    };
    let uid_key: String = "user_id".to_owned();
    let uid_val = match get_key(&parsed, &uid_key) {
        None => {
            return Err(ClaimError::MissingClaim);
        },
        Some(w) => w,
    };
    match value_as_i64(&uid_val) {
        None => Err(ClaimError::MissingClaim),
        Some(i) => Ok(i),
    }
}

} // verus!
