//! Token manager: password-grant payload construction, the shape of the
//! provider's token reply, and absolute expiry.

use vstd::prelude::*;
use vstd::string::StrSliceExecFns;
use vstd::string::StringSliceAdditionalSpecFns;
use vstd::string::StringExecFns;
use vstd::utf8::encode_utf8;

use crate::bytes::escape_bytes;
use crate::bytes::push_escaped;
use crate::bytes::push_lit;
use crate::errors::AuthError;
use crate::json::json_of;
use crate::json::parse_value;
use crate::json::rep_get;
use crate::json::get_key;
use crate::json::value_as_array;
use crate::json::value_as_bool;
use crate::json::value_as_i64;
use crate::json::value_as_str;
use crate::json::value_rep;
use crate::json::vals_rep;
use crate::json::JsonRep;

verus! {

/// Username, password and client pair for the password grant; opaque
/// strings, copied verbatim and never derived from.
pub struct Credential {
    pub username: String,
    pub password: String,
    pub client_id: String,
    pub client_secret: String,
}

/// Body of the password-grant request, field for field.
pub struct LoginPayload {
    pub grant_type: String,
    pub client_id: String,
    pub client_secret: String,
    pub username: String,
    pub password: String,
}

/// Access/refresh token pair with its absolute expiry in epoch seconds.
pub struct AccessToken {
    pub access_token: String,
    pub refresh_token: String,
    pub expires_at: i64,
}

impl AccessToken {
    /// True once `now` (epoch seconds) has reached the token's expiry.
    pub fn is_expired(&self, now: i64) -> (r: bool)
        ensures
            r == (now >= self.expires_at),
    {
        now >= self.expires_at
    }
}

/// Create the login payload from credentials: a password grant, every other
/// field copied verbatim.
pub fn cred_to_login(cred: &Credential) -> (r: LoginPayload)
    ensures
        r.grant_type@ == "password"@,
        r.client_id@ == cred.client_id@,
        r.client_secret@ == cred.client_secret@,
        r.username@ == cred.username@,
        r.password@ == cred.password@,
{
    LoginPayload {
        grant_type: "password".to_owned(),
        client_id: cred.client_id.clone(),
        client_secret: cred.client_secret.clone(),
        username: cred.username.clone(),
        password: cred.password.clone(),
    }
}

/// The JSON body submitted to the token endpoint, given the UTF-8 bytes of
/// the payload's five fields.
pub open spec fn login_body_bytes(
    g: Seq<u8>,
    ci: Seq<u8>,
    cs: Seq<u8>,
    u: Seq<u8>,
    p: Seq<u8>,
) -> Seq<u8> {
    "{\"grant_type\":\"".spec_bytes() + escape_bytes(g) + "\",\"client_id\":\"".spec_bytes()
        + escape_bytes(ci) + "\",\"client_secret\":\"".spec_bytes() + escape_bytes(cs)
        + "\",\"username\":\"".spec_bytes() + escape_bytes(u) + "\",\"password\":\"".spec_bytes()
        + escape_bytes(p) + "\"}".spec_bytes()
}

/// Renders the login payload as its JSON request body.
pub fn build_login_request(p: &LoginPayload) -> (r: Vec<u8>)
    ensures
        r@ == login_body_bytes(
            encode_utf8(p.grant_type@),
            encode_utf8(p.client_id@),
            encode_utf8(p.client_secret@),
            encode_utf8(p.username@),
            encode_utf8(p.password@),
        ),
{
    let mut out: Vec<u8> = Vec::new();
    push_lit(&mut out, "{\"grant_type\":\"");
    proof {
        assert(out@ =~= "{\"grant_type\":\"".spec_bytes());
    }
    let gb: Vec<u8> = p.grant_type.as_str().as_bytes_vec();
    push_escaped(&mut out, &gb);
    push_lit(&mut out, "\",\"client_id\":\"");
    let cib: Vec<u8> = p.client_id.as_str().as_bytes_vec();
    push_escaped(&mut out, &cib);
    push_lit(&mut out, "\",\"client_secret\":\"");
    let csb: Vec<u8> = p.client_secret.as_str().as_bytes_vec();
    push_escaped(&mut out, &csb);
    push_lit(&mut out, "\",\"username\":\"");
    let ub: Vec<u8> = p.username.as_str().as_bytes_vec();
    push_escaped(&mut out, &ub);
    push_lit(&mut out, "\",\"password\":\"");
    let pb: Vec<u8> = p.password.as_str().as_bytes_vec();
    push_escaped(&mut out, &pb);
    push_lit(&mut out, "\"}");
    out
}

/// The fields of a successful token exchange, as specification data.
pub struct TokenFields {
    pub access: Seq<char>,
    pub refresh: Seq<char>,
    pub expires_at: int,
}

/// What one entry of the reply's `data` array yields: the access and
/// refresh tokens and `now + expires_in`, or a malformed-reply error when a
/// required field is missing, of the wrong type, or the sum leaves `i64`.
pub open spec fn entry_token_spec(e: JsonRep, now: int) -> Result<TokenFields, AuthError> {
    match (
        rep_get(e, "token_type"@),
        rep_get(e, "access_token"@),
        rep_get(e, "expires_in"@),
        rep_get(e, "refresh_token"@),
    ) {
        (
            Some(JsonRep::Text(tt)),
            Some(JsonRep::Text(a)),
            Some(JsonRep::Num(Some(x), xt)),
            Some(JsonRep::Text(rt)),
        ) => {
            if i64::MIN <= now + x && now + x <= i64::MAX {
                Ok(TokenFields { access: a, refresh: rt, expires_at: now + x })
            } else {
                Err(AuthError::MalformedReply)
            }
        },
        _ => Err(AuthError::MalformedReply),
    }
}

/// Whether one entry of `data` has the reply's documented fields: string
/// `token_type`, `access_token` and `refresh_token`, and an integer
/// `expires_in`.
pub open spec fn entry_well_formed(e: JsonRep) -> bool {
    match (
        rep_get(e, "token_type"@),
        rep_get(e, "access_token"@),
        rep_get(e, "expires_in"@),
        rep_get(e, "refresh_token"@),
    ) {
        (
            Some(JsonRep::Text(tt)),
            Some(JsonRep::Text(a)),
            Some(JsonRep::Num(Some(x), xt)),
            Some(JsonRep::Text(rt)),
        ) => true,
        _ => false,
    }
}

pub open spec fn all_entries_well_formed(es: Seq<JsonRep>) -> bool {
    forall|i: int| 0 <= i < es.len() ==> #[trigger] entry_well_formed(es[i])
}

/// What a token reply document yields. The documented shape is owed in
/// full: a boolean `success` (its value is not consulted) and a `data`
/// array of well-formed entries, else the malformed-reply error; an empty
/// `data` is the empty-token-list error; otherwise the first entry decides.
pub open spec fn token_reply_spec(rep: JsonRep, now: int) -> Result<TokenFields, AuthError> {
    if !(rep_get(rep, "success"@) matches Some(JsonRep::Bool(_))) {
        Err(AuthError::MalformedReply)
    } else {
        match rep_get(rep, "data"@) {
            Some(JsonRep::Arr(es)) => if !all_entries_well_formed(es) {
                Err(AuthError::MalformedReply)
            } else if es.len() == 0 {
                Err(AuthError::EmptyTokenList)
            } else {
                entry_token_spec(es[0], now)
            },
            _ => Err(AuthError::MalformedReply),
        }
    }
}

/// Whether an entry carries the documented fields, at runtime.
fn entry_well_formed_exec(v: &serde_json::Value) -> (r: bool)
    ensures
        r == entry_well_formed(value_rep(*v)),
{
    let tt_key: String = "token_type".to_owned();
    let at_key: String = "access_token".to_owned();
    let xi_key: String = "expires_in".to_owned();
    let rt_key: String = "refresh_token".to_owned();
    let tt_ok = match get_key(v, &tt_key) {
        None => false,
        Some(w) => value_as_str(&w).is_some(),
    };
    let at_ok = match get_key(v, &at_key) {
        None => false,
        Some(w) => value_as_str(&w).is_some(),
    };
    let xi_ok = match get_key(v, &xi_key) {
        None => false,
        Some(w) => value_as_i64(&w).is_some(),
    };
    let rt_ok = match get_key(v, &rt_key) {
        None => false,
        Some(w) => value_as_str(&w).is_some(),
    };
    tt_ok && at_ok && xi_ok && rt_ok
}

/// What acquiring from a reply body yields: unparseable text is the
/// malformed-reply error, otherwise the document decides.
pub open spec fn acquire_spec(s: Seq<char>, now: int) -> Result<TokenFields, AuthError> {
    match json_of(s) {
        None => Err(AuthError::MalformedReply),
        Some(rep) => token_reply_spec(rep, now),
    }
}

fn checked_add_i64(a: i64, b: i64) -> (r: Option<i64>)
    ensures
        match r {
            Some(c) => c == a + b,
            None => !(i64::MIN <= a + b && a + b <= i64::MAX),
        },
{
    if b >= 0 {
        if a <= i64::MAX - b {
            Some(a + b)
        } else {
            None
        }
    } else {
        if a >= i64::MIN - b {
            Some(a + b)
        } else {
            None
        }
    }
}

/// Turns the token endpoint's reply body into an access token, `now` being
/// the epoch time of the successful exchange: `expires_at` is exactly
/// `now + expires_in` from the reply, computed once at issuance.
pub fn acquire(reply_body: &str, now: i64) -> (r: Result<AccessToken, AuthError>)
    ensures
        match r {
            Ok(t) => acquire_spec(reply_body@, now as int) matches Ok(f) && t.access_token@
                == f.access && t.refresh_token@ == f.refresh && t.expires_at == f.expires_at,
            Err(e) => acquire_spec(reply_body@, now as int) == Err::<TokenFields, AuthError>(e),
        },
{
    let parsed = parse_value(reply_body);
    let v = match parsed {
        None => {
            return Err(AuthError::MalformedReply);
        },
        Some(v) => v,
    };
    let success_key: String = "success".to_owned();
    let succ = match get_key(&v, &success_key) {
        None => {
            return Err(AuthError::MalformedReply);
        },
        Some(w) => w,
    };
    if value_as_bool(&succ).is_none() {
        return Err(AuthError::MalformedReply);
    }
    let data_key: String = "data".to_owned();
    let data = match get_key(&v, &data_key) {
        None => {
            return Err(AuthError::MalformedReply);
        },
        Some(d) => d,
    };
    let arr = match value_as_array(&data) {
        None => {
            return Err(AuthError::MalformedReply);
        },
        Some(a) => a,
    };
    let ghost es = vals_rep(arr@);
    let mut i: usize = 0;
    while i < arr.len()
        invariant
            i <= arr@.len(),
            es == vals_rep(arr@),
            es.len() == arr@.len(),
            json_of(reply_body@) == Some(value_rep(v)),
            rep_get(value_rep(v), "success"@) matches Some(JsonRep::Bool(_)),
            rep_get(value_rep(v), "data"@) == Some(value_rep(data)),
            value_rep(data) == JsonRep::Arr(es),
            forall|j: int| 0 <= j < i ==> #[trigger] entry_well_formed(es[j]),
        decreases arr@.len() - i,
    {
        proof {
            assert(es[i as int] == value_rep(arr@[i as int]));
        }
        if !entry_well_formed_exec(&arr[i]) {
            proof {
                assert(!all_entries_well_formed(es));
            }
            return Err(AuthError::MalformedReply);
        }
        i = i + 1;
    }
    proof {
        assert(all_entries_well_formed(es));
    }
    if arr.len() == 0 {
        return Err(AuthError::EmptyTokenList);
    }
    let entry = &arr[0];
    proof {
        assert(vals_rep(arr@)[0] == value_rep(arr@[0]));
        assert(entry_well_formed(es[0]));
    }
    let tt_key: String = "token_type".to_owned();
    let tt = match get_key(entry, &tt_key) {
        None => {
            return Err(AuthError::MalformedReply);
        },
        Some(w) => w,
    };
    if value_as_str(&tt).is_none() {
        return Err(AuthError::MalformedReply);
    }
    let at_key: String = "access_token".to_owned();
    let at = match get_key(entry, &at_key) {
        None => {
            return Err(AuthError::MalformedReply);
        },
        Some(w) => w,
    };
    let access = match value_as_str(&at) {
        None => {
            return Err(AuthError::MalformedReply);
        },
        Some(s) => s,
    };
    let xi_key: String = "expires_in".to_owned();
    let xi = match get_key(entry, &xi_key) {
        None => {
            return Err(AuthError::MalformedReply);
        },
        Some(w) => w,
    };
    let expires_in = match value_as_i64(&xi) {
        None => {
            return Err(AuthError::MalformedReply);
        },
        Some(x) => x,
    };
    let rt_key: String = "refresh_token".to_owned();
    let rt = match get_key(entry, &rt_key) {
        None => {
            return Err(AuthError::MalformedReply);
        },
        Some(w) => w,
    };
    let refresh = match value_as_str(&rt) {
        None => {
            return Err(AuthError::MalformedReply);
        },
        Some(s) => s,
    };
    let expires_at = match checked_add_i64(now, expires_in) {
        None => {
            return Err(AuthError::MalformedReply);
        },
        Some(c) => c,
    };
    Ok(AccessToken { access_token: access, refresh_token: refresh, expires_at })
}

} // verus!
