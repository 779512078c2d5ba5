//! Usage query engine: the aggregation request body, and the nested reply
//! parsed into an ordered sequence of samples.

use vstd::prelude::*;
use vstd::string::StrSliceExecFns;
use vstd::string::StringSliceAdditionalSpecFns;
use vstd::utf8::encode_utf8;

use crate::bytes::escape_bytes;
use crate::bytes::push_escaped;
use crate::bytes::push_lit;
use crate::errors::QueryError;
use crate::json::json_of;
use crate::json::parse_value;
use crate::json::rep_get;
use crate::json::get_key;
use crate::json::value_as_array;
use crate::json::value_as_str;
use crate::json::value_number_text;
use crate::json::value_rep;
use crate::json::vals_rep;
use crate::json::JsonRep;
use crate::timewin::render_dt;
use crate::timewin::TimeWindow;

verus! {

/// One time-stamped usage reading. The provider sends the volume as a JSON
/// number; it is carried as that number's rendered text, so the core stays
/// free of floating point and the caller chooses its numeric type.
#[derive(Clone, Debug, PartialEq, Eq)]
pub struct UsageSample {
    pub timestamp: String,
    pub value_text: String,
}

/// The JSON body of the aggregation query: one query, the caller's bucket
/// and correlation id, and the window's two rendered bounds.
pub open spec fn usage_body_bytes(
    bucket: Seq<u8>,
    w: TimeWindow,
    rid: Seq<u8>,
) -> Seq<u8> {
    "{\"queries\":[{\"bucket\":\"".spec_bytes() + escape_bytes(bucket)
        + "\",\"since_datetime\":\"".spec_bytes() + render_dt(w.since)
        + "\",\"until_datetime\":\"".spec_bytes() + render_dt(w.until)
        + "\",\"request_id\":\"".spec_bytes() + escape_bytes(rid) + "\"}]}".spec_bytes()
}

/// Renders the aggregation request body for the window.
pub fn build_usage_request(bucket: &str, window: &TimeWindow, request_id: &str) -> (r: Vec<u8>)
    requires
        crate::timewin::valid_dt(window.since),
        crate::timewin::valid_dt(window.until),
    ensures
        r@ == usage_body_bytes(encode_utf8(bucket@), *window, encode_utf8(request_id@)),
{
    let mut out: Vec<u8> = Vec::new();
    push_lit(&mut out, "{\"queries\":[{\"bucket\":\"");
    proof {
        assert(out@ =~= "{\"queries\":[{\"bucket\":\"".spec_bytes());
    }
    let bb: Vec<u8> = bucket.as_bytes_vec();
    push_escaped(&mut out, &bb);
    push_lit(&mut out, "\",\"since_datetime\":\"");
    crate::timewin::push_dt(&mut out, &window.since);
    push_lit(&mut out, "\",\"until_datetime\":\"");
    crate::timewin::push_dt(&mut out, &window.until);
    push_lit(&mut out, "\",\"request_id\":\"");
    let rb: Vec<u8> = request_id.as_bytes_vec();
    push_escaped(&mut out, &rb);
    push_lit(&mut out, "\"}]}");
    out
}

/// The (datetime, value text) of one reply entry, owed a string `datetime`
/// and a numeric `value`.
pub open spec fn sample_of(e: JsonRep) -> Option<(Seq<char>, Seq<char>)> {
    match (rep_get(e, "datetime"@), rep_get(e, "value"@)) {
        (Some(JsonRep::Text(d)), Some(JsonRep::Num(oi, t))) => Some((d, t)),
        _ => None,
    }
}

/// Whether every entry of a result set is a well-formed sample.
pub open spec fn all_samples_ok(es: Seq<JsonRep>) -> bool {
    forall|i: int| 0 <= i < es.len() ==> #[trigger] sample_of(es[i]) is Some
}

pub open spec fn sample_fields(e: JsonRep) -> (Seq<char>, Seq<char>) {
    match sample_of(e) {
        Some(p) => p,
        None => (Seq::<char>::empty(), Seq::<char>::empty()),
    }
}

/// The samples of a result set, provider order kept.
pub open spec fn samples_seq(es: Seq<JsonRep>) -> Seq<(Seq<char>, Seq<char>)> {
    Seq::new(es.len(), |i: int| sample_fields(es[i]))
}

/// The first entry of `data` holding the correlation key, if any.
pub open spec fn first_with_key(es: Seq<JsonRep>, k: Seq<char>) -> Option<JsonRep>
    decreases es.len(),
{
    if es.len() == 0 {
        None
    } else {
        match rep_get(es[0], k) {
            Some(v) => Some(v),
            None => first_with_key(es.drop_first(), k),
        }
    }
}

/// What a usage reply document yields for a correlation id: the result set
/// under the id, mapped to samples in order; an absent path is the
/// malformed-reply error, a deformed entry the malformed-sample error, and
/// an empty-but-valid set a success of zero samples, never an error.
pub open spec fn usage_reply_spec(rep: JsonRep, rid: Seq<char>) -> Result<
    Seq<(Seq<char>, Seq<char>)>,
    QueryError,
> {
    match rep_get(rep, "data"@) {
        Some(JsonRep::Arr(es)) => match first_with_key(es, rid) {
            Some(JsonRep::Arr(ss)) => if all_samples_ok(ss) {
                Ok(samples_seq(ss))
            } else {
                Err(QueryError::MalformedSample)
            },
            Some(_) => Err(QueryError::MalformedReply),
            None => Err(QueryError::MalformedReply),
        },
        _ => Err(QueryError::MalformedReply),
    }
}

/// What parsing a usage reply body yields.
pub open spec fn parse_usage_spec(s: Seq<char>, rid: Seq<char>) -> Result<
    Seq<(Seq<char>, Seq<char>)>,
    QueryError,
> {
    match json_of(s) {
        None => Err(QueryError::MalformedReply),
        Some(rep) => usage_reply_spec(rep, rid),
    }
}

proof fn reveal_first_with_key_at(es: Seq<JsonRep>, i: int, k: Seq<char>)
    requires
        0 <= i < es.len(),
    ensures
        rep_get(es[i], k) is Some ==> first_with_key(es.skip(i), k) == rep_get(es[i], k),
        rep_get(es[i], k) is None ==> first_with_key(es.skip(i), k) == first_with_key(
            es.skip(i + 1),
            k,
        ),
{
    assert(es.skip(i).len() == es.len() - i);
    assert(es.skip(i)[0] == es[i]);
    assert(es.skip(i).drop_first() =~= es.skip(i + 1));
}

/// Parses the reply body of a usage query for the given correlation id,
/// keeping the provider's sample order.
pub fn parse_usage_reply(reply_body: &str, request_id: &String) -> (r: Result<
    Vec<UsageSample>,
    QueryError,
>)
    ensures
        match r {
            Ok(v) => parse_usage_spec(reply_body@, request_id@) matches Ok(ss) && v@.len()
                == ss.len() && (forall|i: int|
                0 <= i < ss.len() ==> (#[trigger] v@[i]).timestamp@ == ss[i].0 && v@[i].value_text@
                    == ss[i].1),
            Err(e) => parse_usage_spec(reply_body@, request_id@) == Err::<
                Seq<(Seq<char>, Seq<char>)>,
                QueryError,
            >(e),
        },
{
    let parsed = match parse_value(reply_body) {
        None => {
            return Err(QueryError::MalformedReply);
        },
        Some(v) => v,
    };
    let data_key: String = "data".to_owned();
    let data = match get_key(&parsed, &data_key) {
        None => {
            return Err(QueryError::MalformedReply);
        },
        Some(d) => d,
    };
    let arr = match value_as_array(&data) {
        None => {
            return Err(QueryError::MalformedReply);
        },
        Some(a) => a,
    };
    let ghost es = vals_rep(arr@);
    proof {
        assert(es.skip(0) =~= es);
    }
    let mut i: usize = 0;
    let mut found: Option<serde_json::Value> = None;
    while i < arr.len() && found.is_none()
        invariant
            i <= arr@.len(),
            es == vals_rep(arr@),
            es.len() == arr@.len(),
            match found {
                Some(w) => first_with_key(es, request_id@) == Some(value_rep(w)),
                None => first_with_key(es, request_id@) == first_with_key(
                    es.skip(i as int),
                    request_id@,
                ),
            },
        decreases arr@.len() - i,
    {
        proof {
            assert(es[i as int] == value_rep(arr@[i as int]));
            reveal_first_with_key_at(es, i as int, request_id@);
        }
        match get_key(&arr[i], request_id) {
            Some(w) => {
                found = Some(w);
            },
            None => {},
        }
        i = i + 1;
    }
    let setv = match found {
        None => {
            return Err(QueryError::MalformedReply);
        },
        Some(w) => w,
    };
    let samples = match value_as_array(&setv) {
        None => {
            return Err(QueryError::MalformedReply);
        },
        Some(ss) => ss,
    };
    let ghost sreps = vals_rep(samples@);
    let dt_key: String = "datetime".to_owned();
    let val_key: String = "value".to_owned();
    let mut out: Vec<UsageSample> = Vec::new();
    let mut j: usize = 0;
    while j < samples.len()
        invariant
            j <= samples@.len(),
            sreps == vals_rep(samples@),
            sreps.len() == samples@.len(),
            json_of(reply_body@) == Some(value_rep(parsed)),
            rep_get(value_rep(parsed), "data"@) == Some(value_rep(data)),
            value_rep(data) == JsonRep::Arr(es),
            first_with_key(es, request_id@) == Some(value_rep(setv)),
            value_rep(setv) == JsonRep::Arr(sreps),
            dt_key@ == "datetime"@,
            val_key@ == "value"@,
            out@.len() == j,
            forall|k: int|
                0 <= k < j ==> #[trigger] sample_of(sreps[k]) is Some && out@[k].timestamp@
                    == sample_fields(sreps[k]).0 && out@[k].value_text@ == sample_fields(sreps[k]).1,
        decreases samples@.len() - j,
    {
        proof {
            assert(sreps[j as int] == value_rep(samples@[j as int]));
        }
        let entry = &samples[j];
        let dt_val = match get_key(entry, &dt_key) {
            None => {
                proof {
                    assert(sample_of(sreps[j as int]) is None);
                    assert(!all_samples_ok(sreps));
                }
                return Err(QueryError::MalformedSample);
            },
            Some(w) => w,
        };
        let ts = match value_as_str(&dt_val) {
            None => {
                proof {
                    assert(sample_of(sreps[j as int]) is None);
                    assert(!all_samples_ok(sreps));
                }
                return Err(QueryError::MalformedSample);
            },
            Some(s) => s,
        };
        let vv = match get_key(entry, &val_key) {
            None => {
                proof {
                    assert(sample_of(sreps[j as int]) is None);
                    assert(!all_samples_ok(sreps));
                }
                return Err(QueryError::MalformedSample);
            },
            Some(w) => w,
        };
        let vt = match value_number_text(&vv) {
            None => {
                proof {
                    assert(sample_of(sreps[j as int]) is None);
                    assert(!all_samples_ok(sreps));
                }
                return Err(QueryError::MalformedSample);
            },
            Some(t) => t,
        };
        out.push(UsageSample { timestamp: ts, value_text: vt });
        j = j + 1;
    }
    proof {
        assert(all_samples_ok(sreps));
    }
    Ok(out)
}

} // verus!
