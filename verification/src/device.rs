//! Device resolver: pick the single usage-reading device out of a
//! heterogeneous device list.

use vstd::prelude::*;

use crate::errors::DeviceError;
use crate::json::json_of;
use crate::json::parse_value;
use crate::json::rep_get;
use crate::json::get_key;
use crate::json::value_as_array;
use crate::json::value_as_i64;
use crate::json::value_as_str;
use crate::json::value_rep;
use crate::json::vals_rep;
use crate::json::JsonRep;

verus! {

/// The provider's numeric type tag for a usage-reading device.
pub const READER_DEVICE_TYPE: i64 = 2;

/// Whether a device entry carries the reader type tag.
pub open spec fn entry_is_reader(e: JsonRep) -> bool {
    match rep_get(e, "type"@) {
        Some(JsonRep::Num(Some(i), t)) => i == READER_DEVICE_TYPE,
        _ => false,
    }
}

/// The device id of an entry, when it is a string.
pub open spec fn entry_id(e: JsonRep) -> Option<Seq<char>> {
    match rep_get(e, "id"@) {
        Some(JsonRep::Text(s)) => Some(s),
        _ => None,
    }
}

/// How many entries carry the reader type tag.
pub open spec fn reader_count(es: Seq<JsonRep>) -> int
    decreases es.len(),
{
    if es.len() == 0 {
        0
    } else {
        (if entry_is_reader(es[0]) {
            1int
        } else {
            0int
        }) + reader_count(es.drop_first())
    }
}

/// The id of the first reader entry, when one exists and its id is a
/// string.
pub open spec fn first_reader_id(es: Seq<JsonRep>) -> Option<Seq<char>>
    decreases es.len(),
{
    if es.len() == 0 {
        None
    } else if entry_is_reader(es[0]) {
        entry_id(es[0])
    } else {
        first_reader_id(es.drop_first())
    }
}

/// What a devices reply document yields: exactly one reader device is owed;
/// zero and several are each their own error, and a missing or unshaped
/// list, or a sole reader without a string id, is the malformed-reply
/// error.
pub open spec fn devices_reply_spec(rep: JsonRep) -> Result<Seq<char>, DeviceError> {
    match rep_get(rep, "data"@) {
        Some(JsonRep::Arr(es)) => if reader_count(es) == 0 {
            Err(DeviceError::NoReaderDevice)
        } else if reader_count(es) > 1 {
            Err(DeviceError::AmbiguousDevice)
        } else {
            match first_reader_id(es) {
                Some(s) => Ok(s),
                None => Err(DeviceError::MalformedReply),
            }
        },
        _ => Err(DeviceError::MalformedReply),
    }
}

/// What resolving from a reply body yields.
pub open spec fn resolve_device_spec(s: Seq<char>) -> Result<Seq<char>, DeviceError> {
    match json_of(s) {
        None => Err(DeviceError::MalformedReply),
        Some(rep) => devices_reply_spec(rep),
    }
}

proof fn reveal_readers_at(es: Seq<JsonRep>, i: int)
    requires
        0 <= i < es.len(),
    ensures
        reader_count(es.skip(i)) == (if entry_is_reader(es[i]) {
            1int
        } else {
            0int
        }) + reader_count(es.skip(i + 1)),
        entry_is_reader(es[i]) ==> first_reader_id(es.skip(i)) == entry_id(es[i]),
        !entry_is_reader(es[i]) ==> first_reader_id(es.skip(i)) == first_reader_id(es.skip(i + 1)),
{
    assert(es.skip(i).len() == es.len() - i);
    assert(es.skip(i)[0] == es[i]);
    assert(es.skip(i).drop_first() =~= es.skip(i + 1));
}

fn entry_is_reader_exec(v: &serde_json::Value) -> (r: bool)
    ensures
        r == entry_is_reader(value_rep(*v)),
{
    let key: String = "type".to_owned();
    match get_key(v, &key) {
        None => false,
        Some(w) => match value_as_i64(&w) {
            None => false,
            Some(i) => i == READER_DEVICE_TYPE,
        },
    }
}

/// Resolves the sole reader device's id from the devices endpoint's reply
/// body.
pub fn resolve_device(reply_body: &str) -> (r: Result<String, DeviceError>)
    ensures
        match r {
            Ok(id) => resolve_device_spec(reply_body@) == Ok::<Seq<char>, DeviceError>(id@),
            Err(e) => resolve_device_spec(reply_body@) == Err::<Seq<char>, DeviceError>(e),
        },
{
    let parsed = match parse_value(reply_body) {
        None => {
            return Err(DeviceError::MalformedReply);
        },
        Some(v) => v,
    };
    let data_key: String = "data".to_owned();
    let data = match get_key(&parsed, &data_key) {
        None => {
            return Err(DeviceError::MalformedReply);
        },
        Some(d) => d,
    };
    let arr = match value_as_array(&data) {
        None => {
            return Err(DeviceError::MalformedReply);
        },
        Some(a) => a,
    };
    let ghost es = vals_rep(arr@);
    proof {
        assert(es.skip(0) =~= es);
    }
    let mut count: usize = 0;
    let mut first: Option<usize> = None;
    let mut i: usize = 0;
    while i < arr.len()
        invariant
            i <= arr@.len(),
            es == vals_rep(arr@),
            es.len() == arr@.len(),
            count <= i,
            reader_count(es) == count + reader_count(es.skip(i as int)),
            match first {
                Some(j) => count > 0 && j < i && entry_is_reader(es[j as int]) && first_reader_id(
                    es,
                ) == entry_id(es[j as int]),
                None => count == 0 && first_reader_id(es) == first_reader_id(es.skip(i as int)),
            },
        decreases arr@.len() - i,
    {
        proof {
            assert(es[i as int] == value_rep(arr@[i as int]));
            reveal_readers_at(es, i as int);
        }
        if entry_is_reader_exec(&arr[i]) {
            if first.is_none() {
                first = Some(i);
            }
            count = count + 1;
        }
        i = i + 1;
    }
    proof {
        assert(es.skip(es.len() as int).len() == 0);
        assert(reader_count(es.skip(es.len() as int)) == 0);
        assert(first_reader_id(es.skip(es.len() as int)) is None);
    }
    if count == 0 {
        return Err(DeviceError::NoReaderDevice);
    }
    if count > 1 {
        return Err(DeviceError::AmbiguousDevice);
    }
    let j = match first {
        None => {
            return Err(DeviceError::NoReaderDevice);
        },
        Some(j) => j,
    };
    let id_key: String = "id".to_owned();
    let id_val = match get_key(&arr[j], &id_key) {
        None => {
            return Err(DeviceError::MalformedReply);
        },
        Some(w) => w,
    };
    match value_as_str(&id_val) {
        None => Err(DeviceError::MalformedReply),
        Some(s) => Ok(s),
    }
}

} // verus!
