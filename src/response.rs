use vstd::prelude::*;
use vstd::string::*;

use crate::error::{ClientError, ErrorKind};

verus! {

/// A JSON document as the service sends it. Numbers keep their literal text;
/// an object keeps its members in order.
#[derive(Debug, PartialEq, Eq)]
pub enum Json {
    Null,
    Bool(bool),
    Number(String),
    Str(String),
    Array(Vec<Json>),
    Object(Vec<(String, Json)>),
}

/// The value of the first member named `key`, from position `i` on.
pub open spec fn lookup_from(m: Seq<(String, Json)>, key: Seq<char>, i: int) -> Option<Json>
    decreases m.len() - i,
{
    if 0 <= i < m.len() {
        if m[i].0@ == key {
            Some(m[i].1)
        } else {
            lookup_from(m, key, i + 1)
        }
    } else {
        None
    }
}

/// The member `key` of an object; none for a value that is not an object.
pub open spec fn member(j: Json, key: Seq<char>) -> Option<Json> {
    match j {
        Json::Object(m) => lookup_from(m@, key, 0),
        _ => None,
    }
}

/// The string member `key` of an object, where there is one.
pub open spec fn str_member(j: Json, key: Seq<char>) -> Option<Seq<char>> {
    match member(j, key) {
        Some(Json::Str(s)) => Some(s@),
        _ => None,
    }
}

/// The texts of a sequence of strings.
pub open spec fn strings_view(s: Seq<String>) -> Seq<Seq<char>> {
    s.map_values(|x: String| x@)
}

/// The items of a success reply's `results` array.
pub open spec fn result_items(body: Json) -> Option<Seq<Json>> {
    match member(body, "results"@) {
        Some(Json::Array(a)) => Some(a@),
        _ => None,
    }
}

/// What a success reply decodes to: the `text` of each item of `results`, in
/// order; none where the reply does not have that shape.
pub open spec fn success_texts(body: Json) -> Option<Seq<Seq<char>>> {
    match result_items(body) {
        Some(items) => if forall|i: int|
            0 <= i < items.len() ==> (#[trigger] str_member(items[i], "text"@)) is Some {
            Some(items.map_values(|x: Json| str_member(x, "text"@)->0))
        } else {
            None
        },
        None => None,
    }
}

/// The error kind that a wire name stands for.
pub open spec fn error_kind_of(t: Seq<char>) -> Option<ErrorKind> {
    if t == "not_implemented"@ {
        Some(ErrorKind::NotImplemented)
    } else if t == "service_unavailable"@ {
        Some(ErrorKind::ServiceUnavailable)
    } else if t == "out_of_memory.cpu.default_cpu_allocator"@ || t == "out_of_memory.gpu.cuda"@
        || t == "out_of_memory.gpu.hip"@ || t == "out_of_memory.tpu.hbm"@
        || t == "out_of_memory.unknown.unknown"@ {
        Some(ErrorKind::OutOfMemory)
    } else {
        None
    }
}

/// The `type` and `msg` of a failure reply's `detail` object.
pub open spec fn failure_detail(body: Json) -> Option<(Seq<char>, Seq<char>)> {
    match member(body, "detail"@) {
        Some(d) => match (str_member(d, "type"@), str_member(d, "msg"@)) {
            (Some(t), Some(m)) => Some((t, m)),
            _ => None,
        },
        None => None,
    }
}

/// `e` is what a failure reply decodes to: a service error of the named kind
/// with the message verbatim, or a decode error where the reply does not have
/// that shape or names an unknown kind.
pub open spec fn failure_error(body: Json, e: ClientError) -> bool {
    match failure_detail(body) {
        Some((t, m)) => match error_kind_of(t) {
            Some(k) => e matches ClientError::ServiceError { kind, message } && kind == k
                && message@ == m,
            None => e == ClientError::DecodeError,
        },
        None => e == ClientError::DecodeError,
    }
}

/// `r` is what a success reply decodes to.
pub open spec fn success_result(body: Json, r: Result<Vec<String>, ClientError>) -> bool {
    match success_texts(body) {
        Some(t) => r matches Ok(v) && strings_view(v@) == t,
        None => r == Err::<Vec<String>, ClientError>(ClientError::DecodeError),
    }
}

/// A status in the success range 200 to 299.
pub open spec fn is_success_status(status: u16) -> bool {
    200 <= status <= 299
}

/// Whether a status is in the success range.
pub fn is_success(status: u16) -> (r: bool)
    ensures
        r == is_success_status(status),
{
    200 <= status && status <= 299
}

/// The member `key` of an object: the first one of that name.
pub fn get_member<'a>(j: &'a Json, key: &str) -> (r: Option<&'a Json>)
    ensures
        match member(*j, key@) {
            Some(v) => r matches Some(x) && *x == v,
            None => r is None,
        },
{
    match j {
        Json::Object(m) => {
            let k = String::from_str(key);
            let mut i: usize = 0;
            while i < m.len()
                invariant
                    i <= m@.len(),
                    k@ == key@,
                    member(*j, key@) == lookup_from(m@, key@, 0),
                    lookup_from(m@, key@, 0) == lookup_from(m@, key@, i as int),
                decreases m@.len() - i,
            {
                if m[i].0 == k {
                    return Some(&m[i].1);
                }
                i = i + 1;
            }
            None
        },
        _ => None,
    }
}

/// The string member `key` of an object.
pub fn get_str_member<'a>(j: &'a Json, key: &str) -> (r: Option<&'a String>)
    ensures
        match str_member(*j, key@) {
            Some(s) => r matches Some(x) && x@ == s,
            None => r is None,
        },
{
    match get_member(j, key) {
        Some(Json::Str(s)) => Some(s),
        _ => None,
    }
}

/// The error kind named by a wire string, if it is a known one.
pub fn error_kind_from_wire(t: &String) -> (r: Option<ErrorKind>)
    ensures
        r == error_kind_of(t@),
{
    if *t == String::from_str("not_implemented") {
        Some(ErrorKind::NotImplemented)
    } else if *t == String::from_str("service_unavailable") {
        Some(ErrorKind::ServiceUnavailable)
    } else if *t == String::from_str("out_of_memory.cpu.default_cpu_allocator") || *t
        == String::from_str("out_of_memory.gpu.cuda") || *t == String::from_str(
        "out_of_memory.gpu.hip",
    ) || *t == String::from_str("out_of_memory.tpu.hbm") || *t == String::from_str(
        "out_of_memory.unknown.unknown",
    ) {
        Some(ErrorKind::OutOfMemory)
    } else {
        None
    }
}

/// Decodes a success reply `{"results": [{"text": ...}, ...]}` into its
/// texts, in order.
pub fn decode_results(body: &Json) -> (r: Result<Vec<String>, ClientError>)
    ensures
        success_result(*body, r),
{
    let items = match get_member(body, "results") {
        Some(Json::Array(a)) => a,
        _ => return Err(ClientError::DecodeError),
    };
    let mut out: Vec<String> = Vec::new();
    let mut i: usize = 0;
    while i < items.len()
        invariant
            i <= items@.len(),
            result_items(*body) == Some(items@),
            out@.len() == i,
            forall|j: int|
                0 <= j < i ==> (#[trigger] str_member(items@[j], "text"@)) == Some(out@[j]@),
        decreases items@.len() - i,
    {
        match get_str_member(&items[i], "text") {
            Some(s) => out.push(s.clone()),
            None => {
                return Err(ClientError::DecodeError);
            },
        }
        i = i + 1;
    }
    proof {
        assert(strings_view(out@) =~= items@.map_values(|x: Json| str_member(x, "text"@)->0));
    }
    Ok(out)
}

/// Decodes a failure reply `{"detail": {"type": ..., "msg": ...}}` into the
/// error that it reports.
pub fn decode_failure(body: &Json) -> (r: ClientError)
    ensures
        failure_error(*body, r),
{
    let detail = match get_member(body, "detail") {
        Some(d) => d,
        None => return ClientError::DecodeError,
    };
    let t = match get_str_member(detail, "type") {
        Some(t) => t,
        None => return ClientError::DecodeError,
    };
    let m = match get_str_member(detail, "msg") {
        Some(m) => m,
        None => return ClientError::DecodeError,
    };
    match error_kind_from_wire(t) {
        Some(kind) => ClientError::ServiceError { kind, message: m.clone() },
        None => ClientError::DecodeError,
    }
}

/// Decodes the reply to a generation request: the texts on a success status,
/// the reported error on any other.
pub fn decode_generation(status: u16, body: &Json) -> (r: Result<Vec<String>, ClientError>)
    ensures
        is_success_status(status) ==> success_result(*body, r),
        !is_success_status(status) ==> (r matches Err(e) && failure_error(*body, e)),
{
    if is_success(status) {
        decode_results(body)
    } else {
        Err(decode_failure(body))
    }
}

} // verus!
