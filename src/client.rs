use vstd::prelude::*;
use vstd::string::*;

use crate::api::v1::{fields_view, WireField, WireValue, WireValueView};
use crate::api::APIVersion;
use crate::error::ClientError;
use crate::model::{format_model, parse_model, Model};
use crate::response::{get_str_member, str_member, Json};

verus! {

/// The base path of a service's API: `<api_url>/api/<version>`.
pub fn base_url(api_url: &str, version: APIVersion) -> (r: String)
    ensures
        r@ == api_url@ + "/api/"@ + "v1"@,
{
    let v = version.to_string();
    String::from_str(api_url).concat("/api/").concat(v.as_str())
}

/// `r` is what a version reply decodes to: its string `result`, or a
/// protocol error where there is none.
pub open spec fn version_result(body: Json, r: Result<String, ClientError>) -> bool {
    match str_member(body, "result"@) {
        Some(s) => r matches Ok(v) && v@ == s,
        None => r == Err::<String, ClientError>(ClientError::ProtocolError),
    }
}

/// Reads the version string from the reply to a version query.
pub fn version_from_reply(body: &Json) -> (r: Result<String, ClientError>)
    ensures
        version_result(*body, r),
{
    match get_str_member(body, "result") {
        Some(s) => Ok(s.clone()),
        None => Err(ClientError::ProtocolError),
    }
}

/// `r` is what a current-model reply decodes to: no model for the sentinel
/// `ReadOnly`, else the parsed `result`; a protocol error where there is no
/// string `result`, and an invalid identifier where it does not parse.
pub open spec fn model_result(body: Json, r: Result<Option<Model>, ClientError>) -> bool {
    match str_member(body, "result"@) {
        Some(s) => if s == "ReadOnly"@ {
            r == Ok::<Option<Model>, ClientError>(None)
        } else {
            match parse_model(s) {
                Some(m) => r matches Ok(Some(v)) && v@ == m,
                None => r == Err::<Option<Model>, ClientError>(
                    ClientError::InvalidModelIdentifier,
                ),
            }
        },
        None => r == Err::<Option<Model>, ClientError>(ClientError::ProtocolError),
    }
}

/// Reads the current model from the reply to a model query.
pub fn model_from_reply(body: &Json) -> (r: Result<Option<Model>, ClientError>)
    ensures
        model_result(*body, r),
{
    let s = match get_str_member(body, "result") {
        Some(s) => s,
        None => return Err(ClientError::ProtocolError),
    };
    if *s == String::from_str("ReadOnly") {
        return Ok(None);
    }
    match Model::parse(s.as_str()) {
        Ok(m) => Ok(Some(m)),
        Err(e) => Err(e),
    }
}

/// The character of a decimal digit.
pub open spec fn digit_char(d: nat) -> char {
    if d == 0 {
        '0'
    } else if d == 1 {
        '1'
    } else if d == 2 {
        '2'
    } else if d == 3 {
        '3'
    } else if d == 4 {
        '4'
    } else if d == 5 {
        '5'
    } else if d == 6 {
        '6'
    } else if d == 7 {
        '7'
    } else if d == 8 {
        '8'
    } else {
        '9'
    }
}

/// The decimal digits of a number, without leading zeros.
pub open spec fn decimal(n: nat) -> Seq<char>
    decreases n,
{
    if n < 10 {
        seq![digit_char(n)]
    } else {
        decimal(n / 10) + seq![digit_char(n % 10)]
    }
}

/// The numbers in decimal, separated by commas.
pub open spec fn join_decimal(s: Seq<u32>) -> Seq<char>
    decreases s.len(),
{
    if s.len() == 0 {
        seq![]
    } else if s.len() == 1 {
        decimal(s[0] as nat)
    } else {
        join_decimal(s.drop_last()) + seq![','] + decimal(s.last() as nat)
    }
}

fn digit_str(d: u32) -> (r: &'static str)
    requires
        d < 10,
    ensures
        r@ == seq![digit_char(d as nat)],
{
    let digits = "0123456789";
    proof {
        reveal_strlit("0123456789");
    }
    let r = digits.substring_char(d as usize, d as usize + 1);
    assert(r@ =~= seq![digit_char(d as nat)]);
    r
}

/// A number in decimal.
pub fn decimal_string(n: u32) -> (r: String)
    ensures
        r@ == decimal(n as nat),
    decreases n,
{
    if n < 10 {
        String::from_str(digit_str(n))
    } else {
        decimal_string(n / 10).concat(digit_str(n % 10))
    }
}

/// The numbers in decimal, separated by commas.
pub fn join_layers(layers: &Vec<u32>) -> (r: String)
    ensures
        r@ == join_decimal(layers@),
{
    let mut out = String::new();
    let mut i: usize = 0;
    proof {
        reveal_strlit(",");
    }
    while i < layers.len()
        invariant
            i <= layers@.len(),
            out@ == join_decimal(layers@.subrange(0, i as int)),
            ","@ == seq![','],
        decreases layers@.len() - i,
    {
        let d = decimal_string(layers[i]);
        let ghost prev = layers@.subrange(0, i as int);
        assert(layers@.subrange(0, i as int + 1).drop_last() =~= prev);
        if i > 0 {
            out.append(",");
        } else {
            assert(out@ =~= seq![]);
        }
        out.append(d.as_str());
        i = i + 1;
        assert(out@ =~= join_decimal(layers@.subrange(0, i as int)));
    }
    assert(layers@.subrange(0, layers@.len() as int) =~= layers@);
    out
}

/// The payload of a model load request: the model's wire string and the
/// layers to place on each GPU, in decimal and separated by commas.
pub fn load_model_payload(model: &Model, gpu_layers: &Vec<u32>) -> (r: Vec<WireField>)
    ensures
        fields_view(r@) == seq![
            ("model"@, WireValueView::Text(format_model(model@))),
            ("gpu_layers"@, WireValueView::Text(join_decimal(gpu_layers@))),
        ],
{
    let mut out: Vec<WireField> = Vec::new();
    out.push(
        WireField { key: String::from_str("model"), value: WireValue::Text(model.to_string()) },
    );
    out.push(
        WireField {
            key: String::from_str("gpu_layers"),
            value: WireValue::Text(join_layers(gpu_layers)),
        },
    );
    assert(fields_view(out@) =~= seq![
        ("model"@, WireValueView::Text(format_model(model@))),
        ("gpu_layers"@, WireValueView::Text(join_decimal(gpu_layers@))),
    ]);
    out
}

/// The outcome of a model load request: success on a success status, else a
/// failed request carrying the status. The reply body is never read.
pub fn load_model_outcome(status: u16) -> (r: Result<(), ClientError>)
    ensures
        200 <= status <= 299 ==> r == Ok::<(), ClientError>(()),
        !(200 <= status <= 299) ==> r == Err::<(), ClientError>(
            ClientError::RequestFailed { status },
        ),
{
    if crate::response::is_success(status) {
        Ok(())
    } else {
        Err(ClientError::RequestFailed { status })
    }
}

} // verus!
