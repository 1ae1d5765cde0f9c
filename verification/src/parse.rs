//! The parser/validator: a total function from raw bytes to a validated
//! [`Request`] or a standard [`ErrorData`].

use crate::codec::{
    has_zero_digit_run, json_err_of, json_of, parse_text, text_of_bytes, utf8_err_of, zero_run_at,
    ZERO_DIGIT_RUN_LIMIT,
};
use crate::convention::{reserved_message, ErrorData, Request, JSONRPC_VERSION};
use crate::value::{
    field_models_of, lemma_field_models_of, lookup, models_of, opt_model, JsonModel, JsonVal,
};
use vstd::prelude::*;

verus! {

broadcast use vstd::seq::group_seq_axioms, vstd::std_specs::vec::group_vec_axioms;

/// The outcome owed for a decoded document: the method, params and id of a
/// structurally valid request object, or the reserved code it is rejected
/// with.  The checks run in protocol order: object shape, then `jsonrpc`,
/// then `id` presence, then `method`, then `params`.
pub open spec fn validate(doc: JsonModel) -> Result<(Seq<char>, Seq<JsonModel>, JsonModel), int> {
    match doc {
        JsonModel::Obj(members) => {
            if lookup(members, "jsonrpc"@) != Some(JsonModel::Str("2.0"@)) {
                Err(-32600)
            } else if !(lookup(members, "id"@) is Some) {
                Err(-32600)
            } else {
                match lookup(members, "method"@) {
                    Some(JsonModel::Str(method)) => match lookup(members, "params"@) {
                        Some(JsonModel::Arr(params)) => Ok(
                            (method, params, lookup(members, "id"@)->0),
                        ),
                        _ => Err(-32602),
                    },
                    _ => Err(-32601),
                }
            }
        },
        _ => Err(-32600),
    }
}

/// The description attached when a payload is refused for a zero-digit run
/// that the JSON number parser could not take safely.
pub const ZERO_RUN_DESCRIPTION: &'static str = "number holds too long a run of zero digits";

/// A decoding failure as the parser reports it: the reserved parse-error
/// code and message, with the decoder's `description` attached as a string.
pub open spec fn is_parse_failure(e: ErrorData, description: Seq<char>) -> bool {
    &&& e.code == -32700
    &&& e.message@ == reserved_message(-32700)
    &&& e.data.model() == JsonModel::Str(description)
}

/// A structural rejection: the reserved `code`, its canonical message, and
/// no extra data.
pub open spec fn is_rejection(e: ErrorData, code: int) -> bool {
    &&& e.code as int == code
    &&& e.message@ == reserved_message(code)
    &&& e.data.model() == JsonModel::Null
}

/// A request as validation hands it out: version `"2.0"`, and the method,
/// params and id the document carried.
pub open spec fn is_validated(
    req: Request,
    method: Seq<char>,
    params: Seq<JsonModel>,
    id: JsonModel,
) -> bool {
    &&& req.jsonrpc@ == "2.0"@
    &&& req.method@ == method
    &&& models_of(req.params@) == params
    &&& req.id.model() == id
}

/// Any document that is not an object is rejected as an invalid request,
/// whatever it holds.
pub proof fn lemma_non_object_rejected(doc: JsonModel)
    requires
        !(doc is Obj),
    ensures
        (validate(doc) matches Err(code) && code == -32600),
{
}

/// An object whose `jsonrpc` member is missing or is anything but the string
/// `"2.0"` is rejected as an invalid request, whatever else it holds.
pub proof fn lemma_wrong_version_rejected(members: Seq<(Seq<char>, JsonModel)>)
    requires
        lookup(members, "jsonrpc"@) != Some(JsonModel::Str("2.0"@)),
    ensures
        (validate(JsonModel::Obj(members)) matches Err(code) && code == -32600),
{
}

/// An otherwise well-versioned object whose `method` member is missing or
/// not a string is rejected as method-not-found, whatever its `params`
/// member holds: the method check precedes the params check.
pub proof fn lemma_bad_method_rejected(members: Seq<(Seq<char>, JsonModel)>)
    requires
        lookup(members, "jsonrpc"@) == Some(JsonModel::Str("2.0"@)),
        lookup(members, "id"@) is Some,
        !(lookup(members, "method"@) matches Some(JsonModel::Str(_))),
    ensures
        (validate(JsonModel::Obj(members)) matches Err(code) && code == -32601),
{
}

/// An object with a valid version, an `id` and a string `method`, but whose
/// `params` member is missing or not an array, is rejected as
/// invalid-params.
pub proof fn lemma_bad_params_rejected(members: Seq<(Seq<char>, JsonModel)>)
    requires
        lookup(members, "jsonrpc"@) == Some(JsonModel::Str("2.0"@)),
        lookup(members, "id"@) is Some,
        (lookup(members, "method"@) matches Some(JsonModel::Str(_))),
        !(lookup(members, "params"@) matches Some(JsonModel::Arr(_))),
    ensures
        (validate(JsonModel::Obj(members)) matches Err(code) && code == -32602),
{
}

/// Parses an inbound payload into a validated request, or the standard
/// error the protocol owes for it: parse error on bytes that are not UTF-8,
/// on a zero-digit run the number parser could not take safely, or on text
/// that is not JSON — each with the decoder's description attached — and
/// the reserved rejection [`validate`] gives otherwise.
pub fn parse(data: &[u8]) -> (r: Result<Request, ErrorData>)
    ensures
        !vstd::utf8::valid_utf8(data@) ==> (r matches Err(e) && is_parse_failure(
            e,
            utf8_err_of(data@),
        )),
        vstd::utf8::valid_utf8(data@) && has_zero_digit_run(data@) ==> (r matches Err(e)
            && is_parse_failure(e, ZERO_RUN_DESCRIPTION@)),
        vstd::utf8::valid_utf8(data@) && !has_zero_digit_run(data@) ==> match json_of(
            vstd::utf8::decode_utf8(data@),
        ) {
            None => r matches Err(e) && is_parse_failure(
                e,
                json_err_of(vstd::utf8::decode_utf8(data@)),
            ),
            Some(doc) => match validate(doc) {
                Ok((method, params, id)) => r matches Ok(req) && is_validated(
                    req,
                    method,
                    params,
                    id,
                ),
                Err(code) => r matches Err(e) && is_rejection(e, code),
            },
        },
{
    let text = match text_of_bytes(data) {
        Ok(t) => t,
        Err(description) => {
            return Err(parse_failure(description));
        },
    };
    if scan_zero_digit_run(data) {
        return Err(parse_failure(ZERO_RUN_DESCRIPTION.to_owned()));
    }
    proof {
        vstd::utf8::decode_utf8_encode_utf8(data@);
    }
    let doc = match parse_text(text) {
        Ok(v) => v,
        Err(description) => {
            return Err(parse_failure(description));
        },
    };
    let ghost doc_model = doc.model();
    let members = match doc {
        JsonVal::Obj(members) => members,
        _ => {
            return Err(ErrorData::standard(-32600));
        },
    };
    let (m_jsonrpc, m_id, m_method, m_params) = take_members(members);
    let version_ok = match &m_jsonrpc {
        Some(JsonVal::Str(s)) => *s == JSONRPC_VERSION.to_owned(),
        _ => false,
    };
    if !version_ok {
        return Err(ErrorData::standard(-32600));
    }
    let id = match m_id {
        Some(v) => v,
        None => {
            return Err(ErrorData::standard(-32600));
        },
    };
    let method = match m_method {
        Some(JsonVal::Str(m)) => m,
        _ => {
            return Err(ErrorData::standard(-32601));
        },
    };
    let params = match m_params {
        Some(JsonVal::Arr(items)) => items,
        _ => {
            return Err(ErrorData::standard(-32602));
        },
    };
    Ok(Request { jsonrpc: JSONRPC_VERSION.to_owned(), method, params, id })
}

/// The parse-error envelope for a decoder's failure description.
fn parse_failure(description: String) -> (e: ErrorData)
    ensures
        is_parse_failure(e, description@),
{
    let mut e = ErrorData::standard(-32700);
    e.data = JsonVal::Str(description);
    e
}

/// Whether the payload holds a run of zero digits long enough to be kept
/// away from the JSON number parser (see
/// [`crate::codec::ZERO_DIGIT_RUN_LIMIT`]).
fn scan_zero_digit_run(data: &[u8]) -> (r: bool)
    ensures
        r == has_zero_digit_run(data@),
{
    let mut i: usize = 0;
    let mut run: usize = 0;
    while i < data.len()
        invariant
            i <= data@.len(),
            run <= i,
            run < ZERO_DIGIT_RUN_LIMIT,
            forall|k: int| i - run <= k < i ==> data@[k] == 48,
            run < i ==> data@[i - run - 1] != 48,
            !has_zero_digit_run(data@.take(i as int)),
        decreases data@.len() - i,
    {
        if data[i] == 48 {
            if run + 1 >= ZERO_DIGIT_RUN_LIMIT {
                proof {
                    let start = i as int + 1 - ZERO_DIGIT_RUN_LIMIT as int;
                    assert(zero_run_at(data@, start));
                }
                return true;
            }
            run = run + 1;
        } else {
            run = 0;
        }
        proof {
            let t1 = data@.take(i as int + 1);
            assert forall|start: int| !zero_run_at(t1, start) by {
                if zero_run_at(t1, start) {
                    if start + ZERO_DIGIT_RUN_LIMIT as int <= i as int {
                        assert(forall|k: int|
                            start <= k < start + ZERO_DIGIT_RUN_LIMIT as int
                                ==> data@.take(i as int)[k] == t1[k]);
                        assert(zero_run_at(data@.take(i as int), start));
                    } else {
                        // the run would end at i, where either the byte is
                        // not a zero digit or the live run is still short
                        if data@[i as int] == 48 {
                            assert(t1[i as int - run as int] != 48);
                        } else {
                            assert(t1[i as int] != 48);
                        }
                    }
                }
            }
        }
        i = i + 1;
    }
    proof {
        assert(data@.take(i as int) =~= data@);
    }
    false
}

/// Takes an object's members apart: the values under `jsonrpc`, `id`,
/// `method` and `params`, each as the first member of that name, owned.
fn take_members(fields: Vec<(String, JsonVal)>) -> (r: (
    Option<JsonVal>,
    Option<JsonVal>,
    Option<JsonVal>,
    Option<JsonVal>,
))
    ensures
        opt_model(r.0) == lookup(field_models_of(fields@), "jsonrpc"@),
        opt_model(r.1) == lookup(field_models_of(fields@), "id"@),
        opt_model(r.2) == lookup(field_models_of(fields@), "method"@),
        opt_model(r.3) == lookup(field_models_of(fields@), "params"@),
{
    let ghost all = fields@;
    let ghost members = field_models_of(all);
    let mut rest = fields;
    let mut m_jsonrpc: Option<JsonVal> = None;
    let mut m_id: Option<JsonVal> = None;
    let mut m_method: Option<JsonVal> = None;
    let mut m_params: Option<JsonVal> = None;
    proof {
        lemma_field_models_of(all);
        assert(rest@ =~= all.take(rest@.len() as int));
        assert(members.skip(rest@.len() as int) =~= Seq::<(Seq<char>, JsonModel)>::empty());
    }
    while rest.len() > 0
        invariant
            members == field_models_of(all),
            members.len() == all.len(),
            rest@.len() <= all.len(),
            rest@ == all.take(rest@.len() as int),
            opt_model(m_jsonrpc) == lookup(members.skip(rest@.len() as int), "jsonrpc"@),
            opt_model(m_id) == lookup(members.skip(rest@.len() as int), "id"@),
            opt_model(m_method) == lookup(members.skip(rest@.len() as int), "method"@),
            opt_model(m_params) == lookup(members.skip(rest@.len() as int), "params"@),
        decreases rest@.len(),
    {
        let ghost n = rest@.len() as int;
        let member = rest.pop().unwrap();
        let (key, val) = member;
        let ghost keyv = key@;
        let ghost valm = val.model();
        proof {
            lemma_field_models_of(all);
            reveal_strlit("jsonrpc");
            reveal_strlit("id");
            reveal_strlit("method");
            reveal_strlit("params");
            assert("jsonrpc"@.len() == 7);
            assert("id"@.len() == 2);
            assert("method"@.len() == 6);
            assert("params"@.len() == 6);
            assert("method"@[0] == 'm');
            assert("params"@[0] == 'p');
            assert("method"@ != "params"@);
            assert(all.take(n)[n - 1] == all[n - 1]);
            assert(members[n - 1] == (keyv, valm));
            assert(members.skip(n - 1)[0] == members[n - 1]);
            assert(members.skip(n - 1).drop_first() =~= members.skip(n));
            assert(rest@ =~= all.take(n - 1));
        }
        if key == "jsonrpc".to_owned() {
            m_jsonrpc = Some(val);
        } else if key == "id".to_owned() {
            m_id = Some(val);
        } else if key == "method".to_owned() {
            m_method = Some(val);
        } else if key == "params".to_owned() {
            m_params = Some(val);
        }
    }
    proof {
        assert(members.skip(0) =~= members);
    }
    (m_jsonrpc, m_id, m_method, m_params)
}

} // verus!
