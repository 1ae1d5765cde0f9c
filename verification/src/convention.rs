//! The three JSON-RPC 2.0 wire entities and their canonical JSON projection.

use crate::codec::{dump_of, dump_text};
use crate::value::{
    clone_items, field_models_of, lemma_field_models_of, lookup, models_of, JsonModel, JsonVal,
};
use vstd::prelude::*;

verus! {

/// The protocol version this crate speaks.
pub const JSONRPC_VERSION: &'static str = "2.0";

/// Whether `code` is one of the five reserved JSON-RPC error codes.
pub open spec fn is_reserved_code(code: int) -> bool {
    code == -32700 || code == -32600 || code == -32601 || code == -32602 || code == -32603
}

/// The canonical message bound to a reserved error code.
pub open spec fn reserved_message(code: int) -> Seq<char>
    recommends
        is_reserved_code(code),
{
    if code == -32700 {
        "Parse error"@
    } else if code == -32600 {
        "Invalid Request"@
    } else if code == -32601 {
        "Method not found"@
    } else if code == -32602 {
        "Invalid params"@
    } else {
        "Internal error"@
    }
}

/// The JSON number a 32-bit integer prints as: sign and magnitude, with
/// exponent zero.
pub open spec fn int_code_model(code: int) -> JsonModel {
    JsonModel::Num(code >= 0, (if code >= 0 { code } else { -code }) as u64, 0)
}

/// The error member of a failed call: a code, a short message, and optional
/// diagnostic data (`Null` when absent).
#[derive(Debug)]
pub struct ErrorData {
    pub code: i32,
    pub message: String,
    pub data: JsonVal,
}

impl ErrorData {
    /// The document this error projects to: its code, message and data, in
    /// that order.
    pub open spec fn json_model(self) -> JsonModel {
        JsonModel::Obj(
            seq![
                ("code"@, int_code_model(self.code as int)),
                ("message"@, JsonModel::Str(self.message@)),
                ("data"@, self.data.model()),
            ],
        )
    }

    /// An application-defined error with a caller-chosen code and message.
    pub fn new(code: i32, message: &str) -> (r: ErrorData)
        ensures
            r.code == code,
            r.message@ == message@,
            r.data.model() == JsonModel::Null,
    {
        ErrorData { code, message: message.to_owned(), data: JsonVal::Null }
    }

    /// The canonical error for one of the five reserved codes.  Handing it a
    /// code outside that set is a caller defect, ruled out up front.
    pub fn standard(code: i32) -> (r: ErrorData)
        requires
            is_reserved_code(code as int),
        ensures
            r.code == code,
            r.message@ == reserved_message(code as int),
            r.data.model() == JsonModel::Null,
    {
        if code == -32700 {
            ErrorData::new(-32700, "Parse error")
        } else if code == -32600 {
            ErrorData::new(-32600, "Invalid Request")
        } else if code == -32601 {
            ErrorData::new(-32601, "Method not found")
        } else if code == -32602 {
            ErrorData::new(-32602, "Invalid params")
        } else {
            ErrorData::new(-32603, "Internal error")
        }
    }

    /// The value as a JSON object.
    pub fn json(&self) -> (r: JsonVal)
        ensures
            r.model() == self.json_model(),
    {
        let positive = self.code >= 0;
        let magnitude: u64 = if positive {
            self.code as u64
        } else {
            (-(self.code as i64)) as u64
        };
        let mut fields: Vec<(String, JsonVal)> = Vec::new();
        fields.push(("code".to_owned(), JsonVal::Num(positive, magnitude, 0)));
        fields.push(("message".to_owned(), JsonVal::Str(self.message.clone())));
        fields.push(("data".to_owned(), self.data.deep_clone()));
        let ghost members = fields@;
        let r = JsonVal::Obj(fields);
        proof {
            lemma_field_models_of(members);
            assert(field_models_of(members) =~= seq![
                ("code"@, int_code_model(self.code as int)),
                ("message"@, JsonModel::Str(self.message@)),
                ("data"@, self.data.model()),
            ]);
        }
        r
    }

    /// The value as JSON text.
    pub fn dump(&self) -> (r: String)
        ensures
            r@ == dump_of(self.json_model()),
    {
        let j = self.json();
        dump_text(&j)
    }
}

/// A call as the parser validated it.
#[derive(Debug)]
pub struct Request {
    /// The protocol version; always exactly `"2.0"`.
    pub jsonrpc: String,
    /// The name of the operation to invoke.
    pub method: String,
    /// The ordered arguments of the call, possibly empty.
    pub params: Vec<JsonVal>,
    /// The caller's identifier, echoed back in the response.
    pub id: JsonVal,
}

impl Request {
    /// The document this request projects to.
    pub open spec fn json_model(self) -> JsonModel {
        JsonModel::Obj(
            seq![
                ("jsonrpc"@, JsonModel::Str(self.jsonrpc@)),
                ("method"@, JsonModel::Str(self.method@)),
                ("params"@, JsonModel::Arr(models_of(self.params@))),
                ("id"@, self.id.model()),
            ],
        )
    }

    /// The value as a JSON object.
    pub fn json(&self) -> (r: JsonVal)
        ensures
            r.model() == self.json_model(),
    {
        let mut fields: Vec<(String, JsonVal)> = Vec::new();
        fields.push(("jsonrpc".to_owned(), JsonVal::Str(self.jsonrpc.clone())));
        fields.push(("method".to_owned(), JsonVal::Str(self.method.clone())));
        fields.push(("params".to_owned(), JsonVal::Arr(clone_items(&self.params))));
        fields.push(("id".to_owned(), self.id.deep_clone()));
        let ghost members = fields@;
        let r = JsonVal::Obj(fields);
        proof {
            lemma_field_models_of(members);
            assert(field_models_of(members) =~= seq![
                ("jsonrpc"@, JsonModel::Str(self.jsonrpc@)),
                ("method"@, JsonModel::Str(self.method@)),
                ("params"@, JsonModel::Arr(models_of(self.params@))),
                ("id"@, self.id.model()),
            ]);
        }
        r
    }

    /// The value as JSON text.
    pub fn dump(&self) -> (r: String)
        ensures
            r@ == dump_of(self.json_model()),
    {
        let j = self.json();
        dump_text(&j)
    }
}

/// The reply to a call: a result, an optional error, and the originating
/// call's id.
#[derive(Debug)]
pub struct Response {
    /// The protocol version; always exactly `"2.0"`.
    pub jsonrpc: String,
    /// The invoked operation's result; JSON null when the call failed.
    pub result: JsonVal,
    /// The error of a failed call, absent on success.
    pub error: Option<ErrorData>,
    /// The originating request's id, or JSON null when it could not be
    /// determined.
    pub id: JsonVal,
}

impl Response {
    /// The document this response projects to.  `result` is always present
    /// (null on failure); `error` is present only when the call failed.
    pub open spec fn json_model(self) -> JsonModel {
        match self.error {
            None => JsonModel::Obj(
                seq![
                    ("jsonrpc"@, JsonModel::Str("2.0"@)),
                    ("result"@, self.result.model()),
                    ("id"@, self.id.model()),
                ],
            ),
            Some(e) => JsonModel::Obj(
                seq![
                    ("jsonrpc"@, JsonModel::Str("2.0"@)),
                    ("result"@, self.result.model()),
                    ("error"@, e.json_model()),
                    ("id"@, self.id.model()),
                ],
            ),
        }
    }

    /// The envelope for a dispatch outcome: the result of a successful call,
    /// or null plus the error of a failed one, under the originating id.
    pub fn of_outcome(id: JsonVal, outcome: Result<JsonVal, ErrorData>) -> (r: Response)
        ensures
            r.jsonrpc@ == "2.0"@,
            r.id == id,
            match outcome {
                Ok(v) => r.result == v && r.error is None,
                Err(e) => r.result == JsonVal::Null && r.error == Some(e),
            },
    {
        match outcome {
            Ok(v) => Response { jsonrpc: JSONRPC_VERSION.to_owned(), result: v, error: None, id },
            Err(e) => Response {
                jsonrpc: JSONRPC_VERSION.to_owned(),
                result: JsonVal::Null,
                error: Some(e),
                id,
            },
        }
    }

    /// The value as a JSON object.
    pub fn json(&self) -> (r: JsonVal)
        ensures
            r.model() == self.json_model(),
    {
        let mut fields: Vec<(String, JsonVal)> = Vec::new();
        fields.push(("jsonrpc".to_owned(), JsonVal::Str(JSONRPC_VERSION.to_owned())));
        fields.push(("result".to_owned(), self.result.deep_clone()));
        if let Some(e) = &self.error {
            fields.push(("error".to_owned(), e.json()));
        }
        fields.push(("id".to_owned(), self.id.deep_clone()));
        let ghost members = fields@;
        let r = JsonVal::Obj(fields);
        proof {
            lemma_field_models_of(members);
            match &self.error {
                None => {
                    assert(field_models_of(members) =~= seq![
                        ("jsonrpc"@, JsonModel::Str("2.0"@)),
                        ("result"@, self.result.model()),
                        ("id"@, self.id.model()),
                    ]);
                },
                Some(e) => {
                    assert(field_models_of(members) =~= seq![
                        ("jsonrpc"@, JsonModel::Str("2.0"@)),
                        ("result"@, self.result.model()),
                        ("error"@, e.json_model()),
                        ("id"@, self.id.model()),
                    ]);
                },
            }
        }
        r
    }

    /// The value as JSON text.
    pub fn dump(&self) -> (r: String)
        ensures
            r@ == dump_of(self.json_model()),
    {
        let j = self.json();
        dump_text(&j)
    }
}

/// Projecting any response to JSON echoes the response's id exactly, as the
/// object's `id` member: in particular, a response built from a successfully
/// parsed request under that request's id echoes the caller's id.
pub proof fn lemma_response_echoes_id(resp: Response)
    ensures
        resp.json_model() matches JsonModel::Obj(members) && lookup(members, "id"@) == Some(
            resp.id.model(),
        ),
{
    reveal_with_fuel(lookup, 5);
    reveal_strlit("jsonrpc");
    reveal_strlit("result");
    reveal_strlit("error");
    reveal_strlit("id");
    match resp.error {
        None => {
            let members = resp.json_model()->Obj_0;
            let m1 = members.drop_first();
            let m2 = m1.drop_first();
            assert(m1 =~= seq![("result"@, resp.result.model()), ("id"@, resp.id.model())]);
            assert(m2 =~= seq![("id"@, resp.id.model())]);
            assert("jsonrpc"@.len() == 7);
            assert("id"@.len() == 2);
            assert("jsonrpc"@ != "id"@);
            assert("result"@ != "id"@);
            assert(lookup(m2, "id"@) == Some(resp.id.model()));
            assert(lookup(m1, "id"@) == lookup(m2, "id"@));
            assert(lookup(members, "id"@) == lookup(m1, "id"@));
        },
        Some(e) => {
            let members = resp.json_model()->Obj_0;
            let m1 = members.drop_first();
            let m2 = m1.drop_first();
            let m3 = m2.drop_first();
            assert(m1 =~= seq![
                ("result"@, resp.result.model()),
                ("error"@, e.json_model()),
                ("id"@, resp.id.model()),
            ]);
            assert(m2 =~= seq![("error"@, e.json_model()), ("id"@, resp.id.model())]);
            assert(m3 =~= seq![("id"@, resp.id.model())]);
            assert("jsonrpc"@.len() == 7);
            assert("result"@.len() == 6);
            assert("error"@.len() == 5);
            assert("id"@.len() == 2);
            assert(lookup(m3, "id"@) == Some(resp.id.model()));
            assert(lookup(m2, "id"@) == lookup(m3, "id"@));
            assert(lookup(m1, "id"@) == lookup(m2, "id"@));
            assert(lookup(members, "id"@) == lookup(m1, "id"@));
        },
    }
}

} // verus!
