//! Decoding of the autocomplete endpoint's reply.
use vstd::prelude::*;

use crate::error::FinanceapiError;
use crate::json::{entries_of, get_member, member, opt_text, read_opt_text, read_text, req_text, JsonValue};

verus! {

/// One suggested symbol.
#[derive(Debug, Default)]
pub struct FinanceapiAutocomplete {
    pub symbol: String,
    pub name: String,
    pub exch: String,
    /// The provider's `type` member.
    pub exch_type: String,
    pub exch_disp: String,
    pub type_disp: String,
}

/// The `ResultSet` envelope of an autocomplete reply.
pub open spec fn result_set(json: JsonValue) -> Option<JsonValue> {
    match json {
        JsonValue::Object(top) => member(top@, "ResultSet"@),
        _ => None,
    }
}

/// The records of an envelope that has the expected shape: an object whose
/// `Query` is a string or absent, and whose `Result` is an array.
pub open spec fn result_list(env: JsonValue) -> Option<Seq<JsonValue>> {
    match env {
        JsonValue::Object(e) => if opt_text(e@, "Query"@) is Some {
            match member(e@, "Result"@) {
                Some(JsonValue::Array(items)) => Some(items@),
                _ => None,
            }
        } else {
            None
        },
        _ => None,
    }
}

/// A suggestion record: an object with all six string members.
pub open spec fn suggestion_readable(v: JsonValue) -> bool {
    &&& v is Object
    &&& req_text(entries_of(v), "symbol"@) is Some
    &&& req_text(entries_of(v), "name"@) is Some
    &&& req_text(entries_of(v), "exch"@) is Some
    &&& req_text(entries_of(v), "type"@) is Some
    &&& req_text(entries_of(v), "exchDisp"@) is Some
    &&& req_text(entries_of(v), "typeDisp"@) is Some
}

/// What decoding an autocomplete reply yields: a missing envelope, an
/// envelope of the wrong shape, a malformed record, no record, or else every
/// record in order.
pub open spec fn decodes_suggestions(
    json: JsonValue,
    r: Result<Vec<FinanceapiAutocomplete>, FinanceapiError>,
) -> bool {
    match result_set(json) {
        None => (r is Err && r->Err_0 is JsonParseError),
        Some(env) => match result_list(env) {
            None => (r is Err && r->Err_0 is JsonSerdeError),
            Some(items) => if exists|i: int|
                0 <= i < items.len() && !suggestion_readable(#[trigger] items[i]) {
                (r is Err && r->Err_0 is JsonSerdeError)
            } else if items.len() == 0 {
                (r is Err && r->Err_0 is SymbolNotFoundError)
            } else {
                &&& r is Ok
                &&& r->Ok_0@.len() == items.len()
                &&& forall|i: int|
                    0 <= i < items.len() ==> (#[trigger] r->Ok_0@[i]).reads(
                        entries_of(items[i]),
                    )
            },
        },
    }
}

impl FinanceapiAutocomplete {
    /// This record holds exactly the members of the object `e`.
    pub open spec fn reads(self, e: Seq<(String, JsonValue)>) -> bool {
        &&& req_text(e, "symbol"@) == Some(self.symbol@)
        &&& req_text(e, "name"@) == Some(self.name@)
        &&& req_text(e, "exch"@) == Some(self.exch@)
        &&& req_text(e, "type"@) == Some(self.exch_type@)
        &&& req_text(e, "exchDisp"@) == Some(self.exch_disp@)
        &&& req_text(e, "typeDisp"@) == Some(self.type_disp@)
    }

    /// Decodes one suggestion record.
    pub fn from_entry(v: &JsonValue) -> (r: Option<FinanceapiAutocomplete>)
        ensures
            r is Some <==> suggestion_readable(*v),
            r is Some ==> r->0.reads(entries_of(*v)),
    {
        let e = match v {
            JsonValue::Object(e) => e,
            _ => return None,
        };
        let symbol = match read_text(e, "symbol") {
            Some(s) => s,
            None => return None,
        };
        let name = match read_text(e, "name") {
            Some(s) => s,
            None => return None,
        };
        let exch = match read_text(e, "exch") {
            Some(s) => s,
            None => return None,
        };
        let exch_type = match read_text(e, "type") {
            Some(s) => s,
            None => return None,
        };
        let exch_disp = match read_text(e, "exchDisp") {
            Some(s) => s,
            None => return None,
        };
        let type_disp = match read_text(e, "typeDisp") {
            Some(s) => s,
            None => return None,
        };
        Some(FinanceapiAutocomplete { symbol, name, exch, exch_type, exch_disp, type_disp })
    }

    /// Decodes an autocomplete reply into all the suggestions that it holds.
    pub fn from_json(json: JsonValue) -> (r: Result<Vec<FinanceapiAutocomplete>, FinanceapiError>)
        ensures
            decodes_suggestions(json, r),
    {
        let top = match &json {
            JsonValue::Object(top) => top,
            _ => return Err(FinanceapiError::JsonParseError),
        };
        let env = match get_member(top, "ResultSet") {
            Some(env) => env,
            None => return Err(FinanceapiError::JsonParseError),
        };
        let e = match env {
            JsonValue::Object(e) => e,
            _ => return Err(FinanceapiError::JsonSerdeError),
        };
        if read_opt_text(e, "Query").is_none() {
            return Err(FinanceapiError::JsonSerdeError);
        }
        let items = match get_member(e, "Result") {
            Some(JsonValue::Array(items)) => items,
            _ => return Err(FinanceapiError::JsonSerdeError),
        };
        let mut out: Vec<FinanceapiAutocomplete> = Vec::new();
        let mut i: usize = 0;
        while i < items.len()
            invariant
                result_set(json) == Some(*env),
                result_list(*env) == Some(items@),
                i <= items@.len(),
                out@.len() == i,
                forall|j: int| 0 <= j < i ==> suggestion_readable(#[trigger] items@[j]),
                forall|j: int| 0 <= j < i ==> (#[trigger] out@[j]).reads(entries_of(items@[j])),
            decreases items@.len() - i,
        {
            match FinanceapiAutocomplete::from_entry(&items[i]) {
                Some(s) => out.push(s),
                None => {
                    assert(!suggestion_readable(items@[i as int]));
                    return Err(FinanceapiError::JsonSerdeError);
                },
            }
            i = i + 1;
        }
        if out.len() == 0 {
            return Err(FinanceapiError::SymbolNotFoundError);
        }
        Ok(out)
    }
}

} // verus!
