use financeapi::{FinanceapiAutocomplete, FinanceapiQuote, JsonNumber, JsonValue};

fn convert(v: &serde_json::Value) -> JsonValue {
    match v {
        serde_json::Value::Null => JsonValue::Null,
        serde_json::Value::Bool(b) => JsonValue::Bool(*b),
        serde_json::Value::Number(n) => match (n.as_i64(), n.as_u64()) {
            (Some(i), _) => JsonValue::Number(JsonNumber::Int(i as i128)),
            (None, Some(u)) => JsonValue::Number(JsonNumber::Int(u as i128)),
            (None, None) => JsonValue::Number(JsonNumber::Real(n.to_string())),
        },
        serde_json::Value::String(s) => JsonValue::Str(s.clone()),
        serde_json::Value::Array(a) => JsonValue::Array(a.iter().map(convert).collect()),
        serde_json::Value::Object(m) => {
            JsonValue::Object(m.iter().map(|(k, v)| (k.clone(), convert(v))).collect())
        }
    }
}

fn doc(text: &str) -> JsonValue {
    let v: serde_json::Value = serde_json::from_str(text).unwrap();
    convert(&v)
}

const AAPL_RECORD: &str = r#"{
    "language": "en-US",
    "region": "US",
    "quoteType": "EQUITY",
    "triggerable": true,
    "marketState": "REGULAR",
    "fullExchangeName": "NasdaqGS",
    "exchangeTimezoneName": "Europe/Rome",
    "exchangeTimezoneShortName": "CET",
    "sourceInterval": 15,
    "gmtOffSetMilliseconds": -18000000,
    "esgPopulated": false,
    "tradeable": false,
    "exchange": "NMS",
    "priceHint": 2,
    "market": "us_market",
    "symbol": "AAPL"
}"#;

fn quote_doc(records: &[&str], error: &str) -> JsonValue {
    doc(&format!(
        r#"{{"quoteResponse": {{"result": [{}], "error": {}}}}}"#,
        records.join(","),
        error
    ))
}

fn vwce_doc() -> JsonValue {
    doc(r#"{
      "ResultSet": {
        "Query": "VWCE.MI",
        "Result": [
          {
            "symbol": "VWCE.MI",
            "name": "Vanguard FTSE All-World UCITS ETF USD Accumulation",
            "exch": "MIL",
            "type": "E",
            "exchDisp": "Milan",
            "typeDisp": "ETF"
          }
        ]
      }
    }"#)
}

#[test]
#[should_panic(expected = "JsonParseError")]
fn autocomplete_wrong_json() {
    let j = doc(r#"{ "var": 200 }"#);
    FinanceapiAutocomplete::from_json(j).unwrap();
}

#[test]
#[should_panic(expected = "SymbolNotFoundError")]
fn autocomplete_wrong_symbol() {
    let j = doc(r#"{ "ResultSet": { "Query": "unknown", "Result": [] } }"#);
    FinanceapiAutocomplete::from_json(j).unwrap();
}

#[test]
#[should_panic(expected = "JsonSerdeError")]
fn autocomplete_wrong_json_serde() {
    let j = doc(r#"{ "ResultSet": { "Query": "VWCE.MI", "Result": [ { "symbol": "VWCE.MI" } ] } }"#);
    FinanceapiAutocomplete::from_json(j).unwrap();
}

#[test]
fn autocomplete_check_parsing() {
    let vq = FinanceapiAutocomplete::from_json(vwce_doc()).unwrap();
    assert_eq!(vq.len(), 1);

    let query = &vq[0];
    assert_eq!(query.symbol, "VWCE.MI");
    assert_eq!(query.exch, "MIL");
}

#[test]
#[should_panic(expected = "JsonParseError")]
fn quote_wrong_json() {
    let j = doc(r#"{ "var": 200 }"#);
    FinanceapiQuote::from_json(j).unwrap();
}

#[test]
#[should_panic(expected = "foobar")]
fn wrong_json_response() {
    let j = doc(r#"{ "quoteResponse": { "result": [], "error": "foobar" } }"#);
    FinanceapiQuote::from_json(j).unwrap();
}

#[test]
#[should_panic(expected = "SymbolNotFoundError")]
fn quote_wrong_symbol() {
    let j = doc(r#"{ "quoteResponse": { "result": [], "error": null } }"#);
    FinanceapiQuote::from_json(j).unwrap();
}

#[test]
#[should_panic(expected = "JsonSerdeError")]
fn quote_wrong_json_serde() {
    let j = doc(r#"{ "quoteResponse": { "result": [ { "symbol": "AAPL" } ], "error": null } }"#);
    FinanceapiQuote::from_json(j).unwrap();
}

#[test]
fn quote_check_parsing() {
    let quote = FinanceapiQuote::from_json(quote_doc(&[AAPL_RECORD], "null")).unwrap();
    assert_eq!(quote.language, "en-US");
    assert_eq!(quote.symbol, "AAPL");
    assert_eq!(quote.source_interval, 15);
    assert!(!quote.tradeable);
}
