use financeapi::{
    FinanceapiAutocomplete, FinanceapiConnector, FinanceapiError, FinanceapiQuote, JsonNumber,
    JsonValue, TransportFailure,
};

fn text(s: &str) -> JsonValue {
    JsonValue::Str(s.to_string())
}

fn num(n: i128) -> JsonValue {
    JsonValue::Number(JsonNumber::Int(n))
}

fn object(members: Vec<(&str, JsonValue)>) -> JsonValue {
    JsonValue::Object(members.into_iter().map(|(k, v)| (k.to_string(), v)).collect())
}

fn record(symbol: &str, interval: i128) -> JsonValue {
    object(vec![
        ("language", text("en-US")),
        ("region", text("US")),
        ("quoteType", text("EQUITY")),
        ("triggerable", JsonValue::Bool(true)),
        ("marketState", text("REGULAR")),
        ("fullExchangeName", text("NasdaqGS")),
        ("exchangeTimezoneName", text("America/New_York")),
        ("exchangeTimezoneShortName", text("EST")),
        ("sourceInterval", num(interval)),
        ("gmtOffSetMilliseconds", num(-18000000)),
        ("esgPopulated", JsonValue::Bool(false)),
        ("tradeable", JsonValue::Bool(false)),
        ("exchange", text("NMS")),
        ("priceHint", num(2)),
        ("market", text("us_market")),
        ("symbol", text(symbol)),
    ])
}

fn with_member(v: JsonValue, key: &str, value: JsonValue) -> JsonValue {
    match v {
        JsonValue::Object(mut m) => {
            m.push((key.to_string(), value));
            JsonValue::Object(m)
        }
        other => other,
    }
}

fn quote_reply(records: Vec<JsonValue>, error: JsonValue) -> JsonValue {
    object(vec![(
        "quoteResponse",
        object(vec![("result", JsonValue::Array(records)), ("error", error)]),
    )])
}

fn suggestion(symbol: &str, exch: &str) -> JsonValue {
    object(vec![
        ("symbol", text(symbol)),
        ("name", text("Some fund")),
        ("exch", text(exch)),
        ("type", text("E")),
        ("exchDisp", text("Milan")),
        ("typeDisp", text("ETF")),
    ])
}

fn suggestions_reply(records: Vec<JsonValue>) -> JsonValue {
    object(vec![(
        "ResultSet",
        object(vec![("Query", text("VW")), ("Result", JsonValue::Array(records))]),
    )])
}

const OPTIONAL_KEYS: [&str; 68] = [
    "typeDisp", "quoteSourceName", "customPriceAlertConfidence", "currency",
    "regularMarketChangePercent", "regularMarketPrice", "messageBoardId", "shortName", "longName",
    "regularMarketPreviousClose", "bid", "ask", "bidSize", "askSize", "financialCurrency",
    "regularMarketOpen", "averageDailyVolume3Month", "averageDailyVolume10Day",
    "fiftyTwoWeekLowChange", "fiftyTwoWeekLowChangePercent", "fiftyTwoWeekRange",
    "fiftyTwoWeekHighChange", "fiftyTwoWeekHighChangePercent", "fiftyTwoWeekLow",
    "fiftyTwoWeekHigh", "dividendDate", "earningsTimestamp", "earningsTimestampStart",
    "earningsTimestampEnd", "trailingAnnualDividendRate", "trailingPE",
    "trailingAnnualDividendYield", "epsTrailingTwelveMonths", "epsForward", "epsCurrentYear",
    "priceEpsCurrentYear", "sharesOutstanding", "bookValue", "fiftyDayAverage",
    "fiftyDayAverageChange", "fiftyDayAverageChangePercent", "twoHundredDayAverage",
    "twoHundredDayAverageChange", "twoHundredDayAverageChangePercent", "marketCap", "forwardPE",
    "priceToBook", "exchangeDataDelayedBy", "averageAnalystRating", "cryptoTradeable",
    "regularMarketChange", "regularMarketTime", "regularMarketDayHigh", "regularMarketDayRange",
    "regularMarketDayLow", "regularMarketVolume", "firstTradeDateMilliseconds", "displayName",
    "coinImageUrl", "logoUrl", "circulatingSupply", "lastMarket", "volume24Hr",
    "volumeAllCurrencies", "fromCurrency", "toCurrency", "coinMarketCapLink", "startDate",
];

#[test]
fn quote_takes_last_of_several_records() {
    let q = FinanceapiQuote::from_json(quote_reply(
        vec![record("FIRST", 1), record("MIDDLE", 2), record("LAST", 3)],
        JsonValue::Null,
    ))
    .unwrap();
    assert_eq!(q.symbol, "LAST");
    assert_eq!(q.source_interval, 3);
}

#[test]
fn quote_absent_error_member_reads_as_no_error() {
    let reply = object(vec![(
        "quoteResponse",
        object(vec![("result", JsonValue::Array(vec![record("AAPL", 15)]))]),
    )]);
    let q = FinanceapiQuote::from_json(reply).unwrap();
    assert_eq!(q.symbol, "AAPL");
    assert_eq!(q.gmt_off_set_milliseconds, -18000000);
    assert_eq!(q.price_hint, 2);
    assert!(q.triggerable);
}

#[test]
fn quote_malformed_record_wins_over_reported_error() {
    let bad = object(vec![("symbol", text("AAPL"))]);
    let r = FinanceapiQuote::from_json(quote_reply(vec![bad, record("AAPL", 15)], text("boom")));
    assert!(matches!(r, Err(FinanceapiError::JsonSerdeError)));
}

#[test]
fn quote_reported_error_wins_over_valid_records() {
    let r = FinanceapiQuote::from_json(quote_reply(
        vec![record("AAPL", 15), record("MSFT", 15)],
        text("boom"),
    ));
    assert!(matches!(r, Err(FinanceapiError::JsonResponseError(ref m)) if m == "boom"));
}

#[test]
fn quote_envelope_missing_and_non_object_document() {
    let r = FinanceapiQuote::from_json(object(vec![("ResultSet", object(vec![]))]));
    assert!(matches!(r, Err(FinanceapiError::JsonParseError)));
    let r = FinanceapiQuote::from_json(JsonValue::Array(vec![]));
    assert!(matches!(r, Err(FinanceapiError::JsonParseError)));
    let r = FinanceapiAutocomplete::from_json(text("ResultSet"));
    assert!(matches!(r, Err(FinanceapiError::JsonParseError)));
}

#[test]
fn quote_envelope_of_wrong_shape_is_malformed() {
    let no_result = object(vec![("quoteResponse", object(vec![("error", JsonValue::Null)]))]);
    assert!(matches!(FinanceapiQuote::from_json(no_result), Err(FinanceapiError::JsonSerdeError)));
    let numeric_error = quote_reply(vec![], num(7));
    assert!(matches!(
        FinanceapiQuote::from_json(numeric_error),
        Err(FinanceapiError::JsonSerdeError)
    ));
    let envelope_is_text = object(vec![("quoteResponse", text("x"))]);
    assert!(matches!(
        FinanceapiQuote::from_json(envelope_is_text),
        Err(FinanceapiError::JsonSerdeError)
    ));
}

#[test]
fn quote_member_of_wrong_type_or_range_is_malformed() {
    let out_of_range = with_member(record("AAPL", 1 << 40), "x", JsonValue::Null);
    let r = FinanceapiQuote::from_json(quote_reply(vec![out_of_range], JsonValue::Null));
    assert!(matches!(r, Err(FinanceapiError::JsonSerdeError)));
    let fractional = object(vec![]);
    let fractional = match (record("AAPL", 15), fractional) {
        (JsonValue::Object(m), _) => JsonValue::Object(
            m.into_iter()
                .map(|(k, v)| {
                    if k == "priceHint" {
                        (k, JsonValue::Number(JsonNumber::Real("2.5".to_string())))
                    } else {
                        (k, v)
                    }
                })
                .collect(),
        ),
        (other, _) => other,
    };
    let r = FinanceapiQuote::from_json(quote_reply(vec![fractional], JsonValue::Null));
    assert!(matches!(r, Err(FinanceapiError::JsonSerdeError)));
    let negative_volume = with_member(record("AAPL", 15), "marketCap", num(-1));
    let r = FinanceapiQuote::from_json(quote_reply(vec![negative_volume], JsonValue::Null));
    assert!(matches!(r, Err(FinanceapiError::JsonSerdeError)));
    let record_not_object = text("AAPL");
    let r = FinanceapiQuote::from_json(quote_reply(vec![record_not_object], JsonValue::Null));
    assert!(matches!(r, Err(FinanceapiError::JsonSerdeError)));
}

#[test]
fn quote_empty_symbol_is_malformed() {
    let r = FinanceapiQuote::from_json(quote_reply(vec![record("", 15)], JsonValue::Null));
    assert!(matches!(r, Err(FinanceapiError::JsonSerdeError)));
}

#[test]
fn quote_optional_members_null_decode_to_no_value() {
    let mut rec = record("AAPL", 15);
    for k in OPTIONAL_KEYS.iter() {
        rec = with_member(rec, k, JsonValue::Null);
    }
    let q = FinanceapiQuote::from_json(quote_reply(vec![rec], JsonValue::Null)).unwrap();
    assert!(q.type_disp.is_none());
    assert!(q.regular_market_price.is_none());
    assert!(q.bid_size.is_none());
    assert!(q.market_cap.is_none());
    assert!(q.crypto_tradeable.is_none());
    assert!(q.regular_market_time.is_none());
    assert!(q.first_trade_date_milliseconds.is_none());
    assert!(q.start_date.is_none());
    assert!(q.volume24_hr.is_none());
    assert!(q.trailing_p_e.is_none());
}

#[test]
fn quote_optional_members_present_are_kept() {
    let rec = with_member(record("AAPL", 15), "longName", text("Apple Inc."));
    let rec = with_member(rec, "regularMarketPrice", JsonValue::Number(JsonNumber::Real("189.84".to_string())));
    let rec = with_member(rec, "bookValue", num(4));
    let rec = with_member(rec, "marketCap", num(2_950_000_000_000));
    let rec = with_member(rec, "averageDailyVolume3Month", num(u64::MAX as i128));
    let rec = with_member(rec, "firstTradeDateMilliseconds", num(345479400000));
    let rec = with_member(rec, "bidSize", num(-3));
    let rec = with_member(rec, "cryptoTradeable", JsonValue::Bool(true));
    let rec = with_member(rec, "trailingPE", num(29));
    let rec = with_member(rec, "volume24Hr", num(12));
    let q = FinanceapiQuote::from_json(quote_reply(vec![rec], JsonValue::Null)).unwrap();
    assert_eq!(q.long_name.as_deref(), Some("Apple Inc."));
    assert!(matches!(q.regular_market_price, Some(JsonNumber::Real(ref s)) if s == "189.84"));
    assert!(matches!(q.book_value, Some(JsonNumber::Int(4))));
    assert_eq!(q.market_cap, Some(2_950_000_000_000));
    assert_eq!(q.average_daily_volume3_month, Some(u64::MAX));
    assert_eq!(q.first_trade_date_milliseconds, Some(345479400000));
    assert_eq!(q.bid_size, Some(-3));
    assert_eq!(q.crypto_tradeable, Some(true));
    assert!(matches!(q.trailing_p_e, Some(JsonNumber::Int(29))));
    assert_eq!(q.volume24_hr, Some(12));
    assert!(q.short_name.is_none());
}

#[test]
fn autocomplete_keeps_every_record_in_order() {
    let v = FinanceapiAutocomplete::from_json(suggestions_reply(vec![
        suggestion("VWCE.MI", "MIL"),
        suggestion("VWCE.DE", "GER"),
        suggestion("VWCE.AS", "AMS"),
    ]))
    .unwrap();
    assert_eq!(v.len(), 3);
    assert_eq!(v[0].symbol, "VWCE.MI");
    assert_eq!(v[1].exch, "GER");
    assert_eq!(v[2].symbol, "VWCE.AS");
    assert_eq!(v[2].exch_type, "E");
    assert_eq!(v[2].exch_disp, "Milan");
    assert_eq!(v[2].type_disp, "ETF");
    assert_eq!(v[2].name, "Some fund");
}

#[test]
fn autocomplete_malformed_shapes() {
    let missing_result = object(vec![("ResultSet", object(vec![("Query", text("x"))]))]);
    assert!(matches!(
        FinanceapiAutocomplete::from_json(missing_result),
        Err(FinanceapiError::JsonSerdeError)
    ));
    let numeric_query = object(vec![(
        "ResultSet",
        object(vec![("Query", num(1)), ("Result", JsonValue::Array(vec![]))]),
    )]);
    assert!(matches!(
        FinanceapiAutocomplete::from_json(numeric_query),
        Err(FinanceapiError::JsonSerdeError)
    ));
    let wrong_type = suggestions_reply(vec![
        suggestion("A", "B"),
        with_member(object(vec![("symbol", num(3))]), "name", text("n")),
    ]);
    assert!(matches!(
        FinanceapiAutocomplete::from_json(wrong_type),
        Err(FinanceapiError::JsonSerdeError)
    ));
}

#[test]
fn autocomplete_without_query_member_decodes() {
    let reply = object(vec![(
        "ResultSet",
        object(vec![("Result", JsonValue::Array(vec![suggestion("X", "Y")]))]),
    )]);
    let v = FinanceapiAutocomplete::from_json(reply).unwrap();
    assert_eq!(v.len(), 1);
    assert_eq!(v[0].exch, "Y");
}

#[test]
fn forbidden_status_is_a_transport_error() {
    let c = FinanceapiConnector::new("ABC".to_string());
    let body = Some(quote_reply(vec![record("AAPL", 15)], JsonValue::Null));
    let r = c.quote_reply(403, body);
    assert!(matches!(r, Err(FinanceapiError::RequestError(TransportFailure::Status(403)))));
    let r = c.autocomplete_reply(403, Some(suggestions_reply(vec![])));
    assert!(matches!(r, Err(FinanceapiError::RequestError(TransportFailure::Status(403)))));
    let r = c.quote_reply(500, None);
    assert!(matches!(r, Err(FinanceapiError::RequestError(TransportFailure::Status(500)))));
}

#[test]
fn success_status_decodes_the_body() {
    let c = FinanceapiConnector::new("ABC".to_string());
    let q = c
        .quote_reply(200, Some(quote_reply(vec![record("AAPL", 15)], JsonValue::Null)))
        .unwrap();
    assert_eq!(q.symbol, "AAPL");
    let r = c.quote_reply(204, None);
    assert!(matches!(r, Err(FinanceapiError::RequestError(TransportFailure::Body))));
    let r = c.autocomplete_reply(200, Some(suggestions_reply(vec![])));
    assert!(matches!(r, Err(FinanceapiError::SymbolNotFoundError)));
    let v = c.autocomplete_reply(299, Some(suggestions_reply(vec![suggestion("A", "B")]))).unwrap();
    assert_eq!(v[0].symbol, "A");
}

#[test]
fn headers_carry_the_key() {
    let c = FinanceapiConnector::new("SECRET-KEY".to_string());
    let h = c.headers();
    assert_eq!(h.len(), 2);
    assert_eq!(h[0], ("accept".to_string(), "application/json".to_string()));
    assert_eq!(h[1], ("X-API-KEY".to_string(), "SECRET-KEY".to_string()));
}

#[test]
fn endpoint_urls_carry_the_query() {
    let c = FinanceapiConnector::new("k".to_string());
    assert_eq!(
        c.quote_url("AAPL").unwrap(),
        "https://yfapi.net/v6/finance/quote?region=US&lang=en&symbols=AAPL"
    );
    assert_eq!(
        c.autocomplete_url("VW CE&x").unwrap(),
        "https://yfapi.net/v6/finance/autocomplete?region=US&lang=en&query=VW+CE%26x"
    );
}

#[test]
fn malformed_base_url_is_a_url_error() {
    let r = financeapi::connector::endpoint_url("not a url", "query", "x");
    assert!(matches!(r, Err(FinanceapiError::UrlParseError(_))));
}

#[test]
fn provider_error_is_reported_with_its_text() {
    let r = FinanceapiQuote::from_json(quote_reply(vec![], text("foobar")));
    assert!(matches!(r, Err(FinanceapiError::JsonResponseError(ref m)) if m == "foobar"));
}
