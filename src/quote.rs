//! Decoding of the quote endpoint's reply.
use vstd::prelude::*;

use crate::error::FinanceapiError;
use crate::json::{
    entries_of, get_member, i32_view, i64_view, member, opt_bool, opt_int, opt_number, opt_text,
    read_bool, read_i32, read_opt_bool, read_opt_i32, read_opt_i64, read_opt_number,
    read_opt_text, read_opt_u32, read_opt_u64, read_text, req_bool, req_int, req_text, text_view,
    u32_view, u64_view, JsonNumber, JsonValue,
};

verus! {

/// A snapshot of one traded instrument. Members that the provider leaves out
/// for some kinds of instrument are optional; fractional amounts are kept as
/// the JSON numbers that the provider sent.
#[derive(Debug, Default)]
pub struct FinanceapiQuote {
    pub language: String,
    pub region: String,
    pub quote_type: String,
    pub type_disp: Option<String>,
    pub quote_source_name: Option<String>,
    pub triggerable: bool,
    pub custom_price_alert_confidence: Option<String>,
    pub currency: Option<String>,
    pub market_state: String,
    pub regular_market_change_percent: Option<JsonNumber>,
    pub regular_market_price: Option<JsonNumber>,
    pub message_board_id: Option<String>,
    pub exchange: String,
    pub short_name: Option<String>,
    pub long_name: Option<String>,
    pub exchange_timezone_name: String,
    pub exchange_timezone_short_name: String,
    pub market: String,
    pub gmt_off_set_milliseconds: i32,
    pub esg_populated: bool,
    pub regular_market_previous_close: Option<JsonNumber>,
    pub bid: Option<JsonNumber>,
    pub ask: Option<JsonNumber>,
    pub bid_size: Option<i32>,
    pub ask_size: Option<i32>,
    pub full_exchange_name: String,
    pub financial_currency: Option<String>,
    pub regular_market_open: Option<JsonNumber>,
    pub average_daily_volume3_month: Option<u64>,
    pub average_daily_volume10_day: Option<u64>,
    pub fifty_two_week_low_change: Option<JsonNumber>,
    pub fifty_two_week_low_change_percent: Option<JsonNumber>,
    pub fifty_two_week_range: Option<String>,
    pub fifty_two_week_high_change: Option<JsonNumber>,
    pub fifty_two_week_high_change_percent: Option<JsonNumber>,
    pub fifty_two_week_low: Option<JsonNumber>,
    pub fifty_two_week_high: Option<JsonNumber>,
    pub dividend_date: Option<u64>,
    pub earnings_timestamp: Option<u64>,
    pub earnings_timestamp_start: Option<u64>,
    pub earnings_timestamp_end: Option<u64>,
    pub trailing_annual_dividend_rate: Option<JsonNumber>,
    pub trailing_p_e: Option<JsonNumber>,
    pub trailing_annual_dividend_yield: Option<JsonNumber>,
    pub eps_trailing_twelve_months: Option<JsonNumber>,
    pub eps_forward: Option<JsonNumber>,
    pub eps_current_year: Option<JsonNumber>,
    pub price_eps_current_year: Option<JsonNumber>,
    pub shares_outstanding: Option<u64>,
    pub book_value: Option<JsonNumber>,
    pub fifty_day_average: Option<JsonNumber>,
    pub fifty_day_average_change: Option<JsonNumber>,
    pub fifty_day_average_change_percent: Option<JsonNumber>,
    pub two_hundred_day_average: Option<JsonNumber>,
    pub two_hundred_day_average_change: Option<JsonNumber>,
    pub two_hundred_day_average_change_percent: Option<JsonNumber>,
    pub market_cap: Option<u64>,
    pub forward_p_e: Option<JsonNumber>,
    pub price_to_book: Option<JsonNumber>,
    pub source_interval: i32,
    pub exchange_data_delayed_by: Option<i32>,
    pub average_analyst_rating: Option<String>,
    pub tradeable: bool,
    pub crypto_tradeable: Option<bool>,
    pub regular_market_change: Option<JsonNumber>,
    pub regular_market_time: Option<u32>,
    pub regular_market_day_high: Option<JsonNumber>,
    pub regular_market_day_range: Option<String>,
    pub regular_market_day_low: Option<JsonNumber>,
    pub regular_market_volume: Option<u64>,
    pub first_trade_date_milliseconds: Option<i64>,
    pub price_hint: i32,
    pub display_name: Option<String>,
    pub symbol: String,
    pub coin_image_url: Option<String>,
    pub logo_url: Option<String>,
    pub circulating_supply: Option<u64>,
    pub last_market: Option<String>,
    pub volume24_hr: Option<u64>,
    pub volume_all_currencies: Option<u64>,
    pub from_currency: Option<String>,
    pub to_currency: Option<String>,
    pub coin_market_cap_link: Option<String>,
    pub start_date: Option<u32>,
}

/// The `quoteResponse` envelope of a quote reply.
pub open spec fn quote_envelope(json: JsonValue) -> Option<JsonValue> {
    match json {
        JsonValue::Object(top) => member(top@, "quoteResponse"@),
        _ => None,
    }
}

/// The records and the reported error of an envelope that has the expected
/// shape: an object whose `result` is an array and whose `error` is a
/// string, `null` or absent.
pub open spec fn quote_shape(env: JsonValue) -> Option<(Seq<JsonValue>, Option<Seq<char>>)> {
    match env {
        JsonValue::Object(e) => match member(e@, "result"@) {
            Some(JsonValue::Array(items)) => match opt_text(e@, "error"@) {
                Some(err) => Some((items@, err)),
                None => None,
            },
            _ => None,
        },
        _ => None,
    }
}


/// The required members of `e` are present with their types, and the
/// symbol is not empty.
pub open spec fn quote_required_readable(e: Seq<(String, JsonValue)>) -> bool {
    &&& req_text(e, "language"@) is Some
    &&& req_text(e, "region"@) is Some
    &&& req_text(e, "quoteType"@) is Some
    &&& req_bool(e, "triggerable"@) is Some
    &&& req_text(e, "marketState"@) is Some
    &&& req_text(e, "exchange"@) is Some
    &&& req_text(e, "exchangeTimezoneName"@) is Some
    &&& req_text(e, "exchangeTimezoneShortName"@) is Some
    &&& req_text(e, "market"@) is Some
    &&& req_int(e, "gmtOffSetMilliseconds"@, i32::MIN as int, i32::MAX as int) is Some
    &&& req_bool(e, "esgPopulated"@) is Some
    &&& req_text(e, "fullExchangeName"@) is Some
    &&& req_int(e, "sourceInterval"@, i32::MIN as int, i32::MAX as int) is Some
    &&& req_bool(e, "tradeable"@) is Some
    &&& req_int(e, "priceHint"@, i32::MIN as int, i32::MAX as int) is Some
    &&& req_text(e, "symbol"@) is Some
    &&& req_text(e, "symbol"@)->0.len() > 0
}

/// Every optional member of a quote record is `null` in `e`.
pub open spec fn quote_optionals_null(e: Seq<(String, JsonValue)>) -> bool {
    &&& member(e, "typeDisp"@) == Some(JsonValue::Null)
    &&& member(e, "quoteSourceName"@) == Some(JsonValue::Null)
    &&& member(e, "customPriceAlertConfidence"@) == Some(JsonValue::Null)
    &&& member(e, "currency"@) == Some(JsonValue::Null)
    &&& member(e, "regularMarketChangePercent"@) == Some(JsonValue::Null)
    &&& member(e, "regularMarketPrice"@) == Some(JsonValue::Null)
    &&& member(e, "messageBoardId"@) == Some(JsonValue::Null)
    &&& member(e, "shortName"@) == Some(JsonValue::Null)
    &&& member(e, "longName"@) == Some(JsonValue::Null)
    &&& member(e, "regularMarketPreviousClose"@) == Some(JsonValue::Null)
    &&& member(e, "bid"@) == Some(JsonValue::Null)
    &&& member(e, "ask"@) == Some(JsonValue::Null)
    &&& member(e, "bidSize"@) == Some(JsonValue::Null)
    &&& member(e, "askSize"@) == Some(JsonValue::Null)
    &&& member(e, "financialCurrency"@) == Some(JsonValue::Null)
    &&& member(e, "regularMarketOpen"@) == Some(JsonValue::Null)
    &&& member(e, "averageDailyVolume3Month"@) == Some(JsonValue::Null)
    &&& member(e, "averageDailyVolume10Day"@) == Some(JsonValue::Null)
    &&& member(e, "fiftyTwoWeekLowChange"@) == Some(JsonValue::Null)
    &&& member(e, "fiftyTwoWeekLowChangePercent"@) == Some(JsonValue::Null)
    &&& member(e, "fiftyTwoWeekRange"@) == Some(JsonValue::Null)
    &&& member(e, "fiftyTwoWeekHighChange"@) == Some(JsonValue::Null)
    &&& member(e, "fiftyTwoWeekHighChangePercent"@) == Some(JsonValue::Null)
    &&& member(e, "fiftyTwoWeekLow"@) == Some(JsonValue::Null)
    &&& member(e, "fiftyTwoWeekHigh"@) == Some(JsonValue::Null)
    &&& member(e, "dividendDate"@) == Some(JsonValue::Null)
    &&& member(e, "earningsTimestamp"@) == Some(JsonValue::Null)
    &&& member(e, "earningsTimestampStart"@) == Some(JsonValue::Null)
    &&& member(e, "earningsTimestampEnd"@) == Some(JsonValue::Null)
    &&& member(e, "trailingAnnualDividendRate"@) == Some(JsonValue::Null)
    &&& member(e, "trailingPE"@) == Some(JsonValue::Null)
    &&& member(e, "trailingAnnualDividendYield"@) == Some(JsonValue::Null)
    &&& member(e, "epsTrailingTwelveMonths"@) == Some(JsonValue::Null)
    &&& member(e, "epsForward"@) == Some(JsonValue::Null)
    &&& member(e, "epsCurrentYear"@) == Some(JsonValue::Null)
    &&& member(e, "priceEpsCurrentYear"@) == Some(JsonValue::Null)
    &&& member(e, "sharesOutstanding"@) == Some(JsonValue::Null)
    &&& member(e, "bookValue"@) == Some(JsonValue::Null)
    &&& member(e, "fiftyDayAverage"@) == Some(JsonValue::Null)
    &&& member(e, "fiftyDayAverageChange"@) == Some(JsonValue::Null)
    &&& member(e, "fiftyDayAverageChangePercent"@) == Some(JsonValue::Null)
    &&& member(e, "twoHundredDayAverage"@) == Some(JsonValue::Null)
    &&& member(e, "twoHundredDayAverageChange"@) == Some(JsonValue::Null)
    &&& member(e, "twoHundredDayAverageChangePercent"@) == Some(JsonValue::Null)
    &&& member(e, "marketCap"@) == Some(JsonValue::Null)
    &&& member(e, "forwardPE"@) == Some(JsonValue::Null)
    &&& member(e, "priceToBook"@) == Some(JsonValue::Null)
    &&& member(e, "exchangeDataDelayedBy"@) == Some(JsonValue::Null)
    &&& member(e, "averageAnalystRating"@) == Some(JsonValue::Null)
    &&& member(e, "cryptoTradeable"@) == Some(JsonValue::Null)
    &&& member(e, "regularMarketChange"@) == Some(JsonValue::Null)
    &&& member(e, "regularMarketTime"@) == Some(JsonValue::Null)
    &&& member(e, "regularMarketDayHigh"@) == Some(JsonValue::Null)
    &&& member(e, "regularMarketDayRange"@) == Some(JsonValue::Null)
    &&& member(e, "regularMarketDayLow"@) == Some(JsonValue::Null)
    &&& member(e, "regularMarketVolume"@) == Some(JsonValue::Null)
    &&& member(e, "firstTradeDateMilliseconds"@) == Some(JsonValue::Null)
    &&& member(e, "displayName"@) == Some(JsonValue::Null)
    &&& member(e, "coinImageUrl"@) == Some(JsonValue::Null)
    &&& member(e, "logoUrl"@) == Some(JsonValue::Null)
    &&& member(e, "circulatingSupply"@) == Some(JsonValue::Null)
    &&& member(e, "lastMarket"@) == Some(JsonValue::Null)
    &&& member(e, "volume24Hr"@) == Some(JsonValue::Null)
    &&& member(e, "volumeAllCurrencies"@) == Some(JsonValue::Null)
    &&& member(e, "fromCurrency"@) == Some(JsonValue::Null)
    &&& member(e, "toCurrency"@) == Some(JsonValue::Null)
    &&& member(e, "coinMarketCapLink"@) == Some(JsonValue::Null)
    &&& member(e, "startDate"@) == Some(JsonValue::Null)
}

/// The optional members of `e` are each absent, `null` or of their type.
pub open spec fn quote_optionals_readable(e: Seq<(String, JsonValue)>) -> bool {
    &&& opt_text(e, "typeDisp"@) is Some
    &&& opt_text(e, "quoteSourceName"@) is Some
    &&& opt_text(e, "customPriceAlertConfidence"@) is Some
    &&& opt_text(e, "currency"@) is Some
    &&& opt_number(e, "regularMarketChangePercent"@) is Some
    &&& opt_number(e, "regularMarketPrice"@) is Some
    &&& opt_text(e, "messageBoardId"@) is Some
    &&& opt_text(e, "shortName"@) is Some
    &&& opt_text(e, "longName"@) is Some
    &&& opt_number(e, "regularMarketPreviousClose"@) is Some
    &&& opt_number(e, "bid"@) is Some
    &&& opt_number(e, "ask"@) is Some
    &&& opt_int(e, "bidSize"@, i32::MIN as int, i32::MAX as int) is Some
    &&& opt_int(e, "askSize"@, i32::MIN as int, i32::MAX as int) is Some
    &&& opt_text(e, "financialCurrency"@) is Some
    &&& opt_number(e, "regularMarketOpen"@) is Some
    &&& opt_int(e, "averageDailyVolume3Month"@, 0, u64::MAX as int) is Some
    &&& opt_int(e, "averageDailyVolume10Day"@, 0, u64::MAX as int) is Some
    &&& opt_number(e, "fiftyTwoWeekLowChange"@) is Some
    &&& opt_number(e, "fiftyTwoWeekLowChangePercent"@) is Some
    &&& opt_text(e, "fiftyTwoWeekRange"@) is Some
    &&& opt_number(e, "fiftyTwoWeekHighChange"@) is Some
    &&& opt_number(e, "fiftyTwoWeekHighChangePercent"@) is Some
    &&& opt_number(e, "fiftyTwoWeekLow"@) is Some
    &&& opt_number(e, "fiftyTwoWeekHigh"@) is Some
    &&& opt_int(e, "dividendDate"@, 0, u64::MAX as int) is Some
    &&& opt_int(e, "earningsTimestamp"@, 0, u64::MAX as int) is Some
    &&& opt_int(e, "earningsTimestampStart"@, 0, u64::MAX as int) is Some
    &&& opt_int(e, "earningsTimestampEnd"@, 0, u64::MAX as int) is Some
    &&& opt_number(e, "trailingAnnualDividendRate"@) is Some
    &&& opt_number(e, "trailingPE"@) is Some
    &&& opt_number(e, "trailingAnnualDividendYield"@) is Some
    &&& opt_number(e, "epsTrailingTwelveMonths"@) is Some
    &&& opt_number(e, "epsForward"@) is Some
    &&& opt_number(e, "epsCurrentYear"@) is Some
    &&& opt_number(e, "priceEpsCurrentYear"@) is Some
    &&& opt_int(e, "sharesOutstanding"@, 0, u64::MAX as int) is Some
    &&& opt_number(e, "bookValue"@) is Some
    &&& opt_number(e, "fiftyDayAverage"@) is Some
    &&& opt_number(e, "fiftyDayAverageChange"@) is Some
    &&& opt_number(e, "fiftyDayAverageChangePercent"@) is Some
    &&& opt_number(e, "twoHundredDayAverage"@) is Some
    &&& opt_number(e, "twoHundredDayAverageChange"@) is Some
    &&& opt_number(e, "twoHundredDayAverageChangePercent"@) is Some
    &&& opt_int(e, "marketCap"@, 0, u64::MAX as int) is Some
    &&& opt_number(e, "forwardPE"@) is Some
    &&& opt_number(e, "priceToBook"@) is Some
    &&& opt_int(e, "exchangeDataDelayedBy"@, i32::MIN as int, i32::MAX as int) is Some
    &&& opt_text(e, "averageAnalystRating"@) is Some
    &&& opt_bool(e, "cryptoTradeable"@) is Some
    &&& opt_number(e, "regularMarketChange"@) is Some
    &&& opt_int(e, "regularMarketTime"@, 0, u32::MAX as int) is Some
    &&& opt_number(e, "regularMarketDayHigh"@) is Some
    &&& opt_text(e, "regularMarketDayRange"@) is Some
    &&& opt_number(e, "regularMarketDayLow"@) is Some
    &&& opt_int(e, "regularMarketVolume"@, 0, u64::MAX as int) is Some
    &&& opt_int(e, "firstTradeDateMilliseconds"@, i64::MIN as int, i64::MAX as int) is Some
    &&& opt_text(e, "displayName"@) is Some
    &&& opt_text(e, "coinImageUrl"@) is Some
    &&& opt_text(e, "logoUrl"@) is Some
    &&& opt_int(e, "circulatingSupply"@, 0, u64::MAX as int) is Some
    &&& opt_text(e, "lastMarket"@) is Some
    &&& opt_int(e, "volume24Hr"@, 0, u64::MAX as int) is Some
    &&& opt_int(e, "volumeAllCurrencies"@, 0, u64::MAX as int) is Some
    &&& opt_text(e, "fromCurrency"@) is Some
    &&& opt_text(e, "toCurrency"@) is Some
    &&& opt_text(e, "coinMarketCapLink"@) is Some
    &&& opt_int(e, "startDate"@, 0, u32::MAX as int) is Some
}

/// The members of `e` make a quote record: the required ones are present
/// with their types and a non-empty symbol, and the optional ones are
/// absent, `null` or of their types.
pub open spec fn quote_members_readable(e: Seq<(String, JsonValue)>) -> bool {
    quote_required_readable(e) && quote_optionals_readable(e)
}

/// A quote record: an object whose members make a quote record.
pub open spec fn quote_readable(v: JsonValue) -> bool {
    v is Object && quote_members_readable(entries_of(v))
}

/// What decoding a quote reply yields: a missing envelope, an envelope of
/// the wrong shape or with a malformed record, the provider's own error
/// (whatever the number of records), no record, or else the last record.
pub open spec fn decodes_quote(json: JsonValue, r: Result<FinanceapiQuote, FinanceapiError>) -> bool {
    match quote_envelope(json) {
        None => r is Err && r->Err_0 is JsonParseError,
        Some(env) => match quote_shape(env) {
            None => r is Err && r->Err_0 is JsonSerdeError,
            Some((items, err)) => if exists|i: int|
                0 <= i < items.len() && !quote_readable(#[trigger] items[i]) {
                r is Err && r->Err_0 is JsonSerdeError
            } else {
                match err {
                    Some(m) => {
                        &&& r is Err
                        &&& r->Err_0 is JsonResponseError
                        &&& r->Err_0->JsonResponseError_0@ == m
                    },
                    None => if items.len() == 0 {
                        r is Err && r->Err_0 is SymbolNotFoundError
                    } else {
                        r is Ok && r->Ok_0.reads(entries_of(items.last()))
                    },
                }
            },
        },
    }
}

/// A reply whose records carry every optional member as `null`, and no
/// reported error, decodes without error into a record whose optional
/// fields all hold no value.
pub proof fn lemma_null_optionals_decode(
    json: JsonValue,
    env: JsonValue,
    items: Seq<JsonValue>,
    r: Result<FinanceapiQuote, FinanceapiError>,
)
    requires
        quote_envelope(json) == Some(env),
        quote_shape(env) == Some((items, None::<Seq<char>>)),
        items.len() > 0,
        forall|i: int|
            0 <= i < items.len() ==> {
                let v = #[trigger] items[i];
                &&& v is Object
                &&& quote_required_readable(entries_of(v))
                &&& quote_optionals_null(entries_of(v))
            },
        decodes_quote(json, r),
    ensures
        r is Ok,
        r->Ok_0.optionals_absent(),
{
    assert forall|i: int| 0 <= i < items.len() implies quote_readable(#[trigger] items[i]) by {
        let v = items[i];
        assert(quote_required_readable(entries_of(v)));
        assert(quote_optionals_null(entries_of(v)));
    }
}

impl FinanceapiQuote {
    /// No optional field of this record holds a value.
    pub open spec fn optionals_absent(self) -> bool {
        &&& self.type_disp is None
        &&& self.quote_source_name is None
        &&& self.custom_price_alert_confidence is None
        &&& self.currency is None
        &&& self.regular_market_change_percent is None
        &&& self.regular_market_price is None
        &&& self.message_board_id is None
        &&& self.short_name is None
        &&& self.long_name is None
        &&& self.regular_market_previous_close is None
        &&& self.bid is None
        &&& self.ask is None
        &&& self.bid_size is None
        &&& self.ask_size is None
        &&& self.financial_currency is None
        &&& self.regular_market_open is None
        &&& self.average_daily_volume3_month is None
        &&& self.average_daily_volume10_day is None
        &&& self.fifty_two_week_low_change is None
        &&& self.fifty_two_week_low_change_percent is None
        &&& self.fifty_two_week_range is None
        &&& self.fifty_two_week_high_change is None
        &&& self.fifty_two_week_high_change_percent is None
        &&& self.fifty_two_week_low is None
        &&& self.fifty_two_week_high is None
        &&& self.dividend_date is None
        &&& self.earnings_timestamp is None
        &&& self.earnings_timestamp_start is None
        &&& self.earnings_timestamp_end is None
        &&& self.trailing_annual_dividend_rate is None
        &&& self.trailing_p_e is None
        &&& self.trailing_annual_dividend_yield is None
        &&& self.eps_trailing_twelve_months is None
        &&& self.eps_forward is None
        &&& self.eps_current_year is None
        &&& self.price_eps_current_year is None
        &&& self.shares_outstanding is None
        &&& self.book_value is None
        &&& self.fifty_day_average is None
        &&& self.fifty_day_average_change is None
        &&& self.fifty_day_average_change_percent is None
        &&& self.two_hundred_day_average is None
        &&& self.two_hundred_day_average_change is None
        &&& self.two_hundred_day_average_change_percent is None
        &&& self.market_cap is None
        &&& self.forward_p_e is None
        &&& self.price_to_book is None
        &&& self.exchange_data_delayed_by is None
        &&& self.average_analyst_rating is None
        &&& self.crypto_tradeable is None
        &&& self.regular_market_change is None
        &&& self.regular_market_time is None
        &&& self.regular_market_day_high is None
        &&& self.regular_market_day_range is None
        &&& self.regular_market_day_low is None
        &&& self.regular_market_volume is None
        &&& self.first_trade_date_milliseconds is None
        &&& self.display_name is None
        &&& self.coin_image_url is None
        &&& self.logo_url is None
        &&& self.circulating_supply is None
        &&& self.last_market is None
        &&& self.volume24_hr is None
        &&& self.volume_all_currencies is None
        &&& self.from_currency is None
        &&& self.to_currency is None
        &&& self.coin_market_cap_link is None
        &&& self.start_date is None
    }

    /// This record holds exactly the members of the object `e`.
    pub open spec fn reads(self, e: Seq<(String, JsonValue)>) -> bool {
        &&& req_text(e, "language"@) == Some(self.language@)
        &&& req_text(e, "region"@) == Some(self.region@)
        &&& req_text(e, "quoteType"@) == Some(self.quote_type@)
        &&& opt_text(e, "typeDisp"@) == Some(text_view(self.type_disp))
        &&& opt_text(e, "quoteSourceName"@) == Some(text_view(self.quote_source_name))
        &&& req_bool(e, "triggerable"@) == Some(self.triggerable)
        &&& opt_text(e, "customPriceAlertConfidence"@) == Some(text_view(self.custom_price_alert_confidence))
        &&& opt_text(e, "currency"@) == Some(text_view(self.currency))
        &&& req_text(e, "marketState"@) == Some(self.market_state@)
        &&& opt_number(e, "regularMarketChangePercent"@) == Some(self.regular_market_change_percent)
        &&& opt_number(e, "regularMarketPrice"@) == Some(self.regular_market_price)
        &&& opt_text(e, "messageBoardId"@) == Some(text_view(self.message_board_id))
        &&& req_text(e, "exchange"@) == Some(self.exchange@)
        &&& opt_text(e, "shortName"@) == Some(text_view(self.short_name))
        &&& opt_text(e, "longName"@) == Some(text_view(self.long_name))
        &&& req_text(e, "exchangeTimezoneName"@) == Some(self.exchange_timezone_name@)
        &&& req_text(e, "exchangeTimezoneShortName"@) == Some(self.exchange_timezone_short_name@)
        &&& req_text(e, "market"@) == Some(self.market@)
        &&& req_int(e, "gmtOffSetMilliseconds"@, i32::MIN as int, i32::MAX as int) == Some(self.gmt_off_set_milliseconds as int)
        &&& req_bool(e, "esgPopulated"@) == Some(self.esg_populated)
        &&& opt_number(e, "regularMarketPreviousClose"@) == Some(self.regular_market_previous_close)
        &&& opt_number(e, "bid"@) == Some(self.bid)
        &&& opt_number(e, "ask"@) == Some(self.ask)
        &&& opt_int(e, "bidSize"@, i32::MIN as int, i32::MAX as int) == Some(i32_view(self.bid_size))
        &&& opt_int(e, "askSize"@, i32::MIN as int, i32::MAX as int) == Some(i32_view(self.ask_size))
        &&& req_text(e, "fullExchangeName"@) == Some(self.full_exchange_name@)
        &&& opt_text(e, "financialCurrency"@) == Some(text_view(self.financial_currency))
        &&& opt_number(e, "regularMarketOpen"@) == Some(self.regular_market_open)
        &&& opt_int(e, "averageDailyVolume3Month"@, 0, u64::MAX as int) == Some(u64_view(self.average_daily_volume3_month))
        &&& opt_int(e, "averageDailyVolume10Day"@, 0, u64::MAX as int) == Some(u64_view(self.average_daily_volume10_day))
        &&& opt_number(e, "fiftyTwoWeekLowChange"@) == Some(self.fifty_two_week_low_change)
        &&& opt_number(e, "fiftyTwoWeekLowChangePercent"@) == Some(self.fifty_two_week_low_change_percent)
        &&& opt_text(e, "fiftyTwoWeekRange"@) == Some(text_view(self.fifty_two_week_range))
        &&& opt_number(e, "fiftyTwoWeekHighChange"@) == Some(self.fifty_two_week_high_change)
        &&& opt_number(e, "fiftyTwoWeekHighChangePercent"@) == Some(self.fifty_two_week_high_change_percent)
        &&& opt_number(e, "fiftyTwoWeekLow"@) == Some(self.fifty_two_week_low)
        &&& opt_number(e, "fiftyTwoWeekHigh"@) == Some(self.fifty_two_week_high)
        &&& opt_int(e, "dividendDate"@, 0, u64::MAX as int) == Some(u64_view(self.dividend_date))
        &&& opt_int(e, "earningsTimestamp"@, 0, u64::MAX as int) == Some(u64_view(self.earnings_timestamp))
        &&& opt_int(e, "earningsTimestampStart"@, 0, u64::MAX as int) == Some(u64_view(self.earnings_timestamp_start))
        &&& opt_int(e, "earningsTimestampEnd"@, 0, u64::MAX as int) == Some(u64_view(self.earnings_timestamp_end))
        &&& opt_number(e, "trailingAnnualDividendRate"@) == Some(self.trailing_annual_dividend_rate)
        &&& opt_number(e, "trailingPE"@) == Some(self.trailing_p_e)
        &&& opt_number(e, "trailingAnnualDividendYield"@) == Some(self.trailing_annual_dividend_yield)
        &&& opt_number(e, "epsTrailingTwelveMonths"@) == Some(self.eps_trailing_twelve_months)
        &&& opt_number(e, "epsForward"@) == Some(self.eps_forward)
        &&& opt_number(e, "epsCurrentYear"@) == Some(self.eps_current_year)
        &&& opt_number(e, "priceEpsCurrentYear"@) == Some(self.price_eps_current_year)
        &&& opt_int(e, "sharesOutstanding"@, 0, u64::MAX as int) == Some(u64_view(self.shares_outstanding))
        &&& opt_number(e, "bookValue"@) == Some(self.book_value)
        &&& opt_number(e, "fiftyDayAverage"@) == Some(self.fifty_day_average)
        &&& opt_number(e, "fiftyDayAverageChange"@) == Some(self.fifty_day_average_change)
        &&& opt_number(e, "fiftyDayAverageChangePercent"@) == Some(self.fifty_day_average_change_percent)
        &&& opt_number(e, "twoHundredDayAverage"@) == Some(self.two_hundred_day_average)
        &&& opt_number(e, "twoHundredDayAverageChange"@) == Some(self.two_hundred_day_average_change)
        &&& opt_number(e, "twoHundredDayAverageChangePercent"@) == Some(self.two_hundred_day_average_change_percent)
        &&& opt_int(e, "marketCap"@, 0, u64::MAX as int) == Some(u64_view(self.market_cap))
        &&& opt_number(e, "forwardPE"@) == Some(self.forward_p_e)
        &&& opt_number(e, "priceToBook"@) == Some(self.price_to_book)
        &&& req_int(e, "sourceInterval"@, i32::MIN as int, i32::MAX as int) == Some(self.source_interval as int)
        &&& opt_int(e, "exchangeDataDelayedBy"@, i32::MIN as int, i32::MAX as int) == Some(i32_view(self.exchange_data_delayed_by))
        &&& opt_text(e, "averageAnalystRating"@) == Some(text_view(self.average_analyst_rating))
        &&& req_bool(e, "tradeable"@) == Some(self.tradeable)
        &&& opt_bool(e, "cryptoTradeable"@) == Some(self.crypto_tradeable)
        &&& opt_number(e, "regularMarketChange"@) == Some(self.regular_market_change)
        &&& opt_int(e, "regularMarketTime"@, 0, u32::MAX as int) == Some(u32_view(self.regular_market_time))
        &&& opt_number(e, "regularMarketDayHigh"@) == Some(self.regular_market_day_high)
        &&& opt_text(e, "regularMarketDayRange"@) == Some(text_view(self.regular_market_day_range))
        &&& opt_number(e, "regularMarketDayLow"@) == Some(self.regular_market_day_low)
        &&& opt_int(e, "regularMarketVolume"@, 0, u64::MAX as int) == Some(u64_view(self.regular_market_volume))
        &&& opt_int(e, "firstTradeDateMilliseconds"@, i64::MIN as int, i64::MAX as int) == Some(i64_view(self.first_trade_date_milliseconds))
        &&& req_int(e, "priceHint"@, i32::MIN as int, i32::MAX as int) == Some(self.price_hint as int)
        &&& opt_text(e, "displayName"@) == Some(text_view(self.display_name))
        &&& req_text(e, "symbol"@) == Some(self.symbol@)
        &&& opt_text(e, "coinImageUrl"@) == Some(text_view(self.coin_image_url))
        &&& opt_text(e, "logoUrl"@) == Some(text_view(self.logo_url))
        &&& opt_int(e, "circulatingSupply"@, 0, u64::MAX as int) == Some(u64_view(self.circulating_supply))
        &&& opt_text(e, "lastMarket"@) == Some(text_view(self.last_market))
        &&& opt_int(e, "volume24Hr"@, 0, u64::MAX as int) == Some(u64_view(self.volume24_hr))
        &&& opt_int(e, "volumeAllCurrencies"@, 0, u64::MAX as int) == Some(u64_view(self.volume_all_currencies))
        &&& opt_text(e, "fromCurrency"@) == Some(text_view(self.from_currency))
        &&& opt_text(e, "toCurrency"@) == Some(text_view(self.to_currency))
        &&& opt_text(e, "coinMarketCapLink"@) == Some(text_view(self.coin_market_cap_link))
        &&& opt_int(e, "startDate"@, 0, u32::MAX as int) == Some(u32_view(self.start_date))
    }

    /// Decodes the members of one quote record.
    pub fn from_members(e: &Vec<(String, JsonValue)>) -> (r: Option<FinanceapiQuote>)
        ensures
            r is Some <==> quote_members_readable(e@),
            r is Some ==> r->0.reads(e@),
    {
        let language = match read_text(e, "language") {
            Some(v) => v,
            None => return None,
        };
        let region = match read_text(e, "region") {
            Some(v) => v,
            None => return None,
        };
        let quote_type = match read_text(e, "quoteType") {
            Some(v) => v,
            None => return None,
        };
        let type_disp = match read_opt_text(e, "typeDisp") {
            Some(v) => v,
            None => return None,
        };
        let quote_source_name = match read_opt_text(e, "quoteSourceName") {
            Some(v) => v,
            None => return None,
        };
        let triggerable = match read_bool(e, "triggerable") {
            Some(v) => v,
            None => return None,
        };
        let custom_price_alert_confidence = match read_opt_text(e, "customPriceAlertConfidence") {
            Some(v) => v,
            None => return None,
        };
        let currency = match read_opt_text(e, "currency") {
            Some(v) => v,
            None => return None,
        };
        let market_state = match read_text(e, "marketState") {
            Some(v) => v,
            None => return None,
        };
        let regular_market_change_percent = match read_opt_number(e, "regularMarketChangePercent") {
            Some(v) => v,
            None => return None,
        };
        let regular_market_price = match read_opt_number(e, "regularMarketPrice") {
            Some(v) => v,
            None => return None,
        };
        let message_board_id = match read_opt_text(e, "messageBoardId") {
            Some(v) => v,
            None => return None,
        };
        let exchange = match read_text(e, "exchange") {
            Some(v) => v,
            None => return None,
        };
        let short_name = match read_opt_text(e, "shortName") {
            Some(v) => v,
            None => return None,
        };
        let long_name = match read_opt_text(e, "longName") {
            Some(v) => v,
            None => return None,
        };
        let exchange_timezone_name = match read_text(e, "exchangeTimezoneName") {
            Some(v) => v,
            None => return None,
        };
        let exchange_timezone_short_name = match read_text(e, "exchangeTimezoneShortName") {
            Some(v) => v,
            None => return None,
        };
        let market = match read_text(e, "market") {
            Some(v) => v,
            None => return None,
        };
        let gmt_off_set_milliseconds = match read_i32(e, "gmtOffSetMilliseconds") {
            Some(v) => v,
            None => return None,
        };
        let esg_populated = match read_bool(e, "esgPopulated") {
            Some(v) => v,
            None => return None,
        };
        let regular_market_previous_close = match read_opt_number(e, "regularMarketPreviousClose") {
            Some(v) => v,
            None => return None,
        };
        let bid = match read_opt_number(e, "bid") {
            Some(v) => v,
            None => return None,
        };
        let ask = match read_opt_number(e, "ask") {
            Some(v) => v,
            None => return None,
        };
        let bid_size = match read_opt_i32(e, "bidSize") {
            Some(v) => v,
            None => return None,
        };
        let ask_size = match read_opt_i32(e, "askSize") {
            Some(v) => v,
            None => return None,
        };
        let full_exchange_name = match read_text(e, "fullExchangeName") {
            Some(v) => v,
            None => return None,
        };
        let financial_currency = match read_opt_text(e, "financialCurrency") {
            Some(v) => v,
            None => return None,
        };
        let regular_market_open = match read_opt_number(e, "regularMarketOpen") {
            Some(v) => v,
            None => return None,
        };
        let average_daily_volume3_month = match read_opt_u64(e, "averageDailyVolume3Month") {
            Some(v) => v,
            None => return None,
        };
        let average_daily_volume10_day = match read_opt_u64(e, "averageDailyVolume10Day") {
            Some(v) => v,
            None => return None,
        };
        let fifty_two_week_low_change = match read_opt_number(e, "fiftyTwoWeekLowChange") {
            Some(v) => v,
            None => return None,
        };
        let fifty_two_week_low_change_percent = match read_opt_number(e, "fiftyTwoWeekLowChangePercent") {
            Some(v) => v,
            None => return None,
        };
        let fifty_two_week_range = match read_opt_text(e, "fiftyTwoWeekRange") {
            Some(v) => v,
            None => return None,
        };
        let fifty_two_week_high_change = match read_opt_number(e, "fiftyTwoWeekHighChange") {
            Some(v) => v,
            None => return None,
        };
        let fifty_two_week_high_change_percent = match read_opt_number(e, "fiftyTwoWeekHighChangePercent") {
            Some(v) => v,
            None => return None,
        };
        let fifty_two_week_low = match read_opt_number(e, "fiftyTwoWeekLow") {
            Some(v) => v,
            None => return None,
        };
        let fifty_two_week_high = match read_opt_number(e, "fiftyTwoWeekHigh") {
            Some(v) => v,
            None => return None,
        };
        let dividend_date = match read_opt_u64(e, "dividendDate") {
            Some(v) => v,
            None => return None,
        };
        let earnings_timestamp = match read_opt_u64(e, "earningsTimestamp") {
            Some(v) => v,
            None => return None,
        };
        let earnings_timestamp_start = match read_opt_u64(e, "earningsTimestampStart") {
            Some(v) => v,
            None => return None,
        };
        let earnings_timestamp_end = match read_opt_u64(e, "earningsTimestampEnd") {
            Some(v) => v,
            None => return None,
        };
        let trailing_annual_dividend_rate = match read_opt_number(e, "trailingAnnualDividendRate") {
            Some(v) => v,
            None => return None,
        };
        let trailing_p_e = match read_opt_number(e, "trailingPE") {
            Some(v) => v,
            None => return None,
        };
        let trailing_annual_dividend_yield = match read_opt_number(e, "trailingAnnualDividendYield") {
            Some(v) => v,
            None => return None,
        };
        let eps_trailing_twelve_months = match read_opt_number(e, "epsTrailingTwelveMonths") {
            Some(v) => v,
            None => return None,
        };
        let eps_forward = match read_opt_number(e, "epsForward") {
            Some(v) => v,
            None => return None,
        };
        let eps_current_year = match read_opt_number(e, "epsCurrentYear") {
            Some(v) => v,
            None => return None,
        };
        let price_eps_current_year = match read_opt_number(e, "priceEpsCurrentYear") {
            Some(v) => v,
            None => return None,
        };
        let shares_outstanding = match read_opt_u64(e, "sharesOutstanding") {
            Some(v) => v,
            None => return None,
        };
        let book_value = match read_opt_number(e, "bookValue") {
            Some(v) => v,
            None => return None,
        };
        let fifty_day_average = match read_opt_number(e, "fiftyDayAverage") {
            Some(v) => v,
            None => return None,
        };
        let fifty_day_average_change = match read_opt_number(e, "fiftyDayAverageChange") {
            Some(v) => v,
            None => return None,
        };
        let fifty_day_average_change_percent = match read_opt_number(e, "fiftyDayAverageChangePercent") {
            Some(v) => v,
            None => return None,
        };
        let two_hundred_day_average = match read_opt_number(e, "twoHundredDayAverage") {
            Some(v) => v,
            None => return None,
        };
        let two_hundred_day_average_change = match read_opt_number(e, "twoHundredDayAverageChange") {
            Some(v) => v,
            None => return None,
        };
        let two_hundred_day_average_change_percent = match read_opt_number(e, "twoHundredDayAverageChangePercent") {
            Some(v) => v,
            None => return None,
        };
        let market_cap = match read_opt_u64(e, "marketCap") {
            Some(v) => v,
            None => return None,
        };
        let forward_p_e = match read_opt_number(e, "forwardPE") {
            Some(v) => v,
            None => return None,
        };
        let price_to_book = match read_opt_number(e, "priceToBook") {
            Some(v) => v,
            None => return None,
        };
        let source_interval = match read_i32(e, "sourceInterval") {
            Some(v) => v,
            None => return None,
        };
        let exchange_data_delayed_by = match read_opt_i32(e, "exchangeDataDelayedBy") {
            Some(v) => v,
            None => return None,
        };
        let average_analyst_rating = match read_opt_text(e, "averageAnalystRating") {
            Some(v) => v,
            None => return None,
        };
        let tradeable = match read_bool(e, "tradeable") {
            Some(v) => v,
            None => return None,
        };
        let crypto_tradeable = match read_opt_bool(e, "cryptoTradeable") {
            Some(v) => v,
            None => return None,
        };
        let regular_market_change = match read_opt_number(e, "regularMarketChange") {
            Some(v) => v,
            None => return None,
        };
        let regular_market_time = match read_opt_u32(e, "regularMarketTime") {
            Some(v) => v,
            None => return None,
        };
        let regular_market_day_high = match read_opt_number(e, "regularMarketDayHigh") {
            Some(v) => v,
            None => return None,
        };
        let regular_market_day_range = match read_opt_text(e, "regularMarketDayRange") {
            Some(v) => v,
            None => return None,
        };
        let regular_market_day_low = match read_opt_number(e, "regularMarketDayLow") {
            Some(v) => v,
            None => return None,
        };
        let regular_market_volume = match read_opt_u64(e, "regularMarketVolume") {
            Some(v) => v,
            None => return None,
        };
        let first_trade_date_milliseconds = match read_opt_i64(e, "firstTradeDateMilliseconds") {
            Some(v) => v,
            None => return None,
        };
        let price_hint = match read_i32(e, "priceHint") {
            Some(v) => v,
            None => return None,
        };
        let display_name = match read_opt_text(e, "displayName") {
            Some(v) => v,
            None => return None,
        };
        let symbol = match read_text(e, "symbol") {
            Some(v) => v,
            None => return None,
        };
        let coin_image_url = match read_opt_text(e, "coinImageUrl") {
            Some(v) => v,
            None => return None,
        };
        let logo_url = match read_opt_text(e, "logoUrl") {
            Some(v) => v,
            None => return None,
        };
        let circulating_supply = match read_opt_u64(e, "circulatingSupply") {
            Some(v) => v,
            None => return None,
        };
        let last_market = match read_opt_text(e, "lastMarket") {
            Some(v) => v,
            None => return None,
        };
        let volume24_hr = match read_opt_u64(e, "volume24Hr") {
            Some(v) => v,
            None => return None,
        };
        let volume_all_currencies = match read_opt_u64(e, "volumeAllCurrencies") {
            Some(v) => v,
            None => return None,
        };
        let from_currency = match read_opt_text(e, "fromCurrency") {
            Some(v) => v,
            None => return None,
        };
        let to_currency = match read_opt_text(e, "toCurrency") {
            Some(v) => v,
            None => return None,
        };
        let coin_market_cap_link = match read_opt_text(e, "coinMarketCapLink") {
            Some(v) => v,
            None => return None,
        };
        let start_date = match read_opt_u32(e, "startDate") {
            Some(v) => v,
            None => return None,
        };
        if symbol.as_str().is_empty() {
            return None;
        }
        Some(FinanceapiQuote { language, region, quote_type, type_disp, quote_source_name, triggerable, custom_price_alert_confidence, currency, market_state, regular_market_change_percent, regular_market_price, message_board_id, exchange, short_name, long_name, exchange_timezone_name, exchange_timezone_short_name, market, gmt_off_set_milliseconds, esg_populated, regular_market_previous_close, bid, ask, bid_size, ask_size, full_exchange_name, financial_currency, regular_market_open, average_daily_volume3_month, average_daily_volume10_day, fifty_two_week_low_change, fifty_two_week_low_change_percent, fifty_two_week_range, fifty_two_week_high_change, fifty_two_week_high_change_percent, fifty_two_week_low, fifty_two_week_high, dividend_date, earnings_timestamp, earnings_timestamp_start, earnings_timestamp_end, trailing_annual_dividend_rate, trailing_p_e, trailing_annual_dividend_yield, eps_trailing_twelve_months, eps_forward, eps_current_year, price_eps_current_year, shares_outstanding, book_value, fifty_day_average, fifty_day_average_change, fifty_day_average_change_percent, two_hundred_day_average, two_hundred_day_average_change, two_hundred_day_average_change_percent, market_cap, forward_p_e, price_to_book, source_interval, exchange_data_delayed_by, average_analyst_rating, tradeable, crypto_tradeable, regular_market_change, regular_market_time, regular_market_day_high, regular_market_day_range, regular_market_day_low, regular_market_volume, first_trade_date_milliseconds, price_hint, display_name, symbol, coin_image_url, logo_url, circulating_supply, last_market, volume24_hr, volume_all_currencies, from_currency, to_currency, coin_market_cap_link, start_date })
    }
    /// Decodes a quote reply into its last record.
    pub fn from_json(json: JsonValue) -> (r: Result<FinanceapiQuote, FinanceapiError>)
        ensures
            decodes_quote(json, r),
    {
        let top = match &json {
            JsonValue::Object(top) => top,
            _ => return Err(FinanceapiError::JsonParseError),
        };
        let env = match get_member(top, "quoteResponse") {
            Some(env) => env,
            None => return Err(FinanceapiError::JsonParseError),
        };
        let e = match env {
            JsonValue::Object(e) => e,
            _ => return Err(FinanceapiError::JsonSerdeError),
        };
        let items = match get_member(e, "result") {
            Some(JsonValue::Array(items)) => items,
            _ => return Err(FinanceapiError::JsonSerdeError),
        };
        let err = match read_opt_text(e, "error") {
            None => return Err(FinanceapiError::JsonSerdeError),
            Some(err) => err,
        };
        let mut last: Option<FinanceapiQuote> = None;
        let mut i: usize = 0;
        while i < items.len()
            invariant
                quote_envelope(json) == Some(*env),
                quote_shape(*env) == Some((items@, text_view(err))),
                i <= items@.len(),
                forall|j: int| 0 <= j < i ==> quote_readable(#[trigger] items@[j]),
                i == 0 <==> last is None,
                i > 0 ==> last->0.reads(entries_of(items@[i - 1])),
            decreases items@.len() - i,
        {
            let found = match &items[i] {
                JsonValue::Object(m) => FinanceapiQuote::from_members(m),
                _ => None,
            };
            match found {
                Some(q) => last = Some(q),
                None => {
                    assert(!quote_readable(items@[i as int]));
                    return Err(FinanceapiError::JsonSerdeError);
                },
            }
            i = i + 1;
        }
        if let Some(m) = err {
            return Err(FinanceapiError::JsonResponseError(m));
        }
        if items.len() == 0 {
            return Err(FinanceapiError::SymbolNotFoundError);
        }
        match last {
            Some(q) => Ok(q),
            None => Err(FinanceapiError::UnexpectedError),
        }
    }
}

} // verus!
