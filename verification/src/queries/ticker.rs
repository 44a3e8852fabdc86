//! Quotes: the price of a symbol.
use vstd::prelude::*;
use vstd::string::*;
use crate::error::{err_view, RobinhoodErr, RobinhoodErrView, TransportError, TransportErrorView};
use crate::json::{
    bool_member, bool_member_of, json_model, optional_text_member, optional_text_member_of,
    text_member, text_member_of, usize_member, usize_member_of, Json,
};
use crate::login::{reply_view, Robinhood};
use crate::text::{parse_usize, whole_number};
use crate::{QUOTES_PATH, ROBINHOOD_API_URL};

verus! {

/// What the service says of a symbol.
#[derive(Debug, Default, Clone, PartialEq, Eq)]
pub struct QuotesResponse {
    pub ask_price: String,
    pub ask_size: usize,
    pub bid_price: String,
    pub bid_size: usize,
    pub last_trade_price: String,
    pub last_extended_hours_trade_price: Option<String>,
    pub previous_close: String,
    pub adjusted_previous_close: String,
    pub previous_close_date: String,
    pub symbol: String,
    pub trading_halted: bool,
    pub has_traded: bool,
    pub last_trade_price_source: String,
    pub updated_at: String,
    pub instrument: String,
    pub instrument_id: String,
}

pub struct QuotesResponseView {
    pub ask_price: Seq<char>,
    pub ask_size: usize,
    pub bid_price: Seq<char>,
    pub bid_size: usize,
    pub last_trade_price: Seq<char>,
    pub last_extended_hours_trade_price: Option<Seq<char>>,
    pub previous_close: Seq<char>,
    pub adjusted_previous_close: Seq<char>,
    pub previous_close_date: Seq<char>,
    pub symbol: Seq<char>,
    pub trading_halted: bool,
    pub has_traded: bool,
    pub last_trade_price_source: Seq<char>,
    pub updated_at: Seq<char>,
    pub instrument: Seq<char>,
    pub instrument_id: Seq<char>,
}

impl View for QuotesResponse {
    type V = QuotesResponseView;

    open spec fn view(&self) -> QuotesResponseView {
        QuotesResponseView {
            ask_price: self.ask_price@,
            ask_size: self.ask_size,
            bid_price: self.bid_price@,
            bid_size: self.bid_size,
            last_trade_price: self.last_trade_price@,
            last_extended_hours_trade_price: crate::error::text_of(self.last_extended_hours_trade_price),
            previous_close: self.previous_close@,
            adjusted_previous_close: self.adjusted_previous_close@,
            previous_close_date: self.previous_close_date@,
            symbol: self.symbol@,
            trading_halted: self.trading_halted,
            has_traded: self.has_traded,
            last_trade_price_source: self.last_trade_price_source@,
            updated_at: self.updated_at@,
            instrument: self.instrument@,
            instrument_id: self.instrument_id@,
        }
    }
}

impl QuotesResponseView {
    /// The quote that a response body stands for, or the name of the first
    /// member that is missing or of the wrong form. The body must be an
    /// object that holds every member of a quote in its own form: texts,
    /// the two sizes as whole numbers, the two flags as booleans; only
    /// `last_extended_hours_trade_price` may be null or left out. Members
    /// beyond those are passed over.
    pub open spec fn of_json(json: Json) -> Result<QuotesResponseView, Seq<char>> {
        if text_member_of(json, "ask_price"@) is None {
            Err("ask_price"@)
        } else if usize_member_of(json, "ask_size"@) is None {
            Err("ask_size"@)
        } else if text_member_of(json, "bid_price"@) is None {
            Err("bid_price"@)
        } else if usize_member_of(json, "bid_size"@) is None {
            Err("bid_size"@)
        } else if text_member_of(json, "last_trade_price"@) is None {
            Err("last_trade_price"@)
        } else if optional_text_member_of(json, "last_extended_hours_trade_price"@) is None {
            Err("last_extended_hours_trade_price"@)
        } else if text_member_of(json, "previous_close"@) is None {
            Err("previous_close"@)
        } else if text_member_of(json, "adjusted_previous_close"@) is None {
            Err("adjusted_previous_close"@)
        } else if text_member_of(json, "previous_close_date"@) is None {
            Err("previous_close_date"@)
        } else if text_member_of(json, "symbol"@) is None {
            Err("symbol"@)
        } else if bool_member_of(json, "trading_halted"@) is None {
            Err("trading_halted"@)
        } else if bool_member_of(json, "has_traded"@) is None {
            Err("has_traded"@)
        } else if text_member_of(json, "last_trade_price_source"@) is None {
            Err("last_trade_price_source"@)
        } else if text_member_of(json, "updated_at"@) is None {
            Err("updated_at"@)
        } else if text_member_of(json, "instrument"@) is None {
            Err("instrument"@)
        } else if text_member_of(json, "instrument_id"@) is None {
            Err("instrument_id"@)
        } else {
            Ok(
                QuotesResponseView {
                    ask_price: text_member_of(json, "ask_price"@)->0,
                    ask_size: usize_member_of(json, "ask_size"@)->0,
                    bid_price: text_member_of(json, "bid_price"@)->0,
                    bid_size: usize_member_of(json, "bid_size"@)->0,
                    last_trade_price: text_member_of(json, "last_trade_price"@)->0,
                    last_extended_hours_trade_price: optional_text_member_of(json, "last_extended_hours_trade_price"@)->0,
                    previous_close: text_member_of(json, "previous_close"@)->0,
                    adjusted_previous_close: text_member_of(json, "adjusted_previous_close"@)->0,
                    previous_close_date: text_member_of(json, "previous_close_date"@)->0,
                    symbol: text_member_of(json, "symbol"@)->0,
                    trading_halted: bool_member_of(json, "trading_halted"@)->0,
                    has_traded: bool_member_of(json, "has_traded"@)->0,
                    last_trade_price_source: text_member_of(json, "last_trade_price_source"@)->0,
                    updated_at: text_member_of(json, "updated_at"@)->0,
                    instrument: text_member_of(json, "instrument"@)->0,
                    instrument_id: text_member_of(json, "instrument_id"@)->0,
                },
            )
        }
    }
}

impl QuotesResponse {
    /// Reads a quote from a response body.
    pub fn from_value(body: &serde_json::Value) -> (read: Result<QuotesResponse, &'static str>)
        ensures
            match read {
                Ok(quote) => QuotesResponseView::of_json(json_model(*body)) == Ok::<
                    QuotesResponseView,
                    Seq<char>,
                >(quote@),
                Err(name) => QuotesResponseView::of_json(json_model(*body)) == Err::<
                    QuotesResponseView,
                    Seq<char>,
                >(name@),
            },
    {
        let ask_price = match text_member(body, "ask_price") {
            Some(text) => text.to_owned(),
            None => { return Err("ask_price"); },
        };
        let ask_size = match usize_member(body, "ask_size") {
            Some(number) => number,
            None => { return Err("ask_size"); },
        };
        let bid_price = match text_member(body, "bid_price") {
            Some(text) => text.to_owned(),
            None => { return Err("bid_price"); },
        };
        let bid_size = match usize_member(body, "bid_size") {
            Some(number) => number,
            None => { return Err("bid_size"); },
        };
        let last_trade_price = match text_member(body, "last_trade_price") {
            Some(text) => text.to_owned(),
            None => { return Err("last_trade_price"); },
        };
        let last_extended_hours_trade_price = match optional_text_member(body, "last_extended_hours_trade_price") {
            Ok(text) => text,
            Err(_) => { return Err("last_extended_hours_trade_price"); },
        };
        let previous_close = match text_member(body, "previous_close") {
            Some(text) => text.to_owned(),
            None => { return Err("previous_close"); },
        };
        let adjusted_previous_close = match text_member(body, "adjusted_previous_close") {
            Some(text) => text.to_owned(),
            None => { return Err("adjusted_previous_close"); },
        };
        let previous_close_date = match text_member(body, "previous_close_date") {
            Some(text) => text.to_owned(),
            None => { return Err("previous_close_date"); },
        };
        let symbol = match text_member(body, "symbol") {
            Some(text) => text.to_owned(),
            None => { return Err("symbol"); },
        };
        let trading_halted = match bool_member(body, "trading_halted") {
            Some(flag) => flag,
            None => { return Err("trading_halted"); },
        };
        let has_traded = match bool_member(body, "has_traded") {
            Some(flag) => flag,
            None => { return Err("has_traded"); },
        };
        let last_trade_price_source = match text_member(body, "last_trade_price_source") {
            Some(text) => text.to_owned(),
            None => { return Err("last_trade_price_source"); },
        };
        let updated_at = match text_member(body, "updated_at") {
            Some(text) => text.to_owned(),
            None => { return Err("updated_at"); },
        };
        let instrument = match text_member(body, "instrument") {
            Some(text) => text.to_owned(),
            None => { return Err("instrument"); },
        };
        let instrument_id = match text_member(body, "instrument_id") {
            Some(text) => text.to_owned(),
            None => { return Err("instrument_id"); },
        };
        Ok(
            QuotesResponse {
                ask_price,
                ask_size,
                bid_price,
                bid_size,
                last_trade_price,
                last_extended_hours_trade_price,
                previous_close,
                adjusted_previous_close,
                previous_close_date,
                symbol,
                trading_halted,
                has_traded,
                last_trade_price_source,
                updated_at,
                instrument,
                instrument_id,
            },
        )
    }
}

/// The address that gives the quote of `symbol`.
pub open spec fn quote_url_of(symbol: Seq<char>) -> Seq<char> {
    ROBINHOOD_API_URL@ + QUOTES_PATH@ + symbol + "/"@
}

/// The failure that stands for a body that is no quote, by the member at
/// fault.
pub open spec fn decode_failure(member: Seq<char>) -> TransportErrorView {
    TransportErrorView {
        status: None,
        url: None,
        connect: false,
        timeout: false,
        message: "error decoding response body: missing or malformed member `"@ + member + "`"@,
    }
}

/// What the reply to a request for a quote means.
pub open spec fn quote_outcome(
    reply: Result<Json, TransportErrorView>,
) -> Result<QuotesResponseView, RobinhoodErrView> {
    match reply {
        Ok(body) => match QuotesResponseView::of_json(body) {
            Ok(quote) => Ok(quote),
            Err(member) => Err(RobinhoodErrView::RequestError(decode_failure(member))),
        },
        Err(cause) => Err(RobinhoodErrView::RequestError(cause)),
    }
}

/// The price that the reply to a request for a quote gives: the last trade
/// price of the quote, where it is a whole number.
pub open spec fn price_outcome(
    reply: Result<Json, TransportErrorView>,
) -> Result<usize, RobinhoodErrView> {
    match quote_outcome(reply) {
        Ok(quote) => match whole_number(quote.last_trade_price) {
            Ok(price) => Ok(price),
            Err(fault) => Err(RobinhoodErrView::ParseIntError(fault.message())),
        },
        Err(error) => Err(error),
    }
}

impl Robinhood {
    /// The address that gives the quote of `symbol`: to be asked for with
    /// `Get`, through `req`.
    pub fn quote_url(symbol: &str) -> (url: String)
        ensures
            url@ == quote_url_of(symbol@),
    {
        String::from_str(ROBINHOOD_API_URL).concat(QUOTES_PATH).concat(symbol).concat("/")
    }

    /// The quote in the reply to a request for one.
    pub fn get_quote(
        reply: Result<serde_json::Value, TransportError>,
    ) -> (outcome: Result<QuotesResponse, RobinhoodErr>)
        ensures
            crate::error::result_view(outcome) == quote_outcome(reply_view(reply)),
    {
        let body = match reply {
            Ok(body) => body,
            Err(cause) => { return Err(RobinhoodErr::RequestError(cause)); },
        };
        match QuotesResponse::from_value(&body) {
            Ok(quote) => Ok(quote),
            Err(member) => Err(
                RobinhoodErr::RequestError(
                    TransportError {
                        status: None,
                        url: None,
                        connect: false,
                        timeout: false,
                        message: String::from_str(
                            "error decoding response body: missing or malformed member `",
                        ).concat(member).concat("`"),
                    },
                ),
            ),
        }
    }

    /// The price in the reply to a request for a quote.
    pub fn get_price(
        reply: Result<serde_json::Value, TransportError>,
    ) -> (outcome: Result<usize, RobinhoodErr>)
        ensures
            err_view(outcome) == price_outcome(reply_view(reply)),
    {
        let quote = match Robinhood::get_quote(reply) {
            Ok(quote) => quote,
            Err(error) => { return Err(error); },
        };
        match parse_usize(quote.last_trade_price.as_str()) {
            Ok(price) => Ok(price),
            Err(fault) => Err(RobinhoodErr::ParseIntError(fault.to_message())),
        }
    }
}

} // verus!
