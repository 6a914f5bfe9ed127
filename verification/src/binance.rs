//! Signed requests for the Binance REST API: query strings, signatures,
//! addresses and headers, and the screening of responses.

use vstd::prelude::*;
use crate::params::{is_json_object_of, law_single_param_query, query_string, query_string_of, ParamValue, ParamView, QueryParams};
use crate::text::decimal_text;
use crate::signing::{sign_payload, signature_text};
use crate::clock::{clock_bound, local_now_millis, utc_now_millis};
use crate::text::{contains_seq, contains_text};

verus! {

/// HTTP methods that a request can use.
#[derive(PartialEq, Eq, Structural, Clone, Copy, Debug)]
pub enum HttpMethod {
    Get,
    Post,
    Put,
    Delete,
    Head,
    Options,
    Connect,
    Patch,
    Trace,
}

/// The method's name as it appears on the wire.
pub open spec fn method_name(m: HttpMethod) -> Seq<char> {
    match m {
        HttpMethod::Get => "GET"@,
        HttpMethod::Post => "POST"@,
        HttpMethod::Put => "PUT"@,
        HttpMethod::Delete => "DELETE"@,
        HttpMethod::Head => "HEAD"@,
        HttpMethod::Options => "OPTIONS"@,
        HttpMethod::Connect => "CONNECT"@,
        HttpMethod::Patch => "PATCH"@,
        HttpMethod::Trace => "TRACE"@,
    }
}

impl HttpMethod {
    /// The method's name, as `Method::as_str` gives it.
    pub fn as_str(&self) -> (s: &'static str)
        ensures
            s@ == method_name(*self),
    {
        match self {
            HttpMethod::Get => "GET",
            HttpMethod::Post => "POST",
            HttpMethod::Put => "PUT",
            HttpMethod::Delete => "DELETE",
            HttpMethod::Head => "HEAD",
            HttpMethod::Options => "OPTIONS",
            HttpMethod::Connect => "CONNECT",
            HttpMethod::Patch => "PATCH",
            HttpMethod::Trace => "TRACE",
        }
    }
}

/// Methods whose parameters travel in the query string rather than in the body.
pub open spec fn uses_query(m: HttpMethod) -> bool {
    m == HttpMethod::Get || m == HttpMethod::Delete
}

/// A request ready to be sent: method, full address, headers in insertion order, and body.
pub struct SignedRequest {
    pub method: HttpMethod,
    pub url: String,
    pub headers: Vec<(String, String)>,
    pub body: String,
    /// The clock readings (milliseconds) that the request was built from, in
    /// the order they were read; empty for a request built without the clock.
    pub clock_readings: Ghost<Seq<int>>,
}

/// The mathematical content of a [`SignedRequest`].
pub struct RequestView {
    pub method: HttpMethod,
    pub url: Seq<char>,
    pub headers: Seq<(Seq<char>, Seq<char>)>,
    pub body: Seq<char>,
}

impl View for SignedRequest {
    type V = RequestView;

    open spec fn view(&self) -> RequestView {
        RequestView {
            method: self.method,
            url: self.url@,
            headers: self.headers@.map_values(|h: (String, String)| (h.0@, h.1@)),
            body: self.body@,
        }
    }
}

/// Connection settings of a Binance futures account.
pub struct BinanceFuturesApi {
    base_url: String,
    api_key: String,
    api_secret: String,
}

/// The mathematical content of a [`BinanceFuturesApi`].
pub struct ApiView {
    pub base_url: Seq<char>,
    pub api_key: Seq<char>,
    pub api_secret: Seq<char>,
}

impl View for BinanceFuturesApi {
    type V = ApiView;

    closed spec fn view(&self) -> ApiView {
        ApiView { base_url: self.base_url@, api_key: self.api_key@, api_secret: self.api_secret@ }
    }
}

/// The path and query part of the address: `?payload` for query methods with
/// parameters, then `&signature=...` when the request is signed.
pub open spec fn request_uri(
    api: ApiView,
    method: HttpMethod,
    path: Seq<char>,
    need_sign: bool,
    has_params: bool,
    payload: Seq<char>,
) -> Seq<char> {
    let unsigned = if uses_query(method) && has_params {
        path + "?"@ + payload
    } else {
        path
    };
    if need_sign {
        unsigned + "&signature="@ + signature_text(api.api_secret, payload)
    } else {
        unsigned
    }
}

/// The headers of a request, in the order in which they are set.
pub open spec fn request_headers(api: ApiView, need_sign: bool) -> Seq<(Seq<char>, Seq<char>)> {
    if need_sign {
        seq![
            ("X-MBX-APIKEY"@, api.api_key),
            ("Content-Type"@, "application/json"@),
            ("User-Agent"@, "nautilus_alarm"@),
        ]
    } else {
        seq![("User-Agent"@, "nautilus_alarm"@)]
    }
}

/// The request that carries `payload` for the given method, path and parameters.
pub open spec fn request_view(
    api: ApiView,
    method: HttpMethod,
    path: Seq<char>,
    need_sign: bool,
    params: Map<Seq<char>, ParamView>,
    payload: Seq<char>,
) -> RequestView {
    RequestView {
        method,
        url: api.base_url + request_uri(
            api,
            method,
            path,
            need_sign,
            params.dom() != Set::<Seq<char>>::empty(),
            payload,
        ),
        headers: request_headers(api, need_sign),
        body: payload,
    }
}

/// A signed GET request for `path` with `params`: the query string is the payload.
pub open spec fn signed_get(api: ApiView, path: Seq<char>, params: Map<Seq<char>, ParamView>) -> RequestView {
    request_view(api, HttpMethod::Get, path, true, params, query_string(params))
}

/// The parameters `{timestamp: now}` that most signed endpoints take.
pub open spec fn timestamp_params(now: int) -> Map<Seq<char>, ParamView> {
    Map::<Seq<char>, ParamView>::empty().insert("timestamp"@, ParamView::Int(now))
}

/// What a response body is passed on as: a non-empty body that does not
/// mention `code` (the venue's error objects carry a `code` member).
pub open spec fn accepted_body(data: Option<Seq<char>>) -> Option<Seq<char>> {
    match data {
        Some(d) => if d.len() > 0 && !contains_seq(d, "code"@) {
            Some(d)
        } else {
            None
        },
        None => None,
    }
}

/// The parameters of a transfer-history request made at UTC time `now`
/// when the local clock reads `local_now`.
pub open spec fn income_params(now: int, local_now: int) -> Map<Seq<char>, ParamView> {
    timestamp_params(now).insert("startTime"@, ParamView::Int(local_now - INCOME_WINDOW_MILLIS))
}

/// Eight days in milliseconds: the window of transfer history that is asked for.
pub const INCOME_WINDOW_MILLIS: i64 = 691_200_000;

impl BinanceFuturesApi {
    /// Settings for the account at `base_url` with the given key pair.
    pub fn new(base_url: &str, api_key: &str, api_secret: &str) -> (api: Self)
        ensures
            api@ == (ApiView { base_url: base_url@, api_key: api_key@, api_secret: api_secret@ }),
    {
        BinanceFuturesApi {
            base_url: String::from_str(base_url),
            api_key: String::from_str(api_key),
            api_secret: String::from_str(api_secret),
        }
    }

    /// The payload of a request: the query string for GET and DELETE; for other
    /// methods the compact JSON object of the parameters (members in the order
    /// of a `HashMap`), or nothing when there are none. It always succeeds.
    pub fn encode_payload(method: HttpMethod, params: &QueryParams) -> (r: Option<String>)
        ensures
            r is Some,
            uses_query(method) ==> r.unwrap()@ == query_string(params@),
            !uses_query(method) && params@.dom() == Set::<Seq<char>>::empty() ==> r.unwrap()@ == Seq::<char>::empty(),
            !uses_query(method) && params@.dom() != Set::<Seq<char>>::empty() ==> is_json_object_of(params@, r.unwrap()@),
    {
        if method == HttpMethod::Get || method == HttpMethod::Delete {
            Some(query_string_of(params))
        } else if params.is_empty() {
            Some(String::new())
        } else {
            params.to_json_text()
        }
    }

    /// Assembles the request that carries `payload`: address, signature and headers.
    pub fn assemble_request(
        &self,
        method: HttpMethod,
        path: &str,
        need_sign: bool,
        params: &QueryParams,
        payload: String,
    ) -> (r: SignedRequest)
        ensures
            r@ == request_view(self@, method, path@, need_sign, params@, payload@),
    {
        let mut uri = String::from_str(path);
        if (method == HttpMethod::Get || method == HttpMethod::Delete) && !params.is_empty() {
            uri.append("?");
            uri.append(payload.as_str());
        }
        let mut headers: Vec<(String, String)> = Vec::new();
        if need_sign {
            let sign = sign_payload(self.api_secret.as_str(), payload.as_str());
            uri.append("&signature=");
            uri.append(sign.as_str());
            headers.push((String::from_str("X-MBX-APIKEY"), self.api_key.clone()));
            headers.push((String::from_str("Content-Type"), String::from_str("application/json")));
        }
        headers.push((String::from_str("User-Agent"), String::from_str("nautilus_alarm")));
        let mut url = self.base_url.clone();
        url.append(uri.as_str());
        let r = SignedRequest { method, url, headers, body: payload, clock_readings: Ghost(Seq::empty()) };
        proof {
            let hv = r.headers@.map_values(|h: (String, String)| (h.0@, h.1@));
            assert(hv =~= request_headers(self@, need_sign));
        }
        r
    }

    /// Builds the request for `path`: the payload, the address with its query
    /// string and signature, and the headers.
    ///
    /// It always succeeds; a body-carrying request with parameters carries
    /// their compact JSON object (members in the order of a `HashMap`).
    pub fn package_request(
        &self,
        method: HttpMethod,
        path: &str,
        need_sign: bool,
        params: &QueryParams,
    ) -> (r: Option<SignedRequest>)
        ensures
            uses_query(method) ==> (r is Some && r.unwrap()@ == request_view(
                self@,
                method,
                path@,
                need_sign,
                params@,
                query_string(params@),
            )),
            r matches Some(req) ==> req@ == request_view(
                self@,
                method,
                path@,
                need_sign,
                params@,
                req@.body,
            ),
            r is Some,
            !uses_query(method) && params@.dom() == Set::<Seq<char>>::empty() ==> r.unwrap()@.body
                == Seq::<char>::empty(),
            !uses_query(method) && params@.dom() != Set::<Seq<char>>::empty() ==> is_json_object_of(
                params@,
                r.unwrap()@.body,
            ),
    {
        match Self::encode_payload(method, params) {
            Some(payload) => Some(self.assemble_request(method, path, need_sign, params, payload)),
            None => None,
        }
    }

    /// A signed GET request for `path` with `params`.
    pub fn signed_get_request(&self, path: &str, params: &QueryParams) -> (r: SignedRequest)
        ensures
            r@ == signed_get(self@, path@, params@),
    {
        let payload = query_string_of(params);
        self.assemble_request(HttpMethod::Get, path, true, params, payload)
    }

    /// A signed GET request for `path` whose only parameter is `timestamp`.
    fn timestamped_get(&self, path: &str, now: i64) -> (r: SignedRequest)
        ensures
            r@ == signed_get(self@, path@, timestamp_params(now as int)),
    {
        let mut params = QueryParams::new();
        params.insert(String::from_str("timestamp"), ParamValue::Int(now));
        self.signed_get_request(path, &params)
    }

    /// The account request (`/fapi/v2/account`) at time `now`.
    pub fn account_request(&self, now: i64) -> (r: SignedRequest)
        ensures
            r@ == signed_get(self@, "/fapi/v2/account"@, timestamp_params(now as int)),
    {
        self.timestamped_get("/fapi/v2/account", now)
    }

    /// The position-risk request (`/fapi/v2/positionRisk`) at time `now`.
    pub fn position_risk_request(&self, now: i64) -> (r: SignedRequest)
        ensures
            r@ == signed_get(self@, "/fapi/v2/positionRisk"@, timestamp_params(now as int)),
    {
        self.timestamped_get("/fapi/v2/positionRisk", now)
    }

    /// The portfolio-margin account request (`/papi/v1/um/account`) at time `now`.
    pub fn position_um_request(&self, now: i64) -> (r: SignedRequest)
        ensures
            r@ == signed_get(self@, "/papi/v1/um/account"@, timestamp_params(now as int)),
    {
        self.timestamped_get("/papi/v1/um/account", now)
    }

    /// The trade-history request (`/fapi/v1/userTrades`) for `symbol`, at most
    /// 1000 trades, at time `now`.
    pub fn trade_history_request(&self, symbol: &str, now: i64) -> (r: SignedRequest)
        ensures
            r@ == signed_get(
                self@,
                "/fapi/v1/userTrades"@,
                Map::<Seq<char>, ParamView>::empty().insert("symbol"@, ParamView::Text(symbol@)).insert(
                    "limit"@,
                    ParamView::Int(1000),
                ).insert("timestamp"@, ParamView::Int(now as int)),
            ),
    {
        let mut params = QueryParams::new();
        params.insert(String::from_str("symbol"), ParamValue::Text(String::from_str(symbol)));
        params.insert(String::from_str("limit"), ParamValue::Int(1000));
        params.insert(String::from_str("timestamp"), ParamValue::Int(now));
        self.signed_get_request("/fapi/v1/userTrades", &params)
    }

    /// The open USDC spot orders request (`/v5/order/realtime`).
    pub fn open_orders_usdc_request(&self) -> (r: SignedRequest)
        ensures
            r@ == signed_get(
                self@,
                "/v5/order/realtime"@,
                Map::<Seq<char>, ParamView>::empty().insert("category"@, ParamView::Text("spot"@)).insert(
                    "settleCoin"@,
                    ParamView::Text("USDC"@),
                ),
            ),
    {
        let mut params = QueryParams::new();
        params.insert(String::from_str("category"), ParamValue::Text(String::from_str("spot")));
        params.insert(String::from_str("settleCoin"), ParamValue::Text(String::from_str("USDC")));
        self.signed_get_request("/v5/order/realtime", &params)
    }

    /// The positions request (`/fapi/v2/positionRisk`) at time `now`; the
    /// category does not change the request.
    pub fn position_request(&self, category: &str, now: i64) -> (r: SignedRequest)
        ensures
            r@ == signed_get(self@, "/fapi/v2/positionRisk"@, timestamp_params(now as int)),
    {
        self.timestamped_get("/fapi/v2/positionRisk", now)
    }

    /// The latest-price request (`/fapi/v1/ticker/price`) for `symbol`.
    pub fn klines_request(&self, symbol: &str) -> (r: SignedRequest)
        ensures
            r@ == signed_get(
                self@,
                "/fapi/v1/ticker/price"@,
                Map::<Seq<char>, ParamView>::empty().insert("symbol"@, ParamView::Text(symbol@)),
            ),
    {
        let mut params = QueryParams::new();
        params.insert(String::from_str("symbol"), ParamValue::Text(String::from_str(symbol)));
        self.signed_get_request("/fapi/v1/ticker/price", &params)
    }

    /// The open-orders request (`/fapi/v1/openOrders`) at time `now`; the
    /// category does not change the request.
    pub fn open_orders_request(&self, category: &str, now: i64) -> (r: SignedRequest)
        ensures
            r@ == signed_get(self@, "/fapi/v1/openOrders"@, timestamp_params(now as int)),
    {
        self.timestamped_get("/fapi/v1/openOrders", now)
    }

    /// The transfer-history request (`/sapi/v1/futures/transfer`) at time
    /// `utc_now`, starting eight days before `local_now`; the income type
    /// does not change the request.
    pub fn income_request(&self, income_type: &str, utc_now: i64, local_now: i64) -> (r: SignedRequest)
        requires
            local_now >= i64::MIN + INCOME_WINDOW_MILLIS,
        ensures
            r@ == signed_get(
                self@,
                "/sapi/v1/futures/transfer"@,
                timestamp_params(utc_now as int).insert(
                    "startTime"@,
                    ParamView::Int(local_now - INCOME_WINDOW_MILLIS),
                ),
            ),
    {
        let last_day = local_now - INCOME_WINDOW_MILLIS;
        let mut params = QueryParams::new();
        params.insert(String::from_str("timestamp"), ParamValue::Int(utc_now));
        params.insert(String::from_str("startTime"), ParamValue::Int(last_day));
        self.signed_get_request("/sapi/v1/futures/transfer", &params)
    }

    /// The account request, stamped with the current time.
    pub fn account(&self) -> (r: SignedRequest)
        ensures
            exists|now: int| r@ == signed_get(self@, "/fapi/v2/account"@, timestamp_params(now)),
            r.clock_readings@.len() == 1,
            -clock_bound() <= r.clock_readings@[0] <= clock_bound(),
            r@ == signed_get(self@, "/fapi/v2/account"@, timestamp_params(r.clock_readings@[0])),
    {
        let now = utc_now_millis();
        let mut r = self.account_request(now);
        proof {
            r.clock_readings@ = seq![now as int];
        }
        r
    }

    /// The position-risk request, stamped with the current time.
    pub fn position_risk(&self) -> (r: SignedRequest)
        ensures
            exists|now: int| r@ == signed_get(self@, "/fapi/v2/positionRisk"@, timestamp_params(now)),
            r.clock_readings@.len() == 1,
            -clock_bound() <= r.clock_readings@[0] <= clock_bound(),
            r@ == signed_get(self@, "/fapi/v2/positionRisk"@, timestamp_params(r.clock_readings@[0])),
    {
        let now = utc_now_millis();
        let mut r = self.position_risk_request(now);
        proof {
            r.clock_readings@ = seq![now as int];
        }
        r
    }

    /// The portfolio-margin account request, stamped with the current time.
    pub fn position_um(&self) -> (r: SignedRequest)
        ensures
            exists|now: int| r@ == signed_get(self@, "/papi/v1/um/account"@, timestamp_params(now)),
            r.clock_readings@.len() == 1,
            -clock_bound() <= r.clock_readings@[0] <= clock_bound(),
            r@ == signed_get(self@, "/papi/v1/um/account"@, timestamp_params(r.clock_readings@[0])),
    {
        let now = utc_now_millis();
        let mut r = self.position_um_request(now);
        proof {
            r.clock_readings@ = seq![now as int];
        }
        r
    }

    /// The trade-history request for `symbol`, stamped with the current time.
    pub fn trade_hiostory(&self, symbol: &str) -> (r: SignedRequest)
        ensures
            exists|now: int| r@ == signed_get(
                self@,
                "/fapi/v1/userTrades"@,
                Map::<Seq<char>, ParamView>::empty().insert("symbol"@, ParamView::Text(symbol@)).insert(
                    "limit"@,
                    ParamView::Int(1000),
                ).insert("timestamp"@, ParamView::Int(now)),
            ),
            r.clock_readings@.len() == 1,
            -clock_bound() <= r.clock_readings@[0] <= clock_bound(),
            r@ == signed_get(
                self@,
                "/fapi/v1/userTrades"@,
                Map::<Seq<char>, ParamView>::empty().insert("symbol"@, ParamView::Text(symbol@)).insert(
                    "limit"@,
                    ParamView::Int(1000),
                ).insert("timestamp"@, ParamView::Int(r.clock_readings@[0])),
            ),
    {
        let now = utc_now_millis();
        let mut r = self.trade_history_request(symbol, now);
        proof {
            r.clock_readings@ = seq![now as int];
        }
        r
    }

    /// The open USDC spot orders request.
    pub fn get_open_orders_usdc(&self) -> (r: SignedRequest)
        ensures
            r@ == signed_get(
                self@,
                "/v5/order/realtime"@,
                Map::<Seq<char>, ParamView>::empty().insert("category"@, ParamView::Text("spot"@)).insert(
                    "settleCoin"@,
                    ParamView::Text("USDC"@),
                ),
            ),
    {
        self.open_orders_usdc_request()
    }

    /// The positions request, stamped with the current time.
    pub fn position(&self, category: &str) -> (r: SignedRequest)
        ensures
            exists|now: int| r@ == signed_get(self@, "/fapi/v2/positionRisk"@, timestamp_params(now)),
            r.clock_readings@.len() == 1,
            -clock_bound() <= r.clock_readings@[0] <= clock_bound(),
            r@ == signed_get(self@, "/fapi/v2/positionRisk"@, timestamp_params(r.clock_readings@[0])),
    {
        let now = utc_now_millis();
        let mut r = self.position_request(category, now);
        proof {
            r.clock_readings@ = seq![now as int];
        }
        r
    }

    /// The latest-price request for `symbol`.
    pub fn get_klines(&self, symbol: &str) -> (r: SignedRequest)
        ensures
            r@ == signed_get(
                self@,
                "/fapi/v1/ticker/price"@,
                Map::<Seq<char>, ParamView>::empty().insert("symbol"@, ParamView::Text(symbol@)),
            ),
    {
        self.klines_request(symbol)
    }

    /// The open-orders request, stamped with the current time.
    pub fn get_open_orders(&self, category: &str) -> (r: SignedRequest)
        ensures
            exists|now: int| r@ == signed_get(self@, "/fapi/v1/openOrders"@, timestamp_params(now)),
            r.clock_readings@.len() == 1,
            -clock_bound() <= r.clock_readings@[0] <= clock_bound(),
            r@ == signed_get(self@, "/fapi/v1/openOrders"@, timestamp_params(r.clock_readings@[0])),
    {
        let now = utc_now_millis();
        let mut r = self.open_orders_request(category, now);
        proof {
            r.clock_readings@ = seq![now as int];
        }
        r
    }

    /// The transfer-history request for the eight days before the local
    /// clock's reading, stamped with the current UTC time.
    pub fn get_income(&self, income_type: &str) -> (r: SignedRequest)
        ensures
            exists|now: int, local_now: int|
                r@ == signed_get(self@, "/sapi/v1/futures/transfer"@, #[trigger] income_params(now, local_now)),
            r.clock_readings@.len() == 2,
            -clock_bound() <= r.clock_readings@[0] <= clock_bound(),
            -clock_bound() <= r.clock_readings@[1] <= clock_bound(),
            r@ == signed_get(
                self@,
                "/sapi/v1/futures/transfer"@,
                income_params(r.clock_readings@[0], r.clock_readings@[1]),
            ),
    {
        let local_now = local_now_millis();
        let utc_now = utc_now_millis();
        let mut r = self.income_request(income_type, utc_now, local_now);
        assert(r@ == signed_get(self@, "/sapi/v1/futures/transfer"@, income_params(utc_now as int, local_now as int)));
        proof {
            r.clock_readings@ = seq![utc_now as int, local_now as int];
        }
        r
    }

    /// Screens a response body: a non-empty body without `code` in it is
    /// passed on; an empty body, an error object or a missing body gives `None`.
    pub fn check_response_data(&self, data_s: Option<String>) -> (r: Option<String>)
        ensures
            match r {
                Some(s) => accepted_body(match data_s {
                    Some(d) => Some(d@),
                    None => None,
                }) == Some(s@),
                None => accepted_body(match data_s {
                    Some(d) => Some(d@),
                    None => None,
                }) is None,
            },
    {
        match data_s {
            Some(data) => {
                if !data.as_str().is_empty() {
                    if contains_text(data.as_str(), "code") {
                        None
                    } else {
                        Some(data)
                    }
                } else {
                    None
                }
            },
            None => None,
        }
    }
}

/// The body that a response is read as: its text (`None` when it could not
/// be read) when the status is 200 OK, nothing otherwise. The body of an
/// error answer is read for the error log, so it must be readable.
pub fn response_text(status: u16, text: Option<String>) -> (r: Option<String>)
    requires
        status != 200 ==> text is Some,
    ensures
        status == 200 ==> r == text,
        status != 200 ==> r is None,
{
    if status == 200 {
        text
    } else {
        None
    }
}

/// A request stamped with time `now` and no other parameter is
/// `GET base_url + path + "?timestamp=now&signature=sig"`, where `sig` signs
/// exactly the query string that is sent, and the body is that query string.
pub proof fn law_timestamped_request(api: ApiView, path: Seq<char>, now: int)
    ensures
        ({
            let payload = "timestamp"@ + seq!['='] + decimal_text(now);
            let r = signed_get(api, path, timestamp_params(now));
            &&& r.method == HttpMethod::Get
            &&& r.body == payload
            &&& r.url == api.base_url + path + "?"@ + payload + "&signature="@ + signature_text(
                api.api_secret,
                payload,
            )
            &&& r.headers == request_headers(api, true)
        }),
{
    law_single_param_query("timestamp"@, ParamView::Int(now));
    assert(timestamp_params(now).dom().contains("timestamp"@));
}

/// Every signed request carries the API key, and its address ends with the
/// signature of exactly the payload that the request carries.
pub proof fn law_signature_covers_payload(
    api: ApiView,
    method: HttpMethod,
    path: Seq<char>,
    params: Map<Seq<char>, ParamView>,
    payload: Seq<char>,
)
    ensures
        ({
            let r = request_view(api, method, path, true, params, payload);
            let sig = "&signature="@ + signature_text(api.api_secret, payload);
            &&& r.url.len() >= sig.len()
            &&& r.url.subrange(r.url.len() - sig.len(), r.url.len() as int) == sig
            &&& r.body == payload
            &&& r.headers[0] == ("X-MBX-APIKEY"@, api.api_key)
        }),
{
    let r = request_view(api, method, path, true, params, payload);
    let sig = "&signature="@ + signature_text(api.api_secret, payload);
    let unsigned = if uses_query(method) && params.dom() != Set::<Seq<char>>::empty() {
        path + "?"@ + payload
    } else {
        path
    };
    assert(r.url =~= (api.base_url + unsigned) + sig);
    assert(r.url.subrange(r.url.len() - sig.len(), r.url.len() as int) =~= sig);
}

} // verus!
