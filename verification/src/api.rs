//! The client core: the settings and the request of each operation.
//!
//! Each operation builds its URL from the fixed path segment and its query
//! parameters in a fixed order, the api key always first.  Issuing the GET
//! and decoding the body are the surrounding application's and
//! [`crate::decode_response`]'s work.

use vstd::prelude::*;
use vstd::string::StringExecFns;

use crate::error::CurrencyapiError;
use crate::request::RequestUrl;
use crate::request::apikey_query;
use crate::request::appended_query;
use crate::request::construct_base_url;
use crate::request::form_safe;
use crate::request::form_safe_char;
use crate::request::trim_slashes;

verus! {

/// Immutable holder of the api key, created once at client construction and
/// shared read-only by every request.
#[derive(Debug, Clone)]
pub struct Settings {
    api_key: String,
}

impl View for Settings {
    type V = Seq<char>;

    closed spec fn view(&self) -> Seq<char> {
        self.api_key@
    }
}

impl Settings {
    /// The api key is never empty.
    pub open spec fn wf(&self) -> bool {
        self@.len() > 0
    }

    /// Creates the settings holding `api_key`.
    pub fn new(api_key: &str) -> (s: Settings)
        requires
            api_key@.len() > 0,
        ensures
            s@ == api_key@,
            s.wf(),
    {
        Settings { api_key: String::from_str(api_key) }
    }

    /// The held api key.
    pub fn api_key(&self) -> (r: &str)
        ensures
            r@ == self@,
    {
        self.api_key.as_str()
    }
}

/// The decimal digits of `n`, most significant first.
pub open spec fn spec_nat_digits(n: nat) -> Seq<char>
    decreases n,
{
    if n < 10 {
        seq![digit_char(n)]
    } else {
        spec_nat_digits(n / 10) + seq![digit_char(n % 10)]
    }
}

/// The character for the decimal digit `d`.
pub open spec fn digit_char(d: nat) -> char {
    ((d + 48) as u8) as char
}

/// The decimal rendering of `n`: a '-' sign for a negative value, then its
/// digits.
pub open spec fn spec_int_string(n: int) -> Seq<char> {
    if n < 0 {
        seq!['-'] + spec_nat_digits((-n) as nat)
    } else {
        spec_nat_digits(n as nat)
    }
}

/// One decimal digit as a string slice.
fn digit_str(d: u64) -> (r: &'static str)
    requires
        d < 10,
    ensures
        r@ == seq![digit_char(d as nat)],
{
    let r: &'static str = if d == 0 {
        "0"
    } else if d == 1 {
        "1"
    } else if d == 2 {
        "2"
    } else if d == 3 {
        "3"
    } else if d == 4 {
        "4"
    } else if d == 5 {
        "5"
    } else if d == 6 {
        "6"
    } else if d == 7 {
        "7"
    } else if d == 8 {
        "8"
    } else {
        "9"
    };
    proof {
        reveal_strlit("0");
        reveal_strlit("1");
        reveal_strlit("2");
        reveal_strlit("3");
        reveal_strlit("4");
        reveal_strlit("5");
        reveal_strlit("6");
        reveal_strlit("7");
        reveal_strlit("8");
        reveal_strlit("9");
        assert(r@ =~= seq![digit_char(d as nat)]);
    }
    r
}

/// The decimal rendering of a natural number.
fn nat_to_string(n: u64) -> (r: String)
    ensures
        r@ == spec_nat_digits(n as nat),
    decreases n,
{
    if n < 10 {
        digit_str(n).to_owned()
    } else {
        proof {
            assert(n / 10 < n) by (nonlinear_arith)
                requires
                    n >= 10,
            ;
        }
        let mut s = nat_to_string(n / 10);
        s.append(digit_str(n % 10));
        s
    }
}

/// The decimal rendering of an `i64`: its digits, after a '-' sign where the
/// value is negative.
fn int_to_string(value: i64) -> (r: String)
    ensures
        r@ == spec_int_string(value as int),
{
    if value < 0 {
        let magnitude: u64 = if value == i64::MIN {
            9223372036854775808
        } else {
            (-value) as u64
        };
        let mut s = String::from_str("-");
        let digits = nat_to_string(magnitude);
        s.append(digits.as_str());
        proof {
            reveal_strlit("-");
            assert(s@ =~= seq!['-'] + spec_nat_digits(magnitude as nat));
        }
        s
    } else {
        nat_to_string(value as u64)
    }
}

/// Every character of a decimal digit sequence is unreserved.
proof fn lemma_digits_form_safe(n: nat)
    ensures
        form_safe(spec_nat_digits(n)),
    decreases n,
{
    if n < 10 {
        assert(form_safe_char(digit_char(n)));
    } else {
        lemma_digits_form_safe(n / 10);
        assert(form_safe_char(digit_char(n % 10)));
        assert(form_safe(spec_nat_digits(n / 10) + seq![digit_char(n % 10)]));
    }
}

/// The decimal rendering of an integer is made of unreserved characters, so
/// it passes through the query encoding unchanged.
pub proof fn lemma_int_string_form_safe(n: int)
    ensures
        form_safe(spec_int_string(n)),
{
    if n < 0 {
        lemma_digits_form_safe((-n) as nat);
        assert(form_safe_char('-'));
        assert(form_safe(seq!['-'] + spec_nat_digits((-n) as nat)));
    } else {
        lemma_digits_form_safe(n as nat);
    }
}

/// The main struct of the crate giving access to the currencyapi: it holds
/// the settings and states, for each supported operation, the request URL
/// that the operation sends.
#[derive(Debug, Clone)]
pub struct Currencyapi {
    settings: Settings,
}

impl View for Currencyapi {
    type V = Seq<char>;

    closed spec fn view(&self) -> Seq<char> {
        self.settings@
    }
}

impl Currencyapi {
    /// The held api key is never empty.
    pub open spec fn wf(&self) -> bool {
        self@.len() > 0
    }

    /// Creates a new instance for `api_key`.  Constructing the settings
    /// cannot fail; the fallible return mirrors the construction surface of
    /// the full client, whose HTTP half the surrounding application builds.
    pub fn new(api_key: &str) -> (r: Result<Currencyapi, CurrencyapiError>)
        requires
            api_key@.len() > 0,
        ensures
            r matches Ok(c),
            r matches Ok(c) ==> c@ == api_key@ && c.wf(),
    {
        Ok(Currencyapi { settings: Settings::new(api_key) })
    }

    /// The request for the service status: path `/v3/status`, the api key as
    /// the sole query parameter.
    pub fn status(&self) -> (r: Result<RequestUrl, CurrencyapiError>)
        ensures
            r matches Ok(u),
            r matches Ok(u) ==> u@.path == "/v3/status"@,
            r matches Ok(u) ==> u@.query == apikey_query(self@),
            r matches Ok(u) ==> form_safe(self@) ==> u@.query == "apikey="@ + self@,
    {
        let u = match construct_base_url(self.settings.api_key(), Some("status")) {
            Ok(u) => u,
            Err(e) => {
                return Err(e);
            },
        };
        proof {
            reveal_strlit("status");
            reveal_strlit("/v3/");
            reveal_strlit("/v3/status");
            assert(trim_slashes("status"@) == "status"@);
            assert("/v3/"@ + "status"@ =~= "/v3/status"@);
        }
        Ok(u)
    }

    /// The request for the list of available currencies: path
    /// `/v3/currencies`, the api key as the sole query parameter.
    pub fn currencies(&self) -> (r: Result<RequestUrl, CurrencyapiError>)
        ensures
            r matches Ok(u),
            r matches Ok(u) ==> u@.path == "/v3/currencies"@,
            r matches Ok(u) ==> u@.query == apikey_query(self@),
            r matches Ok(u) ==> form_safe(self@) ==> u@.query == "apikey="@ + self@,
    {
        let u = match construct_base_url(self.settings.api_key(), Some("currencies")) {
            Ok(u) => u,
            Err(e) => {
                return Err(e);
            },
        };
        proof {
            reveal_strlit("currencies");
            reveal_strlit("/v3/");
            reveal_strlit("/v3/currencies");
            assert(trim_slashes("currencies"@) == "currencies"@);
            assert("/v3/"@ + "currencies"@ =~= "/v3/currencies"@);
        }
        Ok(u)
    }

    /// The request for the latest rates: path `/v3/latest`, with
    /// `base_currency` and `currencies` appended after the api key, in that
    /// order.
    pub fn latest(&self, base_currency: &str, currencies: &str) -> (r: Result<
        RequestUrl,
        CurrencyapiError,
    >)
        ensures
            r matches Ok(u),
            r matches Ok(u) ==> u@.path == "/v3/latest"@,
            r matches Ok(u) ==> u@.query == appended_query(
                appended_query(apikey_query(self@), "base_currency"@, base_currency@),
                "currencies"@,
                currencies@,
            ),
            r matches Ok(u) ==> form_safe(self@) && form_safe(base_currency@) && form_safe(
                currencies@,
            ) ==> u@.query == "apikey="@ + self@ + "&base_currency="@ + base_currency@
                + "&currencies="@ + currencies@,
    {
        let mut u = match construct_base_url(self.settings.api_key(), Some("latest")) {
            Ok(u) => u,
            Err(e) => {
                return Err(e);
            },
        };
        proof {
            reveal_strlit("latest");
            reveal_strlit("/v3/");
            reveal_strlit("/v3/latest");
            assert(trim_slashes("latest"@) == "latest"@);
            assert("/v3/"@ + "latest"@ =~= "/v3/latest"@);
        }
        let ghost q0 = u@.query;
        u.append_pair("base_currency", base_currency);
        let ghost q1 = u@.query;
        u.append_pair("currencies", currencies);
        proof {
            if form_safe(self@) && form_safe(base_currency@) && form_safe(currencies@) {
                reveal_strlit("apikey=");
                reveal_strlit("base_currency");
                reveal_strlit("currencies");
                reveal_strlit("&base_currency=");
                reveal_strlit("&currencies=");
                reveal_strlit("&");
                reveal_strlit("=");
                assert(form_safe("base_currency"@));
                assert(form_safe("currencies"@));
                assert(q0 == "apikey="@ + self@);
                assert(q1 =~= "apikey="@ + self@ + "&base_currency="@ + base_currency@);
                assert(u@.query =~= "apikey="@ + self@ + "&base_currency="@ + base_currency@
                    + "&currencies="@ + currencies@);
            }
        }
        Ok(u)
    }

    /// The request for historical rates: path `/v3/historical`, with
    /// `base_currency`, `date` and `currencies` appended after the api key,
    /// in that order.
    pub fn historical(&self, base_currency: &str, date: &str, currencies: &str) -> (r: Result<
        RequestUrl,
        CurrencyapiError,
    >)
        ensures
            r matches Ok(u),
            r matches Ok(u) ==> u@.path == "/v3/historical"@,
            r matches Ok(u) ==> u@.query == appended_query(
                appended_query(
                    appended_query(apikey_query(self@), "base_currency"@, base_currency@),
                    "date"@,
                    date@,
                ),
                "currencies"@,
                currencies@,
            ),
            r matches Ok(u) ==> form_safe(self@) && form_safe(base_currency@) && form_safe(date@)
                && form_safe(currencies@) ==> u@.query == "apikey="@ + self@ + "&base_currency="@
                + base_currency@ + "&date="@ + date@ + "&currencies="@ + currencies@,
    {
        let mut u = match construct_base_url(self.settings.api_key(), Some("historical")) {
            Ok(u) => u,
            Err(e) => {
                return Err(e);
            },
        };
        proof {
            reveal_strlit("historical");
            reveal_strlit("/v3/");
            reveal_strlit("/v3/historical");
            assert(trim_slashes("historical"@) == "historical"@);
            assert("/v3/"@ + "historical"@ =~= "/v3/historical"@);
        }
        let ghost q0 = u@.query;
        u.append_pair("base_currency", base_currency);
        let ghost q1 = u@.query;
        u.append_pair("date", date);
        let ghost q2 = u@.query;
        u.append_pair("currencies", currencies);
        proof {
            if form_safe(self@) && form_safe(base_currency@) && form_safe(date@) && form_safe(
                currencies@,
            ) {
                reveal_strlit("apikey=");
                reveal_strlit("base_currency");
                reveal_strlit("date");
                reveal_strlit("currencies");
                reveal_strlit("&base_currency=");
                reveal_strlit("&date=");
                reveal_strlit("&currencies=");
                reveal_strlit("&");
                reveal_strlit("=");
                assert(form_safe("base_currency"@));
                assert(form_safe("date"@));
                assert(form_safe("currencies"@));
                assert(q0 == "apikey="@ + self@);
                assert(q1 =~= "apikey="@ + self@ + "&base_currency="@ + base_currency@);
                assert(q2 =~= q1 + "&date="@ + date@);
                assert(u@.query =~= "apikey="@ + self@ + "&base_currency="@ + base_currency@
                    + "&date="@ + date@ + "&currencies="@ + currencies@);
            }
        }
        Ok(u)
    }

    /// The request that converts `value` from the base currency: path
    /// `/v3/convert`, with `base_currency`, `date`, the decimal rendering of
    /// `value` and `currencies` appended after the api key, in that order.
    pub fn convert(
        &self,
        base_currency: &str,
        date: &str,
        value: i64,
        currencies: &str,
    ) -> (r: Result<RequestUrl, CurrencyapiError>)
        ensures
            r matches Ok(u),
            r matches Ok(u) ==> u@.path == "/v3/convert"@,
            r matches Ok(u) ==> u@.query == appended_query(
                appended_query(
                    appended_query(
                        appended_query(apikey_query(self@), "base_currency"@, base_currency@),
                        "date"@,
                        date@,
                    ),
                    "value"@,
                    spec_int_string(value as int),
                ),
                "currencies"@,
                currencies@,
            ),
            r matches Ok(u) ==> form_safe(self@) && form_safe(base_currency@) && form_safe(date@)
                && form_safe(currencies@) ==> u@.query == "apikey="@ + self@ + "&base_currency="@
                + base_currency@ + "&date="@ + date@ + "&value="@ + spec_int_string(value as int)
                + "&currencies="@ + currencies@,
    {
        let mut u = match construct_base_url(self.settings.api_key(), Some("convert")) {
            Ok(u) => u,
            Err(e) => {
                return Err(e);
            },
        };
        proof {
            reveal_strlit("convert");
            reveal_strlit("/v3/");
            reveal_strlit("/v3/convert");
            assert(trim_slashes("convert"@) == "convert"@);
            assert("/v3/"@ + "convert"@ =~= "/v3/convert"@);
        }
        let ghost q0 = u@.query;
        u.append_pair("base_currency", base_currency);
        let ghost q1 = u@.query;
        u.append_pair("date", date);
        let ghost q2 = u@.query;
        let rendered = int_to_string(value);
        u.append_pair("value", rendered.as_str());
        let ghost q3 = u@.query;
        u.append_pair("currencies", currencies);
        proof {
            if form_safe(self@) && form_safe(base_currency@) && form_safe(date@) && form_safe(
                currencies@,
            ) {
                lemma_int_string_form_safe(value as int);
                reveal_strlit("apikey=");
                reveal_strlit("base_currency");
                reveal_strlit("date");
                reveal_strlit("value");
                reveal_strlit("currencies");
                reveal_strlit("&base_currency=");
                reveal_strlit("&date=");
                reveal_strlit("&value=");
                reveal_strlit("&currencies=");
                reveal_strlit("&");
                reveal_strlit("=");
                assert(form_safe("base_currency"@));
                assert(form_safe("date"@));
                assert(form_safe("value"@));
                assert(form_safe("currencies"@));
                assert(q0 == "apikey="@ + self@);
                assert(q1 =~= "apikey="@ + self@ + "&base_currency="@ + base_currency@);
                assert(q2 =~= q1 + "&date="@ + date@);
                assert(q3 =~= q2 + "&value="@ + spec_int_string(value as int));
                assert(u@.query =~= "apikey="@ + self@ + "&base_currency="@ + base_currency@
                    + "&date="@ + date@ + "&value="@ + spec_int_string(value as int)
                    + "&currencies="@ + currencies@);
            }
        }
        Ok(u)
    }

    /// The request for rates over a date range: path `/v3/range`, with
    /// `base_currency`, `datetime_start`, `datetime_end`, `accuracy` and
    /// `currencies` appended after the api key, in that order.
    pub fn range(
        &self,
        base_currency: &str,
        datetime_start: &str,
        datetime_end: &str,
        currencies: &str,
        accuracy: &str,
    ) -> (r: Result<RequestUrl, CurrencyapiError>)
        ensures
            r matches Ok(u),
            r matches Ok(u) ==> u@.path == "/v3/range"@,
            r matches Ok(u) ==> u@.query == appended_query(
                appended_query(
                    appended_query(
                        appended_query(
                            appended_query(apikey_query(self@), "base_currency"@, base_currency@),
                            "datetime_start"@,
                            datetime_start@,
                        ),
                        "datetime_end"@,
                        datetime_end@,
                    ),
                    "accuracy"@,
                    accuracy@,
                ),
                "currencies"@,
                currencies@,
            ),
            r matches Ok(u) ==> form_safe(self@) && form_safe(base_currency@) && form_safe(
                datetime_start@,
            ) && form_safe(datetime_end@) && form_safe(accuracy@) && form_safe(currencies@)
                ==> u@.query == "apikey="@ + self@ + "&base_currency="@ + base_currency@
                + "&datetime_start="@ + datetime_start@ + "&datetime_end="@ + datetime_end@
                + "&accuracy="@ + accuracy@ + "&currencies="@ + currencies@,
    {
        let mut u = match construct_base_url(self.settings.api_key(), Some("range")) {
            Ok(u) => u,
            Err(e) => {
                return Err(e);
            },
        };
        proof {
            reveal_strlit("range");
            reveal_strlit("/v3/");
            reveal_strlit("/v3/range");
            assert(trim_slashes("range"@) == "range"@);
            assert("/v3/"@ + "range"@ =~= "/v3/range"@);
        }
        let ghost q0 = u@.query;
        u.append_pair("base_currency", base_currency);
        let ghost q1 = u@.query;
        u.append_pair("datetime_start", datetime_start);
        let ghost q2 = u@.query;
        u.append_pair("datetime_end", datetime_end);
        let ghost q3 = u@.query;
        u.append_pair("accuracy", accuracy);
        let ghost q4 = u@.query;
        u.append_pair("currencies", currencies);
        proof {
            if form_safe(self@) && form_safe(base_currency@) && form_safe(datetime_start@)
                && form_safe(datetime_end@) && form_safe(accuracy@) && form_safe(currencies@) {
                reveal_strlit("apikey=");
                reveal_strlit("base_currency");
                reveal_strlit("datetime_start");
                reveal_strlit("datetime_end");
                reveal_strlit("accuracy");
                reveal_strlit("currencies");
                reveal_strlit("&base_currency=");
                reveal_strlit("&datetime_start=");
                reveal_strlit("&datetime_end=");
                reveal_strlit("&accuracy=");
                reveal_strlit("&currencies=");
                reveal_strlit("&");
                reveal_strlit("=");
                assert(form_safe("base_currency"@));
                assert(form_safe("datetime_start"@));
                assert(form_safe("datetime_end"@));
                assert(form_safe("accuracy"@));
                assert(form_safe("currencies"@));
                assert(q0 == "apikey="@ + self@);
                assert(q1 =~= "apikey="@ + self@ + "&base_currency="@ + base_currency@);
                assert(q2 =~= q1 + "&datetime_start="@ + datetime_start@);
                assert(q3 =~= q2 + "&datetime_end="@ + datetime_end@);
                assert(q4 =~= q3 + "&accuracy="@ + accuracy@);
                assert(u@.query =~= "apikey="@ + self@ + "&base_currency="@ + base_currency@
                    + "&datetime_start="@ + datetime_start@ + "&datetime_end="@ + datetime_end@
                    + "&accuracy="@ + accuracy@ + "&currencies="@ + currencies@);
            }
        }
        Ok(u)
    }
}

} // verus!

