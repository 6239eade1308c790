//! Finding out sunrise and sunset from the ipgeolocation.io astronomy API.
//!
//! The request is built here and the reply's fields are read here; sending
//! the request and decoding the reply's JSON body is left to the caller.
use vstd::prelude::*;
use url::Url;
use crate::astronomy::{Error as AstronomyError, SunState};
use crate::bal::networking_types::{Method, Request, Status};
use crate::clock::{TimeOfDay, hms_nano_to_nanos, valid_hms_nano};

verus! {

#[verifier::external_type_specification]
#[verifier::external_body]
pub struct ExUrl(Url);

/// The text of the URL that `url::Url::parse` makes of `input` (as
/// `url::Url::as_str` gives it), or `None` where it refuses the text.
pub uninterp spec fn parsed_url(input: Seq<char>) -> Option<Seq<char>>;

/// The text `url::Url::as_str` gives for a URL.
pub uninterp spec fn url_serialization(url: Url) -> Seq<char>;

/// The text of the URL `url` after `url::Url::set_path(path)`.
pub uninterp spec fn url_with_path(url: Seq<char>, path: Seq<char>) -> Seq<char>;

/// The text of the URL `url` after `url::Url::set_query(query)`.
pub uninterp spec fn url_with_query(url: Seq<char>, query: Option<Seq<char>>) -> Seq<char>;

/// The (hour, minute, second, nanosecond) that `time::Time::parse` reads
/// from `input` with the version-1 format description `format`, if any.
pub uninterp spec fn parsed_time(input: Seq<char>, format: Seq<char>) -> Option<(u8, u8, u8, u32)>;

/// An optional text, by its characters.
pub open spec fn option_text(o: Option<&str>) -> Option<Seq<char>> {
    match o {
        Some(t) => Some(t@),
        None => None,
    }
}

/// Calls `url::Url::parse`. Whether it succeeds, and the URL it makes
/// (taken by its text), depend on the input text alone.
#[verifier::external_body]
fn url_parse(input: &str) -> (r: Option<Url>)
    ensures
        r is Some <==> parsed_url(input@) is Some,
        r is Some ==> url_serialization(r->0) == parsed_url(input@)->0,
{
    match Url::parse(input) {
        Ok(url) => Some(url),
        Err(_) => None,
    }
}

/// Calls `url::Url::set_path`. The URL's new text depends on its old text
/// and the path alone. (The crate panics only where the text would exceed
/// `u32::MAX` bytes.)
#[verifier::external_body]
fn url_set_path(url: &mut Url, path: &str)
    ensures
        url_serialization(*final(url)) == url_with_path(url_serialization(*old(url)), path@),
{
    url.set_path(path)
}

/// Calls `url::Url::set_query`. The URL's new text depends on its old text
/// and the query alone. (The crate panics only where the text would exceed
/// `u32::MAX` bytes.)
#[verifier::external_body]
fn url_set_query(url: &mut Url, query: Option<&str>)
    ensures
        url_serialization(*final(url)) == url_with_query(url_serialization(*old(url)), option_text(query)),
{
    url.set_query(query)
}

/// Calls `url::Url::as_str` and copies the text into a `String`.
#[verifier::external_body]
fn url_to_string(url: &Url) -> (r: String)
    ensures
        r@ == url_serialization(*url),
{
    String::from(url.as_str())
}

/// Calls `time::Time::parse` with the version-1 format description given
/// as text (`time::format_description::parse_borrowed::<1>`, the runtime
/// form of the `format_description!` macro), and reads the parsed time's
/// components with `Time::as_hms_nano`. The crate's `Time` only ever holds
/// in-range components, which the last clause states.
#[verifier::external_body]
fn time_parse(input: &str, format: &str) -> (r: Option<(u8, u8, u8, u32)>)
    ensures
        r == parsed_time(input@, format@),
        r is Some ==> valid_hms_tuple(r->0),
{
    let description = match time::format_description::parse_borrowed::<1>(format) {
        Ok(d) => d,
        Err(_) => return None,
    };
    match time::Time::parse(input, &description) {
        Ok(t) => Some(t.as_hms_nano()),
        Err(_) => None,
    }
}

/// Whether (hour, minute, second, nanosecond) components are in range.
pub open spec fn valid_hms_tuple(t: (u8, u8, u8, u32)) -> bool {
    let (h, m, s, ns) = t;
    valid_hms_nano(h as int, m as int, s as int, ns as int)
}

/// The format of the reply's current time, such as `14:25:10.123`.
pub open spec fn current_time_format() -> Seq<char> {
    "[hour]:[minute]:[second].[subsecond digits:3]"@
}

/// The format of the reply's sunrise and sunset, such as `06:12`.
pub open spec fn event_time_format() -> Seq<char> {
    "[hour]:[minute]"@
}

/// The base address of the API.
pub open spec fn api_base() -> Seq<char> {
    "https://api.ipgeolocation.io"@
}

/// The time of day `text` stands for in `format`, as `time` parses it.
pub open spec fn spec_parse_time(text: Seq<char>, format: Seq<char>) -> Option<int> {
    match parsed_time(text, format) {
        Some((h, m, s, ns)) => Some(hms_nano_to_nanos(h as int, m as int, s as int, ns as int)),
        None => None,
    }
}

/// The fields of the API's reply that the sun's state is read from.
pub struct SunTimesText {
    pub current_time: String,
    pub sunrise: String,
    pub sunset: String,
}

/// The sun's state read from a reply, as nanoseconds since midnight
/// (current time, sunrise, sunset): a reply that is not a success is
/// `Undefined`; a body that could not be decoded, or a time that does not
/// parse in its format, is `ResponseParsing`.
pub open spec fn spec_sun_state_from_reply(status: Status, body: Option<SunTimesText>) -> Result<(int, int, int), AstronomyError> {
    if status != Status::Okay {
        Err(AstronomyError::Undefined)
    } else {
        match body {
            None => Err(AstronomyError::ResponseParsing),
            Some(b) => {
                let cur = spec_parse_time(b.current_time@, current_time_format());
                let set = spec_parse_time(b.sunset@, event_time_format());
                let rise = spec_parse_time(b.sunrise@, event_time_format());
                if cur is Some && set is Some && rise is Some {
                    Ok((cur->0, rise->0, set->0))
                } else {
                    Err(AstronomyError::ResponseParsing)
                }
            },
        }
    }
}

/// Reads one time of day from the reply.
fn read_time(text: &str, format: &str) -> (r: Result<TimeOfDay, AstronomyError>)
    ensures
        r is Ok <==> spec_parse_time(text@, format@) is Some,
        r is Ok ==> r->Ok_0.nanos() == spec_parse_time(text@, format@)->0,
        r is Err ==> r == Err::<TimeOfDay, AstronomyError>(AstronomyError::ResponseParsing),
{
    match time_parse(text, format) {
        Some((h, m, s, ns)) => match TimeOfDay::from_hms_nano(h, m, s, ns) {
            Some(t) => Ok(t),
            None => Err(AstronomyError::ResponseParsing),
        },
        None => Err(AstronomyError::ResponseParsing),
    }
}

/// Reads a time from text. The API's replies are read with `read_time`;
/// this older reader always gives midnight.
pub fn get_time_from_sring(s: String) -> (r: Result<TimeOfDay, AstronomyError>)
    ensures
        r is Ok,
        r->Ok_0.nanos() == 0,
{
    Ok(TimeOfDay::midnight())
}

/// Finds out the sun's state from ipgeolocation.io.
#[derive(Clone, Copy, Debug)]
pub struct Getter {}

impl Getter {
    /// The request for today's astronomy: a `GET` of the API's base address
    /// with the path set to `astronomy` and the query to the API key, and an
    /// empty body. It fails with `UrlParsing` exactly when the API's base
    /// address does not parse.
    pub fn request(&self) -> (r: Result<Request, AstronomyError>)
        ensures
            r is Ok <==> parsed_url(api_base()) is Some,
            r is Err ==> r == Err::<Request, AstronomyError>(AstronomyError::UrlParsing),
            r is Ok ==> r->Ok_0.method == Method::Get && r->Ok_0.body@ == Seq::<char>::empty(),
            r is Ok ==> r->Ok_0.url@ == url_with_query(
                url_with_path(parsed_url(api_base())->0, "astronomy"@),
                Some("apiKey=75bdd8f840044c509ab39667550643fe"@),
            ),
    {
        let mut url = match url_parse("https://api.ipgeolocation.io") {
            Some(url) => url,
            None => {
                return Err(AstronomyError::UrlParsing);
            },
        };
        url_set_path(&mut url, "astronomy");
        let query = String::from_str("apiKey=").concat("75bdd8f840044c509ab39667550643fe");
        proof {
            reveal_strlit("apiKey=");
            reveal_strlit("75bdd8f840044c509ab39667550643fe");
            reveal_strlit("apiKey=75bdd8f840044c509ab39667550643fe");
            assert(query@ =~= "apiKey=75bdd8f840044c509ab39667550643fe"@);
        }
        url_set_query(&mut url, Some(query.as_str()));
        Ok(Request { method: Method::Get, url: url_to_string(&url), body: String::new() })
    }

    /// The sun's state from the API's reply: its status and, when its body
    /// could be decoded, the body's time fields (see `spec_sun_state_from_reply`).
    pub fn sun_state_from_reply(&self, status: Status, body: Option<SunTimesText>) -> (r: Result<SunState, AstronomyError>)
        ensures
            ({
                let expected = spec_sun_state_from_reply(status, body);
                &&& r is Ok <==> expected is Ok
                &&& r is Err ==> r->Err_0 == expected->Err_0
                &&& r is Ok ==> (r->Ok_0.current_time.nanos(), r->Ok_0.sunrise.nanos(), r->Ok_0.sunset.nanos()) == expected->Ok_0
            }),
    {
        match status {
            Status::Okay => {},
            _ => {
                return Err(AstronomyError::Undefined);
            },
        }
        let body = match body {
            Some(b) => b,
            None => {
                return Err(AstronomyError::ResponseParsing);
            },
        };
        let current_time = read_time(body.current_time.as_str(), "[hour]:[minute]:[second].[subsecond digits:3]");
        let sunset = read_time(body.sunset.as_str(), "[hour]:[minute]");
        let sunrise = read_time(body.sunrise.as_str(), "[hour]:[minute]");
        match (current_time, sunset, sunrise) {
            (Ok(current_time), Ok(sunset), Ok(sunrise)) => Ok(SunState { current_time, sunset, sunrise }),
            _ => Err(AstronomyError::ResponseParsing),
        }
    }
}

} // verus!
