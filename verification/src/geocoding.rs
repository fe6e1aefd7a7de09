//! Place-name search through the Open-Meteo geocoding service.
use vstd::prelude::*;
use vstd::string::StringSliceAdditionalSpecFns;

verus! {

/// Whether a byte is left as it is by percent-encoding: ASCII letters, digits
/// and `-`, `.`, `_`, `~`.
pub open spec fn is_unreserved(b: u8) -> bool {
    (48 <= b <= 57) || (65 <= b <= 90) || (97 <= b <= 122) || b == 45 || b == 46 || b == 95 || b == 126
}

/// Upper-case hexadecimal digit of `d` (`0 <= d < 16`).
pub open spec fn hex_digit(d: int) -> char {
    if d < 10 { (48 + d) as char } else { (55 + d) as char }
}

/// Percent-encoding of bytes: unreserved bytes stay, every other byte becomes
/// `%` and two upper-case hexadecimal digits.
pub open spec fn percent_encoded(bytes: Seq<u8>) -> Seq<char>
    decreases bytes.len(),
{
    if bytes.len() == 0 {
        seq![]
    } else {
        let b = bytes[0];
        let head = if is_unreserved(b) {
            seq![b as char]
        } else {
            seq!['%', hex_digit((b / 16) as int), hex_digit((b % 16) as int)]
        };
        head + percent_encoded(bytes.drop_first())
    }
}

/// A character that may stand in an encoded query: an unreserved ASCII
/// character, `%`, or an upper-case hexadecimal digit.
pub open spec fn is_query_safe(c: char) -> bool {
    ('0' <= c <= '9') || ('A' <= c <= 'Z') || ('a' <= c <= 'z') || c == '-' || c == '.' || c == '_'
        || c == '~' || c == '%'
}

/// Percent-encoding yields only query-safe characters, so an encoded name can
/// never end the parameter (`&`), start a fragment (`#`) or hold a space.
pub proof fn lemma_encoded_is_query_safe(bytes: Seq<u8>)
    ensures
        forall|i: int| 0 <= i < percent_encoded(bytes).len() ==> is_query_safe(#[trigger] percent_encoded(bytes)[i]),
    decreases bytes.len(),
{
    if bytes.len() > 0 {
        lemma_encoded_is_query_safe(bytes.drop_first());
        let b = bytes[0];
        let head = if is_unreserved(b) {
            seq![b as char]
        } else {
            seq!['%', hex_digit((b / 16) as int), hex_digit((b % 16) as int)]
        };
        assert(percent_encoded(bytes) == head + percent_encoded(bytes.drop_first()));
        assert forall|i: int| 0 <= i < head.len() implies is_query_safe(#[trigger] head[i]) by {
            if is_unreserved(b) {
                assert(head[i] == b as char);
            } else {
                assert(b / 16 < 16 && b % 16 < 16);
            }
        }
        assert forall|i: int| 0 <= i < percent_encoded(bytes).len() implies is_query_safe(#[trigger] percent_encoded(bytes)[i]) by {
            if i < head.len() {
                assert(percent_encoded(bytes)[i] == head[i]);
            } else {
                assert(percent_encoded(bytes)[i] == percent_encoded(bytes.drop_first())[i - head.len()]);
            }
        }
    }
}

/// `urlencoding::encode`: percent-encodes the UTF-8 bytes of `s`, keeping only
/// ASCII letters, digits, `-`, `.`, `_` and `~`, with upper-case hex digits.
#[verifier::external_body]
fn url_encode(s: &str) -> (r: String)
    ensures
        r@ == percent_encoded(s.spec_bytes()),
{
    urlencoding::encode(s).into_owned()
}

/// Address of the geocoding search for a place name: one result, Japanese names.
pub open spec fn search_url(query: &str) -> Seq<char> {
    "https://geocoding-api.open-meteo.com/v1/search?name="@ + percent_encoded(query.spec_bytes())
        + "&count=1&language=ja"@
}

/// Builds the geocoding search address for `query`.
pub fn geocoding_url(query: &str) -> (r: String)
    ensures
        r@ == search_url(query),
{
    let mut out = String::from_str("https://geocoding-api.open-meteo.com/v1/search?name=");
    let enc = url_encode(query);
    out.append(enc.as_str());
    out.append("&count=1&language=ja");
    out
}

/// One result of the geocoding service; `C` is the coordinate type.
#[derive(Debug)]
pub struct GeoCandidate<C> {
    pub name: String,
    pub latitude: C,
    pub longitude: C,
    pub country_code: Option<String>,
}

/// A resolved place: name, ISO country code (empty when the service gave none)
/// and coordinates.
#[derive(Debug)]
pub struct GeoHit<C> {
    pub name: String,
    pub country: String,
    pub latitude: C,
    pub longitude: C,
}

/// Why a search found no place.
#[derive(Debug, Clone, Copy, PartialEq, Eq, Structural)]
pub enum GeoError {
    /// The service listed no result for the name.
    NotFound,
}

/// Takes the place out of the service's answer: the last listed result (the
/// search asks for one), with an empty country code when it has none;
/// `NotFound` when the answer lists no result.
pub fn resolve_hit<C>(results: Option<Vec<GeoCandidate<C>>>) -> (r: Result<GeoHit<C>, GeoError>)
    ensures
        r is Err <==> (results is None || results.unwrap()@.len() == 0),
        r matches Ok(h) ==> {
            let last = results.unwrap()@.last();
            &&& h.name@ == last.name@
            &&& h.country@ == (match last.country_code {
                Some(c) => c@,
                None => Seq::<char>::empty(),
            })
            &&& h.latitude == last.latitude
            &&& h.longitude == last.longitude
        },
{
    match results {
        None => Err(GeoError::NotFound),
        Some(mut v) => {
            let ghost before = v@;
            match v.pop() {
                None => Err(GeoError::NotFound),
                Some(c) => {
                    assert(c == before.last());
                    let country = match c.country_code {
                        Some(cc) => cc,
                        None => String::new(),
                    };
                    Ok(GeoHit { name: c.name, country, latitude: c.latitude, longitude: c.longitude })
                },
            }
        },
    }
}

} // verus!
