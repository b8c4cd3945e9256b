use vstd::prelude::*;

verus! {

/// A latitude/longitude pair, each held as the decimal text it is shown as.
#[derive(Clone, Debug, PartialEq)]
pub struct Coordinates {
    pub lat: String,
    pub lng: String,
}

/// One currency of a country.
#[derive(Clone, Debug, PartialEq)]
pub struct Currency {
    pub code: String,
    pub name: String,
    pub symbol: String,
}

/// The facts known about one country.
///
/// `languages` pairs each language code with its display name, and
/// `currencies` holds one entry per currency code; both are shown in the
/// order in which they are held here. `borders` and `continents` are `None` when
/// the source did not report them, which differs from an empty list.
#[derive(Clone, Debug, PartialEq)]
pub struct CountryRecord {
    pub official_name: String,
    pub flag: String,
    pub capital: Vec<String>,
    pub capital_latlng: Coordinates,
    pub region: String,
    pub subregion: String,
    pub latlng: Coordinates,
    pub population: u64,
    pub timezones: Vec<String>,
    pub tld: Vec<String>,
    pub languages: Vec<(String, String)>,
    pub currencies: Vec<Currency>,
    pub borders: Option<Vec<String>>,
    pub continents: Option<Vec<String>>,
    pub landlocked: bool,
    pub start_of_week: String,
    pub maps_url: String,
}

/// Why a lookup produced no record.
#[derive(Clone, Copy, Debug, PartialEq, Eq, Structural)]
pub enum LookupError {
    /// The request failed in transport or came back with a non-success status.
    Network,
    /// The body was not an array of country objects.
    Decode,
    /// The body was an empty array: no country matched the name.
    NoMatch,
}

/// Whether `status` is a success status (200 to 299).
pub open spec fn is_success_status(status: u16) -> bool {
    200 <= status && status <= 299
}

/// The outcome of a lookup from the status of its response (`None` for a
/// transport failure) and its decoded body (`None` when it did not decode).
pub open spec fn response_outcome(status: Option<u16>, body: Option<Vec<CountryRecord>>) -> Result<
    CountryRecord,
    LookupError,
> {
    match status {
        None => Err(LookupError::Network),
        Some(code) => if !is_success_status(code) {
            Err(LookupError::Network)
        } else {
            match body {
                None => Err(LookupError::Decode),
                Some(v) => if v@.len() == 0 {
                    Err(LookupError::NoMatch)
                } else {
                    Ok(v@[0])
                },
            }
        },
    }
}

/// Turns what came back from one request into the outcome of the lookup.
///
/// `status` is `None` when the request failed in transport; `body` is `None`
/// when the body did not decode. Only the first country of the body is kept.
pub fn interpret_response(status: Option<u16>, body: Option<Vec<CountryRecord>>) -> (r: Result<
    CountryRecord,
    LookupError,
>)
    ensures
        r == response_outcome(status, body),
{
    match status {
        None => Err(LookupError::Network),
        Some(code) => {
            if code < 200 || code > 299 {
                Err(LookupError::Network)
            } else {
                match body {
                    None => Err(LookupError::Decode),
                    Some(mut countries) => {
                        if countries.len() == 0 {
                            Err(LookupError::NoMatch)
                        } else {
                            Ok(countries.swap_remove(0))
                        }
                    },
                }
            }
        },
    }
}

} // verus!
