use vstd::prelude::*;
use crate::record::{Coordinates, CountryRecord, Currency, LookupError};
use crate::text::{format_population, grouped_decimal, join_with_spaces, joined};

verus! {

/// One labelled line of the country view. `link` is the target when the
/// value is shown as a hyperlink with `text` as its caption.
#[derive(Clone, Debug, PartialEq)]
pub struct Row {
    pub label: String,
    pub text: String,
    pub link: Option<String>,
}

/// A row as label, text and optional link target.
pub type RowView = (Seq<char>, Seq<char>, Option<Seq<char>>);

impl View for Row {
    type V = RowView;

    open spec fn view(&self) -> RowView {
        (self.label@, self.text@, self.link.deep_view())
    }
}

/// The number of rows shown for a country.
pub const ROW_COUNT: usize = 16;

/// `latitude/longitude`.
pub open spec fn coordinates_text(c: Coordinates) -> Seq<char> {
    c.lat@ + "/"@ + c.lng@
}

/// The first item, or nothing when there is none.
pub open spec fn first_or_empty(items: Seq<Seq<char>>) -> Seq<char> {
    if items.len() > 0 {
        items[0]
    } else {
        Seq::empty()
    }
}

/// A list that may be absent: its items joined by spaces, or `None` when
/// absent.
pub open spec fn optional_list_text(items: Option<Vec<String>>) -> Seq<char> {
    match items {
        Some(v) => joined(v.deep_view()),
        None => "None"@,
    }
}

/// `name (symbol)`.
pub open spec fn currency_text(c: Currency) -> Seq<char> {
    c.name@ + " ("@ + c.symbol@ + ")"@
}

/// The display names of the languages, in order.
pub open spec fn language_names(languages: Seq<(String, String)>) -> Seq<Seq<char>> {
    languages.map_values(|p: (String, String)| p.1@)
}

/// Each currency as shown, in order.
pub open spec fn currency_texts(currencies: Seq<Currency>) -> Seq<Seq<char>> {
    currencies.map_values(|c: Currency| currency_text(c))
}

/// A row whose value is plain text.
pub open spec fn text_row(label: Seq<char>, text: Seq<char>) -> RowView {
    (label, text, None)
}

/// The rows shown for a country, in their fixed order.
pub open spec fn record_rows_spec(r: CountryRecord) -> Seq<RowView> {
    seq![
        text_row("Official name"@, r.official_name@ + " "@ + r.flag@),
        text_row("Capital"@, first_or_empty(r.capital.deep_view())),
        text_row("Region"@, r.region@),
        text_row("Subregion"@, r.subregion@),
        text_row("LatLng"@, coordinates_text(r.latlng)),
        text_row("Capital LatLng"@, coordinates_text(r.capital_latlng)),
        text_row("Timezones"@, joined(r.timezones.deep_view())),
        text_row("TLD"@, joined(r.tld.deep_view())),
        text_row("Population"@, grouped_decimal(r.population as nat)),
        text_row("Borders"@, optional_list_text(r.borders)),
        text_row("Languages"@, joined(language_names(r.languages@))),
        text_row("Currencies"@, joined(currency_texts(r.currencies@))),
        text_row("Landlocked"@, if r.landlocked { "Yes"@ } else { "No"@ }),
        text_row("Start of week"@, r.start_of_week@),
        text_row("Continents"@, optional_list_text(r.continents)),
        ("Maps"@, "OpenStreetMaps"@, Some(r.maps_url@)),
    ]
}

/// The rows shown for a lookup outcome: a country's rows when a record is
/// there, and none otherwise.
pub open spec fn project_spec(outcome: Option<Result<CountryRecord, LookupError>>) -> Seq<RowView> {
    match outcome {
        Some(Ok(r)) => record_rows_spec(r),
        _ => Seq::empty(),
    }
}

/// The labels of the rows, in order.
pub open spec fn labels(rows: Seq<RowView>) -> Seq<Seq<char>> {
    rows.map_values(|row: RowView| row.0)
}

/// The views of a sequence of rows.
pub open spec fn rows_view(rows: Seq<Row>) -> Seq<RowView> {
    rows.map_values(|row: Row| row@)
}

fn make_text_row(label: &str, text: String) -> (r: Row)
    ensures
        r@ == text_row(label@, text@),
{
    Row { label: String::from_str(label), text, link: None }
}

fn coordinates_string(c: &Coordinates) -> (r: String)
    ensures
        r@ == coordinates_text(*c),
{
    let mut s = c.lat.clone();
    s.append("/");
    s.append(c.lng.as_str());
    s
}

fn first_or_empty_string(items: &Vec<String>) -> (r: String)
    ensures
        r@ == first_or_empty(items.deep_view()),
{
    if items.len() > 0 {
        items[0].clone()
    } else {
        String::new()
    }
}

fn optional_list_string(items: &Option<Vec<String>>) -> (r: String)
    ensures
        r@ == optional_list_text(*items),
{
    match items {
        Some(v) => join_with_spaces(v),
        None => String::from_str("None"),
    }
}

fn language_names_vec(languages: &Vec<(String, String)>) -> (r: Vec<String>)
    ensures
        r.deep_view() == language_names(languages@),
{
    let mut names: Vec<String> = Vec::new();
    let mut i: usize = 0;
    while i < languages.len()
        invariant
            i <= languages@.len(),
            names.deep_view() =~= language_names(languages@.take(i as int)),
        decreases languages@.len() - i,
    {
        let ghost prev = names.deep_view();
        names.push(languages[i].1.clone());
        assert(languages@.take(i + 1) =~= languages@.take(i as int).push(languages@[i as int]));
        assert(names.deep_view() =~= prev.push(languages@[i as int].1@));
        i = i + 1;
    }
    assert(languages@.take(languages@.len() as int) =~= languages@);
    names
}

fn currency_string(c: &Currency) -> (r: String)
    ensures
        r@ == currency_text(*c),
{
    let mut s = c.name.clone();
    s.append(" (");
    s.append(c.symbol.as_str());
    s.append(")");
    s
}

fn currency_texts_vec(currencies: &Vec<Currency>) -> (r: Vec<String>)
    ensures
        r.deep_view() == currency_texts(currencies@),
{
    let mut texts: Vec<String> = Vec::new();
    let mut i: usize = 0;
    while i < currencies.len()
        invariant
            i <= currencies@.len(),
            texts.deep_view() =~= currency_texts(currencies@.take(i as int)),
        decreases currencies@.len() - i,
    {
        let ghost prev = texts.deep_view();
        texts.push(currency_string(&currencies[i]));
        assert(currencies@.take(i + 1) =~= currencies@.take(i as int).push(currencies@[i as int]));
        assert(texts.deep_view() =~= prev.push(currency_text(currencies@[i as int])));
        i = i + 1;
    }
    assert(currencies@.take(currencies@.len() as int) =~= currencies@);
    texts
}

/// The rows shown for a country, in their fixed order.
pub fn record_rows(r: &CountryRecord) -> (rows: Vec<Row>)
    ensures
        rows_view(rows@) == record_rows_spec(*r),
{
    let mut name = r.official_name.clone();
    name.append(" ");
    name.append(r.flag.as_str());
    let mut rows: Vec<Row> = Vec::new();
    rows.push(make_text_row("Official name", name));
    rows.push(make_text_row("Capital", first_or_empty_string(&r.capital)));
    rows.push(make_text_row("Region", r.region.clone()));
    rows.push(make_text_row("Subregion", r.subregion.clone()));
    rows.push(make_text_row("LatLng", coordinates_string(&r.latlng)));
    rows.push(make_text_row("Capital LatLng", coordinates_string(&r.capital_latlng)));
    rows.push(make_text_row("Timezones", join_with_spaces(&r.timezones)));
    rows.push(make_text_row("TLD", join_with_spaces(&r.tld)));
    rows.push(make_text_row("Population", format_population(r.population)));
    rows.push(make_text_row("Borders", optional_list_string(&r.borders)));
    rows.push(make_text_row("Languages", join_with_spaces(&language_names_vec(&r.languages))));
    rows.push(make_text_row("Currencies", join_with_spaces(&currency_texts_vec(&r.currencies))));
    let landlocked = if r.landlocked {
        String::from_str("Yes")
    } else {
        String::from_str("No")
    };
    rows.push(make_text_row("Landlocked", landlocked));
    rows.push(make_text_row("Start of week", r.start_of_week.clone()));
    rows.push(make_text_row("Continents", optional_list_string(&r.continents)));
    rows.push(
        Row {
            label: String::from_str("Maps"),
            text: String::from_str("OpenStreetMaps"),
            link: Some(r.maps_url.clone()),
        },
    );
    assert(rows_view(rows@) =~= record_rows_spec(*r));
    rows
}

/// The rows shown for a lookup outcome: a country's rows when a record is
/// there, and none while there is no record or the lookup failed.
pub fn project(outcome: &Option<Result<CountryRecord, LookupError>>) -> (rows: Vec<Row>)
    ensures
        rows_view(rows@) == project_spec(*outcome),
{
    match outcome {
        Some(Ok(r)) => record_rows(r),
        _ => {
            let rows: Vec<Row> = Vec::new();
            assert(rows_view(rows@) =~= Seq::<RowView>::empty());
            rows
        },
    }
}

} // verus!
