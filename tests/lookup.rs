use country_info::controller::FetchController;
use country_info::display::{project, record_rows, Row, ROW_COUNT};
use country_info::record::{interpret_response, Coordinates, CountryRecord, Currency, LookupError};
use country_info::text::{format_population, join_with_spaces};
use country_info::url::{encode_path_segment, lookup_url};

const FIELDS: &str = "?fields=name,capital,population,flag,region,subregion,timezones,latlng,capitalInfo,tld,languages,currencies,borders,landlocked,startOfWeek,continents,maps";

fn strings(items: &[&str]) -> Vec<String> {
    items.iter().map(|s| s.to_string()).collect()
}

fn coords(lat: &str, lng: &str) -> Coordinates {
    Coordinates { lat: lat.to_string(), lng: lng.to_string() }
}

fn japan() -> CountryRecord {
    CountryRecord {
        official_name: "Japan".to_string(),
        flag: "🇯🇵".to_string(),
        capital: strings(&["Tokyo"]),
        capital_latlng: coords("35.68", "139.75"),
        region: "Asia".to_string(),
        subregion: "Eastern Asia".to_string(),
        latlng: coords("36", "138"),
        population: 125836021,
        timezones: strings(&["UTC+09:00"]),
        tld: strings(&[".jp"]),
        languages: vec![("jpn".to_string(), "Japanese".to_string())],
        currencies: vec![Currency {
            code: "JPY".to_string(),
            name: "Japanese yen".to_string(),
            symbol: "¥".to_string(),
        }],
        borders: Some(vec![]),
        continents: Some(strings(&["Asia"])),
        landlocked: false,
        start_of_week: "monday".to_string(),
        maps_url: "https://www.openstreetmap.org/relation/382313".to_string(),
    }
}

fn peru() -> CountryRecord {
    CountryRecord {
        official_name: "Republic of Peru".to_string(),
        flag: "🇵🇪".to_string(),
        capital: strings(&["Lima"]),
        capital_latlng: coords("-12.05", "-77.05"),
        region: "Americas".to_string(),
        subregion: "South America".to_string(),
        latlng: coords("-10", "-76"),
        population: 32971846,
        timezones: strings(&["UTC-05:00"]),
        tld: strings(&[".pe"]),
        languages: vec![
            ("aym".to_string(), "Aymara".to_string()),
            ("que".to_string(), "Quechua".to_string()),
            ("spa".to_string(), "Spanish".to_string()),
        ],
        currencies: vec![Currency {
            code: "PEN".to_string(),
            name: "Peruvian sol".to_string(),
            symbol: "S/ ".to_string(),
        }],
        borders: Some(strings(&["BOL", "BRA", "CHL", "COL", "ECU"])),
        continents: Some(strings(&["South America"])),
        landlocked: false,
        start_of_week: "monday".to_string(),
        maps_url: "https://www.openstreetmap.org/relation/288247".to_string(),
    }
}

fn text_of(rows: &[Row], label: &str) -> String {
    rows.iter().find(|r| r.label == label).expect("row present").text.clone()
}

fn labels_of(rows: &[Row]) -> Vec<String> {
    rows.iter().map(|r| r.label.clone()).collect()
}

#[test]
fn population_groups_by_thousands() {
    assert_eq!(format_population(1234567), "1,234,567");
}

#[test]
fn population_small_and_edge_values() {
    assert_eq!(format_population(0), "0");
    assert_eq!(format_population(999), "999");
    assert_eq!(format_population(1000), "1,000");
    assert_eq!(format_population(100000), "100,000");
    assert_eq!(format_population(u64::MAX), "18,446,744,073,709,551,615");
}

#[test]
fn join_puts_single_spaces_between_items() {
    assert_eq!(join_with_spaces(&strings(&[])), "");
    assert_eq!(join_with_spaces(&strings(&["a"])), "a");
    assert_eq!(join_with_spaces(&strings(&["UTC-05:00", "UTC+01:00", "x"])), "UTC-05:00 UTC+01:00 x");
}

#[test]
fn url_for_plain_name() {
    assert_eq!(
        lookup_url("Japan"),
        format!("https://restcountries.com/v3.1/translation/Japan{}", FIELDS)
    );
}

#[test]
fn url_encodes_reserved_and_non_ascii() {
    assert_eq!(encode_path_segment("New Zealand"), "New%20Zealand");
    assert_eq!(encode_path_segment("Côte"), "C%C3%B4te");
    assert_eq!(encode_path_segment("a/b?c#d"), "a%2Fb%3Fc%23d");
    assert_eq!(encode_path_segment("A-z_0.9~"), "A-z_0.9~");
    assert_eq!(encode_path_segment(""), "");
    assert_eq!(
        lookup_url("Česko"),
        format!("https://restcountries.com/v3.1/translation/%C4%8Cesko{}", FIELDS)
    );
}

#[test]
fn transport_failure_is_network_error() {
    assert_eq!(interpret_response(None, Some(vec![japan()])), Err(LookupError::Network));
}

#[test]
fn failure_status_is_network_error() {
    assert_eq!(interpret_response(Some(404), None), Err(LookupError::Network));
    assert_eq!(interpret_response(Some(500), Some(vec![japan()])), Err(LookupError::Network));
    assert_eq!(interpret_response(Some(199), Some(vec![japan()])), Err(LookupError::Network));
}

#[test]
fn undecodable_body_is_decode_error() {
    assert_eq!(interpret_response(Some(200), None), Err(LookupError::Decode));
}

#[test]
fn empty_body_is_no_match() {
    assert_eq!(interpret_response(Some(200), Some(vec![])), Err(LookupError::NoMatch));
}

#[test]
fn first_country_of_body_is_kept() {
    assert_eq!(interpret_response(Some(200), Some(vec![peru(), japan()])), Ok(peru()));
    assert_eq!(interpret_response(Some(299), Some(vec![japan()])), Ok(japan()));
}

#[test]
fn rows_of_a_country() {
    let rows = record_rows(&peru());
    assert_eq!(rows.len(), ROW_COUNT);
    assert_eq!(text_of(&rows, "Official name"), "Republic of Peru 🇵🇪");
    assert_eq!(text_of(&rows, "Capital"), "Lima");
    assert_eq!(text_of(&rows, "Region"), "Americas");
    assert_eq!(text_of(&rows, "Subregion"), "South America");
    assert_eq!(text_of(&rows, "LatLng"), "-10/-76");
    assert_eq!(text_of(&rows, "Capital LatLng"), "-12.05/-77.05");
    assert_eq!(text_of(&rows, "Timezones"), "UTC-05:00");
    assert_eq!(text_of(&rows, "TLD"), ".pe");
    assert_eq!(text_of(&rows, "Population"), "32,971,846");
    assert_eq!(text_of(&rows, "Borders"), "BOL BRA CHL COL ECU");
    assert_eq!(text_of(&rows, "Languages"), "Aymara Quechua Spanish");
    assert_eq!(text_of(&rows, "Currencies"), "Peruvian sol (S/ )");
    assert_eq!(text_of(&rows, "Landlocked"), "No");
    assert_eq!(text_of(&rows, "Start of week"), "monday");
    assert_eq!(text_of(&rows, "Continents"), "South America");
    let maps = &rows[ROW_COUNT - 1];
    assert_eq!(maps.label, "Maps");
    assert_eq!(maps.text, "OpenStreetMaps");
    assert_eq!(maps.link, Some("https://www.openstreetmap.org/relation/288247".to_string()));
    assert!(rows[..ROW_COUNT - 1].iter().all(|r| r.link.is_none()));
}

#[test]
fn row_order_is_fixed() {
    let mut sparse = japan();
    sparse.borders = None;
    sparse.continents = None;
    sparse.capital = vec![];
    sparse.languages = vec![];
    sparse.currencies = vec![];
    let expected = strings(&[
        "Official name", "Capital", "Region", "Subregion", "LatLng", "Capital LatLng",
        "Timezones", "TLD", "Population", "Borders", "Languages", "Currencies", "Landlocked",
        "Start of week", "Continents", "Maps",
    ]);
    assert_eq!(labels_of(&record_rows(&japan())), expected);
    assert_eq!(labels_of(&record_rows(&sparse)), expected);
    assert_eq!(labels_of(&record_rows(&peru())), expected);
}

#[test]
fn absent_borders_differ_from_empty_borders() {
    let mut absent = japan();
    absent.borders = None;
    let mut empty = japan();
    empty.borders = Some(vec![]);
    let absent_text = text_of(&record_rows(&absent), "Borders");
    let empty_text = text_of(&record_rows(&empty), "Borders");
    assert_eq!(absent_text, "None");
    assert_eq!(empty_text, "");
    assert_ne!(absent_text, empty_text);
}

#[test]
fn absent_continents_show_fallback() {
    let mut r = japan();
    r.continents = None;
    assert_eq!(text_of(&record_rows(&r), "Continents"), "None");
}

#[test]
fn missing_capital_shows_nothing() {
    let mut r = japan();
    r.capital = vec![];
    assert_eq!(text_of(&record_rows(&r), "Capital"), "");
}

#[test]
fn landlocked_yes() {
    let mut r = japan();
    r.landlocked = true;
    assert_eq!(text_of(&record_rows(&r), "Landlocked"), "Yes");
}

#[test]
fn projector_shows_nothing_without_record() {
    assert!(project(&None).is_empty());
    assert!(project(&Some(Err(LookupError::Network))).is_empty());
    assert!(project(&Some(Err(LookupError::Decode))).is_empty());
    assert!(project(&Some(Err(LookupError::NoMatch))).is_empty());
    assert_eq!(project(&Some(Ok(japan()))).len(), ROW_COUNT);
}

#[test]
fn controller_starts_idle() {
    let c = FetchController::new("Japan".to_string());
    assert_eq!(c.query, "Japan");
    assert!(!c.pending);
    assert!(c.rows().is_empty());
}

#[test]
fn input_starts_tagged_lookup() {
    let mut c = FetchController::new(String::new());
    let req = c.set_input("Japan".to_string());
    assert_eq!(req.generation, 1);
    assert_eq!(req.url, lookup_url("Japan"));
    assert!(c.pending);
    assert!(c.resolve(req.generation, Ok(japan())));
    assert!(!c.pending);
    assert_eq!(text_of(&c.rows(), "Official name"), "Japan 🇯🇵");
}

#[test]
fn same_query_twice_keeps_rows() {
    let mut c = FetchController::new(String::new());
    let first = c.set_input("Japan".to_string());
    c.resolve(first.generation, Ok(japan()));
    let shown = c.rows();
    let again = c.set_input("Japan".to_string());
    assert_eq!(again.url, first.url);
    assert_eq!(c.rows(), shown);
    c.resolve(again.generation, Ok(japan()));
    assert_eq!(c.rows(), shown);
}

#[test]
fn late_superseded_result_is_dropped() {
    let mut c = FetchController::new(String::new());
    let japan_req = c.set_input("Japan".to_string());
    let peru_req = c.set_input("Peru".to_string());
    assert!(c.resolve(peru_req.generation, Ok(peru())));
    assert!(!c.resolve(japan_req.generation, Ok(japan())));
    assert_eq!(c.shown, Some(Ok(peru())));
    assert_eq!(text_of(&c.rows(), "Official name"), "Republic of Peru 🇵🇪");
}

#[test]
fn early_superseded_result_is_dropped() {
    let mut c = FetchController::new(String::new());
    let japan_req = c.set_input("Japan".to_string());
    let peru_req = c.set_input("Peru".to_string());
    assert!(!c.resolve(japan_req.generation, Ok(japan())));
    assert!(c.rows().is_empty());
    assert!(c.resolve(peru_req.generation, Ok(peru())));
    assert_eq!(c.shown, Some(Ok(peru())));
}

#[test]
fn empty_match_array_shows_nothing() {
    let mut c = FetchController::new(String::new());
    let first = c.set_input("Japan".to_string());
    c.resolve(first.generation, Ok(japan()));
    let req = c.set_input("Atlantis".to_string());
    c.resolve(req.generation, interpret_response(Some(200), Some(vec![])));
    assert_eq!(c.shown, Some(Err(LookupError::NoMatch)));
    assert_eq!(c.rows(), FetchController::new(String::new()).rows());
    assert!(c.rows().is_empty());
}

#[test]
fn failed_lookup_clears_record() {
    let mut c = FetchController::new(String::new());
    let first = c.set_input("Japan".to_string());
    c.resolve(first.generation, Ok(japan()));
    let req = c.set_input("Peru".to_string());
    c.resolve(req.generation, Err(LookupError::Network));
    assert!(c.rows().is_empty());
}

#[test]
fn clearing_input_starts_lookup_and_clears_rows() {
    let mut c = FetchController::new(String::new());
    let req = c.set_input("Japan".to_string());
    c.resolve(req.generation, Ok(japan()));
    assert!(!c.rows().is_empty());
    let cleared = c.set_input(String::new());
    assert_eq!(cleared.generation, req.generation + 1);
    assert_eq!(cleared.url, lookup_url(""));
    assert_eq!(c.query, "");
    assert!(c.pending);
    assert!(c.rows().is_empty());
    assert!(!c.resolve(req.generation, Ok(japan())));
    assert!(c.resolve(cleared.generation, Err(LookupError::Network)));
    assert!(c.rows().is_empty());
}

#[test]
fn url_for_empty_name() {
    assert_eq!(
        lookup_url(""),
        format!("https://restcountries.com/v3.1/translation/{}", FIELDS)
    );
}

#[test]
fn generation_wraps_after_largest() {
    let mut c = FetchController::new(String::new());
    c.generation = u64::MAX;
    let req = c.set_input("Peru".to_string());
    assert_eq!(req.generation, 0);
    assert!(!c.resolve(u64::MAX, Ok(japan())));
    assert!(c.resolve(0, Ok(peru())));
}
