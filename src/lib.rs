//! Looks up facts about a country by name and lays them out as labelled rows.
//!
//! The name typed by the user drives a [`controller::FetchController`], which
//! tags each lookup with a generation so that only the latest one is shown.
//! Lookups go to a REST service whose address [`url::lookup_url`] builds; the
//! response is turned into an outcome by [`record::interpret_response`] and
//! the outcome into rows by [`display::project`].

pub mod controller;
pub mod display;
pub mod laws;
pub mod record;
pub mod text;
pub mod url;
