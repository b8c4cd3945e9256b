use vstd::prelude::*;
use crate::display::{project, project_spec, rows_view, Row};
use crate::record::{CountryRecord, LookupError};
use crate::url::{lookup_url, lookup_url_spec};

verus! {

/// A lookup to be carried out, tagged with the generation that started it.
#[derive(Clone, Debug, PartialEq)]
pub struct LookupRequest {
    pub generation: u64,
    pub url: String,
}

/// The generation that follows `g`; the count starts again at zero after the
/// largest value.
pub open spec fn next_generation(g: u64) -> u64 {
    if g == u64::MAX {
        0
    } else {
        (g + 1) as u64
    }
}

/// Drives lookups from the text the user typed.
///
/// Every change of the input starts a new generation and one lookup. A lookup that resolves
/// is shown only when it belongs to the latest generation and that lookup is
/// still pending; older results are dropped. While a lookup is pending the
/// outcome shown before stays in place until the new one replaces it.
#[derive(Clone, Debug, PartialEq)]
pub struct FetchController {
    /// The text in the input field.
    pub query: String,
    /// The generation of the latest lookup started.
    pub generation: u64,
    /// Whether the latest lookup has yet to resolve.
    pub pending: bool,
    /// The outcome of the latest lookup that resolved, if any.
    pub shown: Option<Result<CountryRecord, LookupError>>,
}

impl FetchController {
    /// The controller after the input changed to `text`.
    pub open spec fn after_input(self, text: String) -> FetchController {
        FetchController {
            query: text,
            generation: next_generation(self.generation),
            pending: true,
            shown: if text@.len() == 0 {
                None
            } else {
                self.shown
            },
        }
    }

    /// The controller after the lookup of `generation` resolved with `outcome`.
    pub open spec fn after_resolve(
        self,
        generation: u64,
        outcome: Result<CountryRecord, LookupError>,
    ) -> FetchController {
        if self.pending && generation == self.generation {
            FetchController { shown: Some(outcome), pending: false, ..self }
        } else {
            self
        }
    }

    /// A controller with `query` in the input and nothing looked up yet.
    pub fn new(query: String) -> (c: Self)
        ensures
            c.query == query,
            c.generation == 0,
            !c.pending,
            c.shown is None,
    {
        FetchController { query, generation: 0, pending: false, shown: None }
    }

    /// The input changed to `text`: starts a lookup of it, which supersedes
    /// any lookup still pending. An empty text also clears what is shown.
    pub fn set_input(&mut self, text: String) -> (req: LookupRequest)
        ensures
            *final(self) == old(self).after_input(text),
            req.generation == final(self).generation,
            req.url@ == lookup_url_spec(text@),
    {
        self.generation = if self.generation == u64::MAX {
            0
        } else {
            self.generation + 1
        };
        if text.as_str().is_empty() {
            self.shown = None;
        }
        let url = lookup_url(text.as_str());
        self.query = text;
        self.pending = true;
        LookupRequest { generation: self.generation, url }
    }

    /// The lookup of `generation` resolved with `outcome`. It is shown when it
    /// is the pending lookup of the latest generation, and dropped otherwise.
    /// Returns whether it was shown.
    pub fn resolve(&mut self, generation: u64, outcome: Result<CountryRecord, LookupError>) -> (applied: bool)
        ensures
            applied == (old(self).pending && generation == old(self).generation),
            *final(self) == old(self).after_resolve(generation, outcome),
    {
        if self.pending && generation == self.generation {
            self.shown = Some(outcome);
            self.pending = false;
            true
        } else {
            false
        }
    }

    /// The rows to show now.
    pub fn rows(&self) -> (rows: Vec<Row>)
        ensures
            rows_view(rows@) == project_spec(self.shown),
    {
        project(&self.shown)
    }
}

} // verus!
