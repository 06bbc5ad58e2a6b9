//! The source-selection stage: a single-choice control over a statically
//! enumerated set of source options (currently exactly one), held locally
//! until the user confirms.

use vstd::prelude::*;

use crate::context::{default_source, default_source_string, opt_str_view};
use crate::urls::{url_is_valid, url_parse_ok};

verus! {

/// The value of the one radio option offered on this stage.
pub open spec fn station_option_id() -> Seq<char> {
    "kmf-station"@
}

/// The station option as an owned string.
pub fn station_option_string() -> (s: String)
    ensures
        s@ == station_option_id(),
{
    String::from_str("kmf-station")
}

/// Resolve a raised option value to its source identifier: the station
/// option maps to the default source URL, checked against the URL parser;
/// every other value resolves to nothing.
pub fn source_for_option(value: &String) -> (r: Option<String>)
    ensures
        (r is Some) == (value@ == station_option_id() && url_parse_ok(default_source())),
        opt_str_view(r) is Some ==> opt_str_view(r) == Some(default_source()),
{
    let station = station_option_string();
    if *value == station {
        let s = default_source_string();
        if url_is_valid(s.as_str()) {
            Some(s)
        } else {
            None
        }
    } else {
        None
    }
}

/// Local state of the source-selection stage: the source the user has picked
/// but not yet confirmed.
#[derive(Debug, Clone)]
pub struct SelectSourceState {
    /// The resolved source identifier, once an option has been selected.
    pub chosen: Option<String>,
}

impl SelectSourceState {
    /// Fresh stage state: nothing selected yet.
    pub fn new() -> (st: SelectSourceState)
        ensures
            st.chosen is None,
    {
        SelectSourceState { chosen: None }
    }

    /// React to the single-choice control changing to `value`: the known
    /// option records its source, unknown values are ignored.
    pub fn choose_option(&mut self, value: &String)
        ensures
            opt_str_view(final(self).chosen) == (if value@ == station_option_id()
                && url_parse_ok(default_source()) {
                Some(default_source())
            } else {
                opt_str_view(old(self).chosen)
            }),
            !(value@ == station_option_id() && url_parse_ok(default_source()))
                ==> final(self).chosen == old(self).chosen,
    {
        match source_for_option(value) {
            Some(s) => {
                self.chosen = Some(s);
            },
            None => {},
        }
    }

    /// Whether the confirmation ("next") control is offered: exactly when a
    /// source has been chosen.
    pub fn next_available(&self) -> (r: bool)
        ensures
            r == (self.chosen is Some),
    {
        self.chosen.is_some()
    }

    /// The chosen source, to be recorded in the context on confirmation.
    pub fn confirm(&self) -> (r: Option<String>)
        ensures
            opt_str_view(r) == opt_str_view(self.chosen),
    {
        match &self.chosen {
            Some(s) => Some(s.clone()),
            None => None,
        }
    }
}

} // verus!
