//! The two views of the dashboard and how a view is named on the command line.

use vstd::prelude::*;

use crate::text::str_eq;

verus! {

/// Which view the dashboard shows: a table of numbers or line charts.
#[derive(PartialEq, Eq, Clone, Copy, Debug, Structural)]
pub enum ViewMode {
    Numbers,
    Chart,
}

/// The other view.
pub open spec fn toggled(m: ViewMode) -> ViewMode {
    match m {
        ViewMode::Numbers => ViewMode::Chart,
        ViewMode::Chart => ViewMode::Numbers,
    }
}

/// The names accepted for the table view.
pub open spec fn is_numbers_name(s: Seq<char>) -> bool {
    ||| s == "numbers"@
    ||| s == "number"@
    ||| s == "table"@
    ||| s == "v0.1"@
}

/// The names accepted for the chart view.
pub open spec fn is_chart_name(s: Seq<char>) -> bool {
    ||| s == "chart"@
    ||| s == "line"@
    ||| s == "graph"@
    ||| s == "v0.3"@
}

/// The view that a name selects, if any.
pub open spec fn view_named(s: Seq<char>) -> Option<ViewMode> {
    if is_numbers_name(s) {
        Some(ViewMode::Numbers)
    } else if is_chart_name(s) {
        Some(ViewMode::Chart)
    } else {
        None
    }
}

/// A view name that is neither a table name nor a chart name.
#[derive(Debug)]
pub enum ViewParseError {
    Invalid(String),
}

impl ViewParseError {
    /// The text shown to the user.
    pub fn message(&self) -> (s: String)
        ensures
            self matches ViewParseError::Invalid(name) && s@ == "invalid --view "@ + name@
                + "; use numbers or chart"@,
    {
        match self {
            ViewParseError::Invalid(name) => {
                crate::text::concat3("invalid --view ", name.as_str(), "; use numbers or chart")
            },
        }
    }
}

/// Reads a view name: `numbers`, `number`, `table` or `v0.1` select the table,
/// `chart`, `line`, `graph` or `v0.3` the charts; anything else is refused.
pub fn parse_view_mode(s: &str) -> (r: Result<ViewMode, ViewParseError>)
    ensures
        view_named(s@) matches Some(m) ==> r == Ok::<ViewMode, ViewParseError>(m),
        view_named(s@) is None ==> (r matches Err(ViewParseError::Invalid(name)) && name@ == s@),
{
    if str_eq(s, "numbers") || str_eq(s, "number") || str_eq(s, "table") || str_eq(s, "v0.1") {
        Ok(ViewMode::Numbers)
    } else if str_eq(s, "chart") || str_eq(s, "line") || str_eq(s, "graph") || str_eq(s, "v0.3") {
        Ok(ViewMode::Chart)
    } else {
        Err(ViewParseError::Invalid(String::from_str(s)))
    }
}

/// The title of a view, as the footer shows it.
pub fn view_mode_label(m: ViewMode) -> (s: &'static str)
    ensures
        m == ViewMode::Numbers ==> s@ == "v0.1 Numbers"@,
        m == ViewMode::Chart ==> s@ == "v0.3 Line Chart"@,
{
    match m {
        ViewMode::Numbers => "v0.1 Numbers",
        ViewMode::Chart => "v0.3 Line Chart",
    }
}

/// Switching the view twice gives back the view one started from.
pub proof fn law_toggle_twice(m: ViewMode)
    ensures
        toggled(toggled(m)) == m,
        toggled(m) != m,
{
}

/// The accepted names: `numbers`, `number`, `table` and `v0.1` select the
/// table; `chart`, `line`, `graph` and `v0.3` select the charts; no other name
/// selects a view. Switching views always changes the view.
pub proof fn law_view_names(s: Seq<char>)
    ensures
        view_named("numbers"@) == Some(ViewMode::Numbers),
        view_named("number"@) == Some(ViewMode::Numbers),
        view_named("table"@) == Some(ViewMode::Numbers),
        view_named("v0.1"@) == Some(ViewMode::Numbers),
        view_named("chart"@) == Some(ViewMode::Chart),
        view_named("line"@) == Some(ViewMode::Chart),
        view_named("graph"@) == Some(ViewMode::Chart),
        view_named("v0.3"@) == Some(ViewMode::Chart),
        s != "numbers"@ && s != "number"@ && s != "table"@ && s != "v0.1"@ && s != "chart"@ && s
            != "line"@ && s != "graph"@ && s != "v0.3"@ ==> view_named(s) is None,
        toggled(ViewMode::Numbers) == ViewMode::Chart,
        toggled(ViewMode::Chart) == ViewMode::Numbers,
{
    law_view_names_disjoint(s);
    law_view_names_disjoint("numbers"@);
    law_view_names_disjoint("number"@);
    law_view_names_disjoint("table"@);
    law_view_names_disjoint("v0.1"@);
}

/// Every accepted name selects exactly one view.
pub proof fn law_view_names_disjoint(s: Seq<char>)
    ensures
        !(is_numbers_name(s) && is_chart_name(s)),
{
    reveal_strlit("numbers");
    reveal_strlit("number");
    reveal_strlit("table");
    reveal_strlit("v0.1");
    reveal_strlit("chart");
    reveal_strlit("line");
    reveal_strlit("graph");
    reveal_strlit("v0.3");
    assert("numbers"@[0] == 'n' && "number"@[0] == 'n' && "table"@[0] == 't');
    assert("chart"@[0] == 'c' && "line"@[0] == 'l' && "graph"@[0] == 'g');
    assert("v0.1"@[3] == '1' && "v0.3"@[3] == '3' && "v0.1"@[0] == 'v');
}

} // verus!
