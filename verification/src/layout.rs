//! Screen layout decisions: which GPUs the chart view shows, when scrollbars
//! appear, how rows are marked, and chart titles.

use vstd::prelude::*;

use crate::app::{clamped_scroll, last_row};
use crate::text::{decimal, str_eq, u32_to_decimal, u64_to_decimal};

verus! {

/// Height of one GPU's chart, in terminal rows.
pub const CHART_HEIGHT: u16 = 12;

/// The charts on screen: `items_per_screen` fit, and GPUs `start..end` are drawn.
#[derive(PartialEq, Eq, Clone, Copy, Debug, Structural)]
pub struct ChartWindow {
    pub items_per_screen: usize,
    pub start: usize,
    pub end: usize,
    /// Whether the list is longer than what fits.
    pub show_scrollbar: bool,
}

/// How many charts fit in `height` rows: at least one.
pub open spec fn charts_per_screen(height: u16) -> nat {
    if height / CHART_HEIGHT >= 1 {
        (height / CHART_HEIGHT) as nat
    } else {
        1
    }
}

/// The charts to draw in an area `area_height` rows high for a list of `len`
/// GPUs scrolled to `vertical_scroll`: as many as fit, from the scrolled-to GPU
/// (kept inside the list) to the end of the list at most.
pub fn chart_window(area_height: u16, vertical_scroll: usize, len: usize) -> (w: ChartWindow)
    requires
        len <= isize::MAX,
    ensures
        w.items_per_screen == charts_per_screen(area_height),
        w.start == clamped_scroll(vertical_scroll as nat, len as nat),
        w.end == (if w.start + w.items_per_screen <= len {
            w.start + w.items_per_screen
        } else {
            len as int
        }),
        w.show_scrollbar == (len > w.items_per_screen),
        w.items_per_screen >= 1,
        area_height >= CHART_HEIGHT ==> w.items_per_screen * CHART_HEIGHT <= area_height,
        (w.items_per_screen + 1) * CHART_HEIGHT > area_height,
        w.start <= w.end <= len,
        w.end - w.start <= w.items_per_screen,
        len > 0 ==> w.start < w.end,
        len > 0 && vertical_scroll < len ==> w.start == vertical_scroll,
        len > 0 && vertical_scroll >= len ==> w.start == len - 1,
        len == 0 ==> w.start == 0 && w.end == 0,
{
    proof {
        law_charts_fit(area_height);
        law_chart_window_in_list(area_height, vertical_scroll as nat, len as nat);
    }
    let per = area_height / CHART_HEIGHT;
    let items_per_screen: usize = if per >= 1 {
        per as usize
    } else {
        1
    };
    let last = len.saturating_sub(1);
    let start = if vertical_scroll <= last {
        vertical_scroll
    } else {
        last
    };
    let end = if start + items_per_screen <= len {
        start + items_per_screen
    } else {
        len
    };
    ChartWindow { items_per_screen, start, end, show_scrollbar: len > items_per_screen }
}

/// The number of charts that fit in `height` rows is the largest `k >= 1`
/// whose `k` charts of `CHART_HEIGHT` rows fit, or 1 when not even one fits:
/// `k` charts fit whenever one does, and `k + 1` never fit.
pub proof fn law_charts_fit(height: u16)
    ensures
        charts_per_screen(height) >= 1,
        height >= CHART_HEIGHT ==> charts_per_screen(height) * CHART_HEIGHT <= height,
        (charts_per_screen(height) + 1) * CHART_HEIGHT > height,
{
}

/// The drawn charts lie inside the list, are at most as many as fit, and at
/// least one is drawn when the list is not empty.
pub proof fn law_chart_window_in_list(area_height: u16, vertical_scroll: nat, len: nat)
    ensures
        ({
            let start = clamped_scroll(vertical_scroll, len);
            let per = charts_per_screen(area_height);
            let end: int = if start + per <= len {
                (start + per) as int
            } else {
                len as int
            };
            &&& per >= 1
            &&& start <= end <= len
            &&& end - start <= per
            &&& len > 0 ==> start < end
        }),
{
}

/// The table view shows a scrollbar once it lists more than one GPU.
pub fn table_scrollbar_visible(len: usize) -> (b: bool)
    ensures
        b == (len > 1),
{
    len > 1
}

/// Whether a row's status is `OK`; other rows are drawn in red.
pub fn status_is_ok(status: &str) -> (b: bool)
    ensures
        b == (status@ == "OK"@),
{
    str_eq(status, "OK")
}

/// `v0.3 Chart - GPU<index> <name> | <bus id> | status=<status>`.
pub fn chart_title(index: u32, name: &str, pci_bus_id: &str, status: &str) -> (s: String)
    ensures
        s@ == "v0.3 Chart - GPU"@ + decimal(index as nat) + " "@ + name@ + " | "@ + pci_bus_id@
            + " | status="@ + status@,
{
    let i = u32_to_decimal(index);
    let mut s = String::from_str("v0.3 Chart - GPU");
    s.append(i.as_str());
    s.append(" ");
    s.append(name);
    s.append(" | ");
    s.append(pci_bus_id);
    s.append(" | status=");
    s.append(status);
    s
}

/// The settings part of the footer:
/// ` | interval=<ms>ms | history=<points>pts | uptime=<seconds>s`.
pub fn footer_settings(interval_ms: u64, history_points: u64, uptime_s: u64) -> (s: String)
    ensures
        s@ == " | interval="@ + decimal(interval_ms as nat) + "ms | history="@ + decimal(
            history_points as nat,
        ) + "pts | uptime="@ + decimal(uptime_s as nat) + "s"@,
{
    let mut s = String::from_str(" | interval=");
    let i = u64_to_decimal(interval_ms);
    s.append(i.as_str());
    s.append("ms | history=");
    let h = u64_to_decimal(history_points);
    s.append(h.as_str());
    s.append("pts | uptime=");
    let u = u64_to_decimal(uptime_s);
    s.append(u.as_str());
    s.append("s");
    s
}

} // verus!
