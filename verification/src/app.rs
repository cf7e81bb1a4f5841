//! The dashboard's interactive state: which view is shown, where the GPU list
//! is scrolled to, and whether the user asked to quit.

use vstd::prelude::*;

use crate::view::{parse_view_mode, toggled, view_named, ViewMode, ViewParseError};

verus! {

/// The command-line settings of the dashboard.
pub struct Args {
    /// GPU indices to monitor; all GPUs when empty.
    pub gpus: Vec<u32>,
    /// Sampling interval in milliseconds.
    pub interval_ms: u64,
    /// History points kept per GPU for the charts.
    pub history_points: usize,
    /// Name of the initial view.
    pub view: String,
}

/// Settings that the dashboard refuses to start with.
#[derive(Debug)]
pub enum ArgsError {
    /// The sampling interval is 100 ms or less; NVML GPM needs more.
    IntervalTooShort,
    /// No history point would be kept.
    NoHistoryPoints,
    /// The initial view is not a known name.
    InvalidView(ViewParseError),
}

impl ArgsError {
    /// The text shown to the user.
    pub fn message(&self) -> (s: String)
        ensures
            self is IntervalTooShort ==> s@
                == "--interval-ms must be >100; recommended values are 200 or 1000"@,
            self is NoHistoryPoints ==> s@ == "--history-points must be >0"@,
            self matches ArgsError::InvalidView(ViewParseError::Invalid(name)) ==> s@
                == "invalid --view "@ + name@ + "; use numbers or chart"@,
    {
        match self {
            ArgsError::IntervalTooShort => String::from_str(
                "--interval-ms must be >100; recommended values are 200 or 1000",
            ),
            ArgsError::NoHistoryPoints => String::from_str("--history-points must be >0"),
            ArgsError::InvalidView(e) => e.message(),
        }
    }
}

/// The largest scroll offset for a list of `len` GPUs (`len - 1`, or 0 when empty).
pub open spec fn last_row(len: nat) -> nat {
    if len == 0 {
        0
    } else {
        (len - 1) as nat
    }
}

/// The scroll offset after one step up.
pub open spec fn scrolled_up(scroll: nat) -> nat {
    if scroll > 0 {
        (scroll - 1) as nat
    } else {
        scroll
    }
}

/// The scroll offset after one step down in a list of `len` GPUs.
pub open spec fn scrolled_down(scroll: nat, len: nat) -> nat {
    if scroll < last_row(len) {
        scroll + 1
    } else {
        scroll
    }
}

/// The scroll offset once it is brought back inside a list of `len` GPUs.
pub open spec fn clamped_scroll(scroll: nat, len: nat) -> nat {
    if scroll <= last_row(len) {
        scroll
    } else {
        last_row(len)
    }
}

/// The state of the dashboard's user interface.
pub struct App {
    /// Set once the user asked to leave.
    pub should_quit: bool,
    /// The view on screen.
    pub view_mode: ViewMode,
    /// The program's version.
    pub version: String,
    /// Sampling interval in milliseconds.
    pub interval_ms: u64,
    /// History points kept per GPU.
    pub history_points: usize,
    /// Index of the first GPU on screen.
    pub vertical_scroll: usize,
    /// Number of GPUs the scrollbar was last sized for.
    pub scroll_content_length: usize,
}

impl App {
    /// `self` and `other` agree on everything but the scroll offset and the
    /// scrollbar's length.
    pub open spec fn same_settings(self, other: App) -> bool {
        &&& self.should_quit == other.should_quit
        &&& self.view_mode == other.view_mode
        &&& self.version@ == other.version@
        &&& self.interval_ms == other.interval_ms
        &&& self.history_points == other.history_points
    }

    /// Checks the settings and builds the starting state: the table or chart
    /// view as named, scrolled to the top, not quitting.
    pub fn try_new(args: Args, version: String) -> (r: Result<App, ArgsError>)
        ensures
            args.interval_ms <= 100 ==> r matches Err(ArgsError::IntervalTooShort),
            args.interval_ms > 100 && args.history_points == 0 ==> r matches Err(
                ArgsError::NoHistoryPoints,
            ),
            args.interval_ms > 100 && args.history_points > 0 && view_named(args.view@) is None
                ==> (r matches Err(ArgsError::InvalidView(ViewParseError::Invalid(name)))
                && name@ == args.view@),
            r is Ok <==> (args.interval_ms > 100 && args.history_points > 0 && view_named(
                args.view@,
            ) is Some),
            r matches Ok(app) ==> {
                &&& Some(app.view_mode) == view_named(args.view@)
                &&& !app.should_quit
                &&& app.version@ == version@
                &&& app.interval_ms == args.interval_ms
                &&& app.history_points == args.history_points
                &&& app.vertical_scroll == 0
                &&& app.scroll_content_length == 0
            },
    {
        if args.interval_ms <= 100 {
            return Err(ArgsError::IntervalTooShort);
        }
        if args.history_points == 0 {
            return Err(ArgsError::NoHistoryPoints);
        }
        let view_mode = match parse_view_mode(args.view.as_str()) {
            Ok(m) => m,
            Err(e) => {
                return Err(ArgsError::InvalidView(e));
            },
        };
        Ok(App {
            should_quit: false,
            view_mode,
            version,
            interval_ms: args.interval_ms,
            history_points: args.history_points,
            vertical_scroll: 0,
            scroll_content_length: 0,
        })
    }

    /// Switches between the table and the charts.
    pub fn toggle_view_mode(&mut self)
        ensures
            final(self).view_mode == toggled(old(self).view_mode),
            final(self).should_quit == old(self).should_quit,
            final(self).version@ == old(self).version@,
            final(self).interval_ms == old(self).interval_ms,
            final(self).history_points == old(self).history_points,
            final(self).vertical_scroll == old(self).vertical_scroll,
            final(self).scroll_content_length == old(self).scroll_content_length,
    {
        self.view_mode = match self.view_mode {
            ViewMode::Numbers => ViewMode::Chart,
            ViewMode::Chart => ViewMode::Numbers,
        };
    }

    /// Records that the user asked to leave.
    pub fn quit(&mut self)
        ensures
            final(self).should_quit,
            final(self).view_mode == old(self).view_mode,
            final(self).version@ == old(self).version@,
            final(self).interval_ms == old(self).interval_ms,
            final(self).history_points == old(self).history_points,
            final(self).vertical_scroll == old(self).vertical_scroll,
            final(self).scroll_content_length == old(self).scroll_content_length,
    {
        self.should_quit = true;
    }

    /// Scrolls one GPU up, stopping at the top.
    pub fn on_up(&mut self)
        ensures
            final(self).vertical_scroll == scrolled_up(old(self).vertical_scroll as nat),
            final(self).same_settings(*old(self)),
            final(self).scroll_content_length == old(self).scroll_content_length,
    {
        if self.vertical_scroll > 0 {
            self.vertical_scroll = self.vertical_scroll - 1;
        }
    }

    /// Scrolls one GPU down in a list of `len` GPUs, stopping at the last one.
    pub fn on_down(&mut self, len: usize)
        ensures
            final(self).vertical_scroll == scrolled_down(
                old(self).vertical_scroll as nat,
                len as nat,
            ),
            final(self).same_settings(*old(self)),
            final(self).scroll_content_length == old(self).scroll_content_length,
    {
        if self.vertical_scroll < len.saturating_sub(1) {
            self.vertical_scroll = self.vertical_scroll + 1;
        }
    }

    /// Brings the scroll offset back inside a list of `len` GPUs and sizes the
    /// scrollbar for that list.
    pub fn sync_scroll_state(&mut self, len: usize)
        ensures
            final(self).vertical_scroll == clamped_scroll(
                old(self).vertical_scroll as nat,
                len as nat,
            ),
            final(self).scroll_content_length == len,
            final(self).same_settings(*old(self)),
    {
        let last = len.saturating_sub(1);
        if self.vertical_scroll > last {
            self.vertical_scroll = last;
        }
        self.scroll_content_length = len;
    }
}

/// Scrolling up or down never leaves a list of `len` GPUs.
pub proof fn law_scroll_stays_in_list(scroll: nat, len: nat)
    requires
        scroll <= last_row(len),
    ensures
        scrolled_up(scroll) <= last_row(len),
        scrolled_down(scroll, len) <= last_row(len),
        clamped_scroll(scroll, len) == scroll,
{
}

/// In a list of `len` GPUs the offset names a GPU of the list (or is 0 when the
/// list is empty): a step down moves to the next GPU exactly when there is one,
/// a step up moves to the previous one exactly when the offset is not 0, and
/// bringing the offset into the list keeps it when it names a GPU and
/// otherwise moves it to the last GPU.
pub proof fn law_scroll_moves(scroll: nat, len: nat)
    ensures
        scroll + 1 < len ==> scrolled_down(scroll, len) == scroll + 1,
        scroll + 1 >= len ==> scrolled_down(scroll, len) == scroll,
        scroll > 0 ==> scrolled_up(scroll) == scroll - 1,
        scroll == 0 ==> scrolled_up(scroll) == 0,
        len > 0 && scroll < len ==> clamped_scroll(scroll, len) == scroll,
        len > 0 && scroll >= len ==> clamped_scroll(scroll, len) == len - 1,
        len == 0 ==> clamped_scroll(scroll, len) == 0,
        len > 0 ==> clamped_scroll(scroll, len) < len,
{
}

/// One step down followed by one step up comes back, unless already at the
/// last GPU; one step up followed by one step down comes back, unless already
/// at the top.
pub proof fn law_scroll_steps_undo(scroll: nat, len: nat)
    requires
        scroll <= last_row(len),
    ensures
        scroll < last_row(len) ==> scrolled_up(scrolled_down(scroll, len)) == scroll,
        scroll > 0 ==> scrolled_down(scrolled_up(scroll), len) == scroll,
        scroll == 0 ==> scrolled_up(scroll) == scroll,
        scroll == last_row(len) ==> scrolled_down(scroll, len) == scroll,
{
}

/// Bringing the offset into the list lands inside it, and doing it again
/// changes nothing.
pub proof fn law_clamp_idempotent(scroll: nat, len: nat)
    ensures
        clamped_scroll(scroll, len) <= last_row(len),
        clamped_scroll(clamped_scroll(scroll, len), len) == clamped_scroll(scroll, len),
        scroll <= last_row(len) ==> clamped_scroll(scroll, len) == scroll,
{
}

} // verus!
