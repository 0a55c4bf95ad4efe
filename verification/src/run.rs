//! Whole resolutions: a resolver driven against a console host until it is
//! done, and what is then true of the queries made and of the result.

use crate::console::{is_no_handle, Console, ConsoleQuery, Observed};
use crate::resolve::{font_step, terminal_step, Step};
use crate::size::{FontSize, TerminalError, TerminalSize};
use vstd::prelude::*;

verus! {

/// Drives `resolver` against `host`, starting from `seen`: while it asks and
/// `limit` allows, the host's answer is recorded and the resolver is asked
/// again. Gives the queries made, in order, and the step on which it stopped.
pub open spec fn drive<T>(
    resolver: spec_fn(Observed) -> Step<T>,
    host: Console,
    seen: Observed,
    limit: nat,
) -> (Seq<ConsoleQuery>, Step<T>)
    decreases limit,
{
    match resolver(seen) {
        Step::Ask(query) => {
            if limit == 0 {
                (Seq::empty(), Step::Ask(query))
            } else {
                let rest = drive(resolver, host, seen.after(host.answer(query)), (limit - 1) as nat);
                (seq![query] + rest.0, rest.1)
            }
        },
        Step::Done(result) => (Seq::empty(), Step::Done(result)),
    }
}

/// The font resolver as a value that `drive` takes.
pub open spec fn font_resolver() -> spec_fn(Observed) -> Step<FontSize> {
    |seen: Observed| font_step(seen)
}

/// The terminal resolver as a value that `drive` takes.
pub open spec fn terminal_resolver() -> spec_fn(Observed) -> Step<TerminalSize> {
    |seen: Observed| terminal_step(seen)
}

impl Console {
    /// The size of one character cell on this host.
    pub open spec fn font_size(self) -> Result<FontSize, TerminalError> {
        if is_no_handle(self.std_handle) {
            Err(TerminalError::NoStdHandle)
        } else {
            FontSize::lookup(self.window_dpi)
        }
    }

    /// The size of this host's console in pixels.
    pub open spec fn terminal_size(self) -> Result<TerminalSize, TerminalError> {
        if is_no_handle(self.std_handle) {
            Err(TerminalError::NoStdHandle)
        } else if self.buffer_status == 0 {
            Err(TerminalError::NoScreenBufferInfo)
        } else {
            TerminalSize::measure(self.buffer_size, self.window_dpi)
        }
    }

    /// The queries that finding the font size takes on this host.
    pub open spec fn font_queries(self) -> Seq<ConsoleQuery> {
        if is_no_handle(self.std_handle) {
            seq![ConsoleQuery::StdOutputHandle]
        } else {
            seq![ConsoleQuery::StdOutputHandle, ConsoleQuery::WindowDpi]
        }
    }

    /// The queries that finding the terminal size takes on this host.
    pub open spec fn terminal_queries(self) -> Seq<ConsoleQuery> {
        if is_no_handle(self.std_handle) {
            seq![ConsoleQuery::StdOutputHandle]
        } else if self.buffer_status == 0 {
            seq![
                ConsoleQuery::StdOutputHandle,
                ConsoleQuery::ScreenBufferInfo { handle: self.std_handle },
            ]
        } else {
            seq![
                ConsoleQuery::StdOutputHandle,
                ConsoleQuery::ScreenBufferInfo { handle: self.std_handle },
                ConsoleQuery::WindowDpi,
            ]
        }
    }
}

/// On every host the font resolver, started with nothing known, ends within
/// two queries. Its result is the host's font size, and it has asked for the
/// handle and, unless that was null or invalid, for the DPI: nothing else,
/// nothing twice.
pub proof fn font_resolution_ends(host: Console, limit: nat)
    requires
        limit >= 2,
    ensures
        drive(font_resolver(), host, Observed::blank(), limit) == (
            host.font_queries(),
            Step::Done(host.font_size()),
        ),
{
    reveal_with_fuel(drive, 3);
    let run = drive(font_resolver(), host, Observed::blank(), limit);
    assert(run.0 =~= host.font_queries());
}

/// On every host the terminal resolver, started with nothing known, ends
/// within three queries. Its result is the host's terminal size, and it has
/// asked for the handle, the screen buffer and the DPI in this order, up to
/// and including the first that failed.
pub proof fn terminal_resolution_ends(host: Console, limit: nat)
    requires
        limit >= 3,
    ensures
        drive(terminal_resolver(), host, Observed::blank(), limit) == (
            host.terminal_queries(),
            Step::Done(host.terminal_size()),
        ),
{
    reveal_with_fuel(drive, 4);
    let run = drive(terminal_resolver(), host, Observed::blank(), limit);
    assert(run.0 =~= host.terminal_queries());
}

/// Where the standard output handle is null or invalid, both resolvers end
/// with `NoStdHandle` and have made no query but the one for the handle.
pub proof fn missing_handle_ends_both(host: Console, limit: nat)
    requires
        host.std_handle == 0 || host.std_handle == -1,
        limit >= 1,
    ensures
        drive(font_resolver(), host, Observed::blank(), limit) == (
            seq![ConsoleQuery::StdOutputHandle],
            Step::<FontSize>::Done(Err(TerminalError::NoStdHandle)),
        ),
        drive(terminal_resolver(), host, Observed::blank(), limit) == (
            seq![ConsoleQuery::StdOutputHandle],
            Step::<TerminalSize>::Done(Err(TerminalError::NoStdHandle)),
        ),
{
    reveal_with_fuel(drive, 2);
    let font_run = drive(font_resolver(), host, Observed::blank(), limit);
    let terminal_run = drive(terminal_resolver(), host, Observed::blank(), limit);
    assert(font_run.0 =~= seq![ConsoleQuery::StdOutputHandle]);
    assert(terminal_run.0 =~= seq![ConsoleQuery::StdOutputHandle]);
}

/// The terminal resolver ends with `NoScreenBufferInfo` on exactly the hosts
/// whose standard output handle is neither null nor invalid and that fail
/// the screen buffer query. It has then asked for the handle first and for
/// the screen buffer behind that handle second, and has not asked for the DPI.
pub proof fn buffer_failure_follows_handle(host: Console, limit: nat)
    requires
        limit >= 3,
    ensures
        drive(terminal_resolver(), host, Observed::blank(), limit).1 == Step::<TerminalSize>::Done(
            Err(TerminalError::NoScreenBufferInfo),
        ) <==> host.std_handle != 0 && host.std_handle != -1 && host.buffer_status == 0,
        host.std_handle != 0 && host.std_handle != -1 && host.buffer_status == 0 ==> drive(
            terminal_resolver(),
            host,
            Observed::blank(),
            limit,
        ).0 == seq![
            ConsoleQuery::StdOutputHandle,
            ConsoleQuery::ScreenBufferInfo { handle: host.std_handle },
        ],
{
    terminal_resolution_ends(host, limit);
}

/// On a host where the terminal size is found, the font size is found too,
/// and the terminal's width is the buffer's columns times the font's width,
/// its height the buffer's rows times the font's height.
pub proof fn terminal_size_is_grid_times_font(host: Console)
    ensures
        host.terminal_size() matches Ok(pixels) ==> {
            &&& host.font_size() matches Ok(font)
            &&& pixels.covers(host.buffer_size, font)
        },
{
}

} // verus!
