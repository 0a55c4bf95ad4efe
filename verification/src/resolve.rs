//! The two resolvers. Each looks at what the console has answered so far and
//! either names the next query or gives its result.

use crate::console::{is_no_handle, ConsoleQuery, Observed};
use crate::size::{glyph_at, FontSize, TerminalError, TerminalSize};
use vstd::prelude::*;

verus! {

/// What a resolver wants next.
#[derive(Debug, PartialEq, Eq)]
pub enum Step<T> {
    /// Perform this query, record its answer, and call the resolver again.
    Ask(ConsoleQuery),
    /// The resolution has ended with this result.
    Done(Result<T, TerminalError>),
}

/// The font resolver's decision on `seen`. The handle comes first: without
/// one, or with one that is null or invalid, nothing else is asked. Then the
/// window's DPI selects the table's entry.
pub open spec fn font_step(seen: Observed) -> Step<FontSize> {
    if seen.std_handle is None {
        Step::Ask(ConsoleQuery::StdOutputHandle)
    } else if !seen.has_handle() {
        Step::Done(Err(TerminalError::NoStdHandle))
    } else if seen.window_dpi is None {
        Step::Ask(ConsoleQuery::WindowDpi)
    } else {
        Step::Done(FontSize::lookup(seen.window_dpi.unwrap()))
    }
}

/// The terminal resolver's decision on `seen`. The handle comes first, then
/// the screen buffer behind that handle, then the window's DPI; the first of
/// them that fails ends the resolution.
pub open spec fn terminal_step(seen: Observed) -> Step<TerminalSize> {
    if seen.std_handle is None {
        Step::Ask(ConsoleQuery::StdOutputHandle)
    } else if !seen.has_handle() {
        Step::Done(Err(TerminalError::NoStdHandle))
    } else if seen.screen_buffer is None {
        Step::Ask(ConsoleQuery::ScreenBufferInfo { handle: seen.std_handle.unwrap() })
    } else if !seen.has_screen_buffer() {
        Step::Done(Err(TerminalError::NoScreenBufferInfo))
    } else if seen.window_dpi is None {
        Step::Ask(ConsoleQuery::WindowDpi)
    } else {
        Step::Done(
            TerminalSize::measure(seen.screen_buffer.unwrap().size, seen.window_dpi.unwrap()),
        )
    }
}

/// Decides how to go on with finding the size of one character cell.
///
/// Asks for the standard output handle, then for the DPI of the window. Ends
/// with `NoStdHandle` on a null or invalid handle, without asking for the
/// DPI, and with `UnsupportedDpi` on a DPI that the table lacks.
pub fn get_size_of_the_font(seen: &Observed) -> (step: Step<FontSize>)
    ensures
        step == font_step(*seen),
        step == Step::<FontSize>::Done(Err(TerminalError::NoStdHandle)) <==> {
            &&& seen.std_handle matches Some(handle)
            &&& (handle == 0 || handle == -1)
        },
        step == Step::<FontSize>::Done(Err(TerminalError::UnsupportedDpi)) <==> {
            &&& seen.has_handle()
            &&& seen.window_dpi matches Some(dpi)
            &&& glyph_at(dpi) is None
        },
        (step matches Step::Done(Ok(_))) <==> {
            &&& seen.has_handle()
            &&& seen.window_dpi matches Some(dpi)
            &&& glyph_at(dpi) is Some
        },
{
    match seen.std_handle {
        None => Step::Ask(ConsoleQuery::StdOutputHandle),
        Some(handle) => {
            if handle == 0 || handle == -1 {
                Step::Done(Err(TerminalError::NoStdHandle))
            } else {
                match seen.window_dpi {
                    None => Step::Ask(ConsoleQuery::WindowDpi),
                    Some(dpi) => Step::Done(FontSize::for_dpi(dpi)),
                }
            }
        },
    }
}

/// Decides how to go on with finding the size of the console in pixels.
///
/// Asks for the standard output handle, then for the screen buffer behind it,
/// then for the DPI of the window. Ends with `NoStdHandle` on a null or
/// invalid handle, with `NoScreenBufferInfo` when the screen buffer query
/// failed, and with `UnsupportedDpi` on a DPI that the table lacks; each
/// before any later query is asked.
pub fn get_size_of_the_terminal(seen: &Observed) -> (step: Step<TerminalSize>)
    ensures
        step == terminal_step(*seen),
        step == Step::<TerminalSize>::Done(Err(TerminalError::NoStdHandle)) <==> {
            &&& seen.std_handle matches Some(handle)
            &&& (handle == 0 || handle == -1)
        },
        step == Step::<TerminalSize>::Done(Err(TerminalError::NoScreenBufferInfo)) <==> {
            &&& seen.has_handle()
            &&& seen.screen_buffer matches Some(buffer)
            &&& buffer.status == 0
        },
        step == Step::<TerminalSize>::Done(Err(TerminalError::UnsupportedDpi)) <==> {
            &&& seen.has_handle()
            &&& seen.has_screen_buffer()
            &&& seen.window_dpi matches Some(dpi)
            &&& glyph_at(dpi) is None
        },
        (step matches Step::Done(Ok(_))) <==> {
            &&& seen.has_handle()
            &&& seen.has_screen_buffer()
            &&& seen.window_dpi matches Some(dpi)
            &&& glyph_at(dpi) is Some
        },
        step matches Step::Done(Ok(pixels)) ==> pixels.covers(
            seen.screen_buffer.unwrap().size,
            glyph_at(seen.window_dpi.unwrap()).unwrap(),
        ),
{
    match seen.std_handle {
        None => Step::Ask(ConsoleQuery::StdOutputHandle),
        Some(handle) => {
            if handle == 0 || handle == -1 {
                Step::Done(Err(TerminalError::NoStdHandle))
            } else {
                match seen.screen_buffer {
                    None => Step::Ask(ConsoleQuery::ScreenBufferInfo { handle }),
                    Some(buffer) => {
                        if buffer.status == 0 {
                            Step::Done(Err(TerminalError::NoScreenBufferInfo))
                        } else {
                            match seen.window_dpi {
                                None => Step::Ask(ConsoleQuery::WindowDpi),
                                Some(dpi) => Step::Done(TerminalSize::for_grid(buffer.size, dpi)),
                            }
                        }
                    },
                }
            }
        },
    }
}

/// A null or invalid handle ends both resolvers with `NoStdHandle`, whatever
/// else has been recorded, and nothing else does. And until a handle that is
/// neither has been recorded, neither resolver asks for anything but the
/// handle.
pub proof fn handle_comes_first(seen: Observed)
    ensures
        font_step(seen) == Step::<FontSize>::Done(Err(TerminalError::NoStdHandle)) <==> {
            &&& seen.std_handle matches Some(handle)
            &&& is_no_handle(handle)
        },
        terminal_step(seen) == Step::<TerminalSize>::Done(Err(TerminalError::NoStdHandle)) <==> {
            &&& seen.std_handle matches Some(handle)
            &&& is_no_handle(handle)
        },
        font_step(seen) matches Step::Ask(query) ==> {
            ||| query == ConsoleQuery::StdOutputHandle
            ||| seen.has_handle()
        },
        terminal_step(seen) matches Step::Ask(query) ==> {
            ||| query == ConsoleQuery::StdOutputHandle
            ||| seen.has_handle()
        },
{
}

/// The terminal resolver ends with `NoScreenBufferInfo` exactly when a handle
/// that is neither null nor invalid has been recorded and the screen buffer
/// query has been answered with a failure. The font resolver never ends with
/// it.
pub proof fn buffer_failure_needs_handle(seen: Observed)
    ensures
        terminal_step(seen) == Step::<TerminalSize>::Done(Err(TerminalError::NoScreenBufferInfo))
            <==> seen.has_handle() && seen.screen_buffer is Some && !seen.has_screen_buffer(),
        font_step(seen) != Step::<FontSize>::Done(Err(TerminalError::NoScreenBufferInfo)),
{
}

/// A resolver asks only for what has not been answered, so each answer that
/// is recorded brings it nearer to its result. The screen buffer it asks for
/// is the one behind the handle that was recorded, which is then neither null
/// nor invalid.
pub proof fn asks_only_the_unanswered(seen: Observed)
    ensures
        font_step(seen) matches Step::Ask(query) ==> seen.lacks(query),
        terminal_step(seen) matches Step::Ask(query) ==> seen.lacks(query),
        terminal_step(seen) matches Step::Ask(ConsoleQuery::ScreenBufferInfo { handle }) ==> {
            &&& seen.std_handle == Some(handle)
            &&& !is_no_handle(handle)
        },
{
}

} // verus!
