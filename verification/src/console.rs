//! The questions a resolver puts to the console host, the host's answers, and
//! the record of what has been answered so far.

use crate::size::CellGrid;
use vstd::prelude::*;

verus! {

/// One question to the console host. Each stands for one query of the
/// operating system, which the caller performs.
#[derive(Debug, Clone, Copy, PartialEq, Eq, Structural)]
pub enum ConsoleQuery {
    /// Which handle is the process's standard output?
    StdOutputHandle,
    /// How large is the screen buffer behind `handle`?
    ScreenBufferInfo { handle: isize },
    /// What is the DPI of the console's window?
    WindowDpi,
}

/// The host's answer to one query, as the operating system gave it.
#[derive(Debug, Clone, Copy, PartialEq, Eq, Structural)]
pub enum ConsoleReply {
    /// The standard output handle as an address. Zero is the null handle,
    /// minus one the invalid handle that a failed query returns.
    StdOutputHandle { handle: isize },
    /// The status that the screen buffer query returned, zero for failure,
    /// and the buffer size it wrote.
    ScreenBufferInfo { status: i32, size: CellGrid },
    /// The DPI of the console's window.
    WindowDpi { dpi: u32 },
}

/// What the screen buffer query returned.
#[derive(Debug, Clone, Copy, PartialEq, Eq, Structural)]
pub struct ScreenBuffer {
    /// Zero when the query failed.
    pub status: i32,
    /// The size of the buffer in cells; meaningful when `status` is not zero.
    pub size: CellGrid,
}

/// The answers received so far. A field is `None` until its query was answered.
#[derive(Debug, Clone, Copy, PartialEq, Eq, Structural)]
pub struct Observed {
    pub std_handle: Option<isize>,
    pub screen_buffer: Option<ScreenBuffer>,
    pub window_dpi: Option<u32>,
}

/// Whether `handle` is no handle at all: the null handle, which a process
/// without standard output gets, or the invalid handle, which the operating
/// system returns when the query for the handle itself fails.
pub open spec fn is_no_handle(handle: isize) -> bool {
    handle == 0 || handle == -1
}

impl Observed {
    /// The record in which no query has been answered.
    pub open spec fn blank() -> Observed {
        Observed { std_handle: None, screen_buffer: None, window_dpi: None }
    }

    /// The record once `reply` has arrived: the field that `reply` answers
    /// holds it, the other two are unchanged.
    pub open spec fn after(self, reply: ConsoleReply) -> Observed {
        match reply {
            ConsoleReply::StdOutputHandle { handle } => Observed {
                std_handle: Some(handle),
                ..self
            },
            ConsoleReply::ScreenBufferInfo { status, size } => Observed {
                screen_buffer: Some(ScreenBuffer { status, size }),
                ..self
            },
            ConsoleReply::WindowDpi { dpi } => Observed { window_dpi: Some(dpi), ..self },
        }
    }

    /// Whether a standard output handle was received and is neither null
    /// nor invalid.
    pub open spec fn has_handle(self) -> bool {
        self.std_handle matches Some(handle) && handle != 0 && handle != -1
    }

    /// Whether the screen buffer query was answered and did not fail.
    pub open spec fn has_screen_buffer(self) -> bool {
        self.screen_buffer matches Some(buffer) && buffer.status != 0
    }

    /// Whether `query` has not been answered yet.
    pub open spec fn lacks(self, query: ConsoleQuery) -> bool {
        match query {
            ConsoleQuery::StdOutputHandle => self.std_handle is None,
            ConsoleQuery::ScreenBufferInfo { .. } => self.screen_buffer is None,
            ConsoleQuery::WindowDpi => self.window_dpi is None,
        }
    }

    /// Starts a resolution: nothing is known yet.
    pub fn new() -> (seen: Observed)
        ensures
            seen == Observed::blank(),
    {
        Observed { std_handle: None, screen_buffer: None, window_dpi: None }
    }

    /// Files `reply` under the query it answers. A later answer to the same
    /// query replaces the earlier one.
    pub fn record(self, reply: ConsoleReply) -> (seen: Observed)
        ensures
            seen == self.after(reply),
    {
        let mut seen = self;
        match reply {
            ConsoleReply::StdOutputHandle { handle } => {
                seen.std_handle = Some(handle);
            },
            ConsoleReply::ScreenBufferInfo { status, size } => {
                seen.screen_buffer = Some(ScreenBuffer { status, size });
            },
            ConsoleReply::WindowDpi { dpi } => {
                seen.window_dpi = Some(dpi);
            },
        }
        seen
    }
}

/// A console host reduced to what it answers: the model against which the
/// resolvers are judged. No executable code holds one.
pub struct Console {
    pub std_handle: isize,
    pub buffer_status: i32,
    pub buffer_size: CellGrid,
    pub window_dpi: u32,
}

impl Console {
    /// The host's answer to `query`.
    pub open spec fn answer(self, query: ConsoleQuery) -> ConsoleReply {
        match query {
            ConsoleQuery::StdOutputHandle => ConsoleReply::StdOutputHandle {
                handle: self.std_handle,
            },
            ConsoleQuery::ScreenBufferInfo { .. } => ConsoleReply::ScreenBufferInfo {
                status: self.buffer_status,
                size: self.buffer_size,
            },
            ConsoleQuery::WindowDpi => ConsoleReply::WindowDpi { dpi: self.window_dpi },
        }
    }
}

} // verus!
