//! The state of the connection and the status bar.

use vstd::prelude::*;

use crate::draw::{
    colored, drawn, just_line, line, plain, put, span, span_of, styled, text, text_op, Area, Color,
    Draw, SpanView,
};
use crate::text::{cat2, cat3, cat5, decimal, decimal_text};

verus! {

/// The state of the connection.
#[derive(Debug)]
pub enum ConnectionState {
    /// Not yet connected.
    Disconnected,
    /// Being established.
    Connecting { transport: String },
    /// Established.
    Connected { transport: String, latency_ms: Option<u32> },
    /// Lost, and to be restored.
    Reconnecting {
        attempt: u32,
        /// When the next attempt is made, in milliseconds on a clock that does not go back.
        next_retry_ms: u64,
        /// The time between two attempts.
        interval_ms: u64,
    },
}

/// The whole seconds from `now_ms` to `then_ms`, 0 where that has passed.
pub open spec fn seconds_until(then_ms: u64, now_ms: u64) -> nat {
    if then_ms > now_ms {
        ((then_ms - now_ms) / 1000) as nat
    } else {
        0
    }
}

/// The text for a state of the connection at time `now_ms`.
pub open spec fn connection_label(s: ConnectionState, now_ms: u64) -> Seq<char> {
    match s {
        ConnectionState::Disconnected => "✗ disconnected"@,
        ConnectionState::Connecting { transport } => "⠋ connecting ("@ + transport@ + ")…"@,
        ConnectionState::Connected { transport, latency_ms } => match latency_ms {
            Some(ms) => "● "@ + transport@ + "  "@ + decimal_text(ms as nat) + "ms"@,
            None => "● "@ + transport@,
        },
        ConnectionState::Reconnecting { attempt, next_retry_ms, .. } => {
            "↺ reconnecting (attempt "@ + decimal_text(attempt as nat) + ", retry in "@
                + decimal_text(seconds_until(next_retry_ms, now_ms)) + "s)"@
        },
    }
}

/// The colour for a state of the connection.
pub open spec fn connection_color(s: ConnectionState) -> Color {
    match s {
        ConnectionState::Connected { .. } => Color::Green,
        ConnectionState::Reconnecting { .. } => Color::Yellow,
        ConnectionState::Connecting { .. } => Color::Cyan,
        ConnectionState::Disconnected => Color::Red,
    }
}

impl Default for ConnectionState {
    fn default() -> (r: Self)
        ensures
            r == ConnectionState::Disconnected,
    {
        ConnectionState::Disconnected
    }
}

impl ConnectionState {
    /// A short text for the status bar.
    pub fn label(&self, now_ms: u64) -> (r: String)
        ensures
            r@ == connection_label(*self, now_ms),
    {
        match self {
            ConnectionState::Disconnected => "✗ disconnected".to_string(),
            ConnectionState::Connecting { transport } => cat3(
                "⠋ connecting (",
                transport.as_str(),
                ")…",
            ),
            ConnectionState::Connected { transport, latency_ms } => match latency_ms {
                Some(ms) => cat5(
                    "● ",
                    transport.as_str(),
                    "  ",
                    decimal(*ms as u64).as_str(),
                    "ms",
                ),
                None => cat2("● ", transport.as_str()),
            },
            ConnectionState::Reconnecting { attempt, next_retry_ms, .. } => {
                let left: u64 = if *next_retry_ms > now_ms {
                    (*next_retry_ms - now_ms) / 1000
                } else {
                    0
                };
                cat5(
                    "↺ reconnecting (attempt ",
                    decimal(*attempt as u64).as_str(),
                    ", retry in ",
                    decimal(left).as_str(),
                    "s)",
                )
            },
        }
    }

    /// The colour for the status bar.
    pub fn color(&self) -> (r: Color)
        ensures
            r == connection_color(*self),
    {
        match self {
            ConnectionState::Connected { .. } => Color::Green,
            ConnectionState::Reconnecting { .. } => Color::Yellow,
            ConnectionState::Connecting { .. } => Color::Cyan,
            ConnectionState::Disconnected => Color::Red,
        }
    }
}

/// The line at the bottom of the main view.
#[derive(Debug)]
pub struct StatusBar<'a> {
    pub connection: &'a ConnectionState,
    pub status_text: &'a str,
    pub unread_count: usize,
    pub pq_active: bool,
}

/// The row of the status bar: the connection, a mark for post-quantum mode, the number of unread
/// messages and the status.
pub open spec fn status_line(
    connection: ConnectionState,
    status_text: Seq<char>,
    unread_count: nat,
    pq_active: bool,
    now_ms: u64,
) -> Seq<SpanView> {
    let sep = styled(" │ "@, colored(Color::DarkGray));
    seq![
        styled(" "@, plain()),
        styled(connection_label(connection, now_ms), colored(connection_color(connection))),
        if pq_active {
            styled(" [PQ] "@, colored(Color::Magenta))
        } else {
            styled(""@, plain())
        },
        sep,
        if unread_count > 0 {
            styled(" "@ + decimal_text(unread_count) + " unread "@, colored(Color::Yellow))
        } else {
            styled(""@, plain())
        },
        sep,
        styled(status_text, colored(Color::DarkGray)),
    ]
}

impl<'a> StatusBar<'a> {
    /// Draws the status bar.
    pub fn render(&self, area: Area, now_ms: u64) -> (r: Vec<Draw>)
        ensures
            drawn(r@) == seq![
                text_op(
                    area,
                    seq![
                        status_line(
                            *self.connection,
                            self.status_text@,
                            self.unread_count as nat,
                            self.pq_active,
                            now_ms,
                        ),
                    ],
                    plain(),
                ),
            ],
    {
        let badge = if self.pq_active {
            span(" [PQ] ", colored(Color::Magenta))
        } else {
            span("", plain())
        };
        let unread = if self.unread_count > 0 {
            span_of(
                cat3(" ", decimal(self.unread_count as u64).as_str(), " unread "),
                colored(Color::Yellow),
            )
        } else {
            span("", plain())
        };
        let l = line(span(" ", plain())).with(
            span_of(self.connection.label(now_ms), colored(self.connection.color())),
        ).with(badge).with(span(" │ ", colored(Color::DarkGray))).with(unread).with(
            span(" │ ", colored(Color::DarkGray)),
        ).with(span(self.status_text, colored(Color::DarkGray)));
        assert(l@ == status_line(
            *self.connection,
            self.status_text@,
            self.unread_count as nat,
            self.pq_active,
            now_ms,
        ));
        let mut ops: Vec<Draw> = Vec::new();
        put(&mut ops, text(area, just_line(l), plain()));
        ops
    }
}

} // verus!
