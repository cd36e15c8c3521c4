use vstd::prelude::*;

use crate::level::Level;

verus! {

/// Upper-case label of a level in a rendered line.
pub open spec fn label_of(level: Level) -> Seq<char> {
    match level {
        Level::Trace => seq!['T', 'R', 'A', 'C', 'E'],
        Level::Debug => seq!['D', 'E', 'B', 'U', 'G'],
        Level::Info => seq!['I', 'N', 'F', 'O'],
        Level::Warn => seq!['W', 'A', 'R', 'N'],
        Level::Error => seq!['E', 'R', 'R', 'O', 'R'],
        Level::Critical => seq!['C', 'R', 'I', 'T'],
    }
}

/// Width of the label column.
pub const LABEL_WIDTH: usize = 5;

pub open spec fn spaces(n: nat) -> Seq<char> {
    Seq::new(n, |i: int| ' ')
}

/// The label, padded on the left with spaces to the column width.
pub open spec fn padded_label(level: Level) -> Seq<char> {
    spaces((LABEL_WIDTH - label_of(level).len()) as nat) + label_of(level)
}

/// One rendered line: `<timestamp> <LABEL> [<context>]: <message>`.
pub open spec fn event_line(
    timestamp: Seq<char>,
    level: Level,
    context: Seq<char>,
    message: Seq<char>,
) -> Seq<char> {
    timestamp + seq![' '] + padded_label(level) + seq![' ', '['] + context + seq![']', ':', ' ']
        + message
}

/// Seconds from the Unix epoch to the year 10000.
pub const YEAR_10000: i64 = 253_402_300_800;

/// The UTC time of a Unix timestamp (seconds and nanoseconds), written
/// `YYYY-MM-DD HH:MM:SS.mmmZ`.
pub uninterp spec fn timestamp_text(secs: int, nanos: int) -> Seq<char>;

/// Relies on chrono's `DateTime::from_timestamp` and `DateTime::format`: the
/// timestamp as UTC text, given for every time from 1970 to the year 10000
/// with nanoseconds under one second.
#[verifier::external_body]
fn utc_timestamp(secs: i64, nanos: u32) -> (r: Option<String>)
    ensures
        r matches Some(t) ==> t@ == timestamp_text(secs as int, nanos as int),
        0 <= secs < YEAR_10000 && nanos < 1_000_000_000 ==> r is Some,
{
    match chrono::DateTime::from_timestamp(secs, nanos) {
        Some(t) => Some(t.format("%Y-%m-%d %H:%M:%S.%3fZ").to_string()),
        None => None,
    }
}

impl Level {
    /// The upper-case label of this level in a rendered line.
    pub fn label(self) -> (r: &'static str)
        ensures
            r@ == label_of(self),
    {
        match self {
            Level::Trace => {
                proof {
                    reveal_strlit("TRACE");
                }
                "TRACE"
            },
            Level::Debug => {
                proof {
                    reveal_strlit("DEBUG");
                }
                "DEBUG"
            },
            Level::Info => {
                proof {
                    reveal_strlit("INFO");
                }
                "INFO"
            },
            Level::Warn => {
                proof {
                    reveal_strlit("WARN");
                }
                "WARN"
            },
            Level::Error => {
                proof {
                    reveal_strlit("ERROR");
                }
                "ERROR"
            },
            Level::Critical => {
                proof {
                    reveal_strlit("CRIT");
                }
                "CRIT"
            },
        }
    }
}

/// Renders one accepted event as a line of text, after a timestamp already
/// written out.
pub fn render_line(timestamp: &str, level: Level, context: &str, message: &str) -> (r: String)
    ensures
        r@ == event_line(timestamp@, level, context@, message@),
{
    proof {
        reveal_strlit(" ");
        reveal_strlit(" [");
        reveal_strlit("]: ");
    }
    let mut line = timestamp.to_owned();
    line.append(" ");
    let label = level.label();
    let ghost head = line@;
    let mut width = label.unicode_len();
    while width < LABEL_WIDTH
        invariant
            width <= LABEL_WIDTH,
            label@.len() <= width,
            line@ == head + spaces((width - label@.len()) as nat),
        decreases LABEL_WIDTH - width,
    {
        proof {
            reveal_strlit(" ");
        }
        line.append(" ");
        width = width + 1;
        assert(line@ =~= head + spaces((width - label@.len()) as nat));
    }
    line.append(label);
    line.append(" [");
    line.append(context);
    line.append("]: ");
    line.append(message);
    assert(line@ =~= event_line(timestamp@, level, context@, message@));
    line
}

/// Renders an event at a wall-clock reading (seconds and nanoseconds since the
/// Unix epoch, from 1970 up to the year 10000), with the time cut to
/// milliseconds.
pub fn render_event(secs: i64, nanos: u32, level: Level, context: &str, message: &str) -> (r:
    String)
    requires
        0 <= secs < YEAR_10000,
        nanos < 1_000_000_000,
    ensures
        r@ == event_line(timestamp_text(secs as int, nanos as int), level, context@, message@),
{
    match utc_timestamp(secs, nanos) {
        Some(timestamp) => render_line(timestamp.as_str(), level, context, message),
        None => {
            proof {
                assert(false);
            }
            String::new()
        },
    }
}

} // verus!
