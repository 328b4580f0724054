//! Log records for the instrumentation entry points: the default completion
//! line, rendered here, and caller-supplied templates, handed to the sink
//! with the elapsed duration bound to their placeholder.

use vstd::prelude::*;
use vstd::string::StringExecFns;

verus! {

/// The decimal digit character for `d`.
pub open spec fn spec_digit_char(d: nat) -> char {
    if d == 0 {
        '0'
    } else if d == 1 {
        '1'
    } else if d == 2 {
        '2'
    } else if d == 3 {
        '3'
    } else if d == 4 {
        '4'
    } else if d == 5 {
        '5'
    } else if d == 6 {
        '6'
    } else if d == 7 {
        '7'
    } else if d == 8 {
        '8'
    } else {
        '9'
    }
}

/// The decimal rendering of `n`, most significant digit first, with no
/// leading zero except for `n == 0` itself.
pub open spec fn spec_dec_digits(n: nat) -> Seq<char>
    decreases n,
{
    if n < 10 {
        seq![spec_digit_char(n)]
    } else {
        spec_dec_digits(n / 10) + seq![spec_digit_char(n % 10)]
    }
}

fn digit_str(d: u64) -> (r: &'static str)
    requires
        d < 10,
    ensures
        r@ == seq![spec_digit_char(d as nat)],
{
    proof {
        reveal_strlit("0");
        reveal_strlit("1");
        reveal_strlit("2");
        reveal_strlit("3");
        reveal_strlit("4");
        reveal_strlit("5");
        reveal_strlit("6");
        reveal_strlit("7");
        reveal_strlit("8");
        reveal_strlit("9");
    }
    let r = match d {
        0 => "0",
        1 => "1",
        2 => "2",
        3 => "3",
        4 => "4",
        5 => "5",
        6 => "6",
        7 => "7",
        8 => "8",
        _ => "9",
    };
    proof {
        assert(r@ =~= seq![spec_digit_char(d as nat)]);
    }
    r
}

fn append_dec(out: &mut String, n: u64)
    ensures
        final(out)@ == old(out)@ + spec_dec_digits(n as nat),
    decreases n,
{
    if n >= 10 {
        append_dec(out, n / 10);
    }
    out.append(digit_str(n % 10));
    proof {
        assert(final(out)@ =~= old(out)@ + spec_dec_digits(n as nat));
    }
}

/// The default completion line: `<file>:<line> completed in <elapsed>ns`,
/// with the call-site location and the elapsed time in decimal nanoseconds.
pub open spec fn spec_default_message(file: Seq<char>, line: nat, elapsed_ns: nat) -> Seq<char> {
    file + ":"@ + spec_dec_digits(line) + " completed in "@ + spec_dec_digits(elapsed_ns) + "ns"@
}

/// Render the default completion line for a computation reported at `file`
/// and `line` that took `elapsed_ns` nanoseconds.
pub fn default_message(file: &str, line: u64, elapsed_ns: u64) -> (r: String)
    ensures
        r@ == spec_default_message(file@, line as nat, elapsed_ns as nat),
{
    let mut out = file.to_owned();
    out.append(":");
    append_dec(&mut out, line);
    out.append(" completed in ");
    append_dec(&mut out, elapsed_ns);
    out.append("ns");
    proof {
        assert(out@ =~= spec_default_message(file@, line as nat, elapsed_ns as nat));
    }
    out
}

/// The severity the external log sink is handed; this library only ever
/// emits debug-level records.
#[derive(Clone, Copy, Debug, PartialEq, Eq, Structural)]
pub enum LogLevel {
    Debug,
}

/// What a record carries to the sink: a fully rendered line, or a
/// caller-supplied message template with the elapsed duration bound to the
/// `elapsed` placeholder it names (the sink expands the template; that
/// expansion is outside this library).
#[derive(Debug)]
pub enum LogPayload {
    Line { message: String },
    Template { template: String, elapsed_ns: u64 },
}

/// One leveled record for the external log sink.
#[derive(Debug)]
pub struct LogRecord {
    pub level: LogLevel,
    pub payload: LogPayload,
}

/// How an entry point was asked to report a completion: the default line
/// with the call-site location, or a caller-supplied template.
#[derive(Debug)]
pub enum LogFormat {
    Default { file: String, line: u64 },
    Custom { template: String },
}

/// What the one record emitted for a completion must hold, given the format
/// the entry point was asked for and the measured elapsed time.
pub open spec fn record_matches(r: LogRecord, f: LogFormat, elapsed_ns: u64) -> bool {
    &&& r.level == LogLevel::Debug
    &&& match f {
        LogFormat::Default { file, line } => r.payload matches LogPayload::Line { message }
            && message@ == spec_default_message(file@, line as nat, elapsed_ns as nat),
        LogFormat::Custom { template } => r.payload matches LogPayload::Template {
            template: t,
            elapsed_ns: e,
        } && t@ == template@ && e == elapsed_ns,
    }
}

/// Build the one debug-level record that reports a completion: the rendered
/// default line, or the caller's template with the elapsed time bound to it.
pub fn render_record(format: &LogFormat, elapsed_ns: u64) -> (r: LogRecord)
    ensures
        record_matches(r, *format, elapsed_ns),
{
    match format {
        LogFormat::Default { file, line } => LogRecord {
            level: LogLevel::Debug,
            payload: LogPayload::Line {
                message: default_message(file.as_str(), *line, elapsed_ns),
            },
        },
        LogFormat::Custom { template } => LogRecord {
            level: LogLevel::Debug,
            payload: LogPayload::Template { template: template.clone(), elapsed_ns },
        },
    }
}

} // verus!
