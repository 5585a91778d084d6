//! Probing a media source: the report parser and the probe result.
//!
//! The probing tool is asked for a compact textual report of the first
//! stream's width, height and frame rate (`width,height,dividend/divisor`).
//! The parser here is a single pass over the response bytes up to the first
//! line terminator: a separator byte (`,` or `/`) activates the next field in
//! order, a digit accumulates into the most recently activated field, and
//! every field that was never activated stays absent.

use vstd::prelude::*;

use crate::bridge::{Arg, TaskContext};
use crate::errors::ApiError;

verus! {

/// The four fields scanned out of a probe report line.
///
/// `width` is live from the start and begins at zero; the three later fields
/// begin absent (`None`) and are activated, starting at a fresh zero
/// accumulator, by the separator that precedes them. An absent frame-rate
/// field makes the final rate non-finite on the host side; it is surfaced
/// as-is, not turned into a parse error.
#[derive(Clone, Copy, Debug, PartialEq, Eq)]
pub struct ProbeFields {
    pub width: u64,
    pub height: Option<u64>,
    pub fps_dividend: Option<u64>,
    pub fps_divisor: Option<u64>,
}

/// A scanned probe result: the source identifier together with the parsed
/// report fields. Immutable once computed.
#[derive(Clone, Debug, PartialEq, Eq)]
pub struct Probe {
    pub src: String,
    pub width: u64,
    pub height: Option<u64>,
    pub fps_dividend: Option<u64>,
    pub fps_divisor: Option<u64>,
}

/// Scanning stops at the first carriage return or line feed: only the first
/// reported stream's line is consulted.
pub open spec fn is_line_end(b: u8) -> bool {
    b == 10 || b == 13
}

/// `,` and `/` both advance scanning to the next field.
pub open spec fn is_field_sep(b: u8) -> bool {
    b == 44 || b == 47
}

pub open spec fn is_digit(b: u8) -> bool {
    48 <= b && b <= 57
}

pub open spec fn digit_value(b: u8) -> u64 {
    (b - 48) as u64
}

/// One digit appended to a decimal accumulator, capped at the accumulator's
/// range instead of wrapping.
pub open spec fn sat_append_digit(acc: u64, d: u64) -> u64 {
    if acc * 10 + d <= u64::MAX {
        (acc * 10 + d) as u64
    } else {
        u64::MAX
    }
}

pub open spec fn initial_fields() -> ProbeFields {
    ProbeFields { width: 0, height: None, fps_dividend: None, fps_divisor: None }
}

/// A separator activates the first still-absent field, in field order; once
/// all four fields are active further separators change nothing.
pub open spec fn advance_field(s: ProbeFields) -> ProbeFields {
    if s.height is None {
        ProbeFields { width: s.width, height: Some(0), fps_dividend: None, fps_divisor: None }
    } else if s.fps_dividend is None {
        ProbeFields {
            width: s.width,
            height: s.height,
            fps_dividend: Some(0),
            fps_divisor: None,
        }
    } else if s.fps_divisor is None {
        ProbeFields {
            width: s.width,
            height: s.height,
            fps_dividend: s.fps_dividend,
            fps_divisor: Some(0),
        }
    } else {
        s
    }
}

/// A digit accumulates into the most recently activated field.
pub open spec fn append_digit(s: ProbeFields, d: u64) -> ProbeFields {
    match s.fps_divisor {
        Some(v) => ProbeFields {
            width: s.width,
            height: s.height,
            fps_dividend: s.fps_dividend,
            fps_divisor: Some(sat_append_digit(v, d)),
        },
        None => match s.fps_dividend {
            Some(v) => ProbeFields {
                width: s.width,
                height: s.height,
                fps_dividend: Some(sat_append_digit(v, d)),
                fps_divisor: None,
            },
            None => match s.height {
                Some(v) => ProbeFields {
                    width: s.width,
                    height: Some(sat_append_digit(v, d)),
                    fps_dividend: None,
                    fps_divisor: None,
                },
                None => ProbeFields {
                    width: sat_append_digit(s.width, d),
                    height: None,
                    fps_dividend: None,
                    fps_divisor: None,
                },
            },
        },
    }
}

/// One non-terminator byte applied to the scanner state. Bytes that are
/// neither separators nor digits leave the state unchanged.
pub open spec fn scan_step(s: ProbeFields, b: u8) -> ProbeFields {
    if is_field_sep(b) {
        advance_field(s)
    } else if is_digit(b) {
        append_digit(s, digit_value(b))
    } else {
        s
    }
}

/// The scanner run left to right from state `s`, stopping at the first line
/// terminator.
pub open spec fn scan_from(s: ProbeFields, bytes: Seq<u8>) -> ProbeFields
    decreases bytes.len(),
{
    if bytes.len() == 0 {
        s
    } else if is_line_end(bytes[0]) {
        s
    } else {
        scan_from(scan_step(s, bytes[0]), bytes.drop_first())
    }
}

/// What the parser yields for a whole report.
pub open spec fn parse_report_spec(bytes: Seq<u8>) -> ProbeFields {
    scan_from(initial_fields(), bytes)
}

/// The probe result assembled from a source identifier and the parsed report.
pub open spec fn probe_of(src: String, bytes: Seq<u8>) -> Probe {
    let f = parse_report_spec(bytes);
    Probe {
        src: src,
        width: f.width,
        height: f.height,
        fps_dividend: f.fps_dividend,
        fps_divisor: f.fps_divisor,
    }
}

fn sat_append_digit_exec(acc: u64, d: u64) -> (r: u64)
    ensures
        r == sat_append_digit(acc, d),
{
    match acc.checked_mul(10) {
        Some(m) => match m.checked_add(d) {
            Some(v) => v,
            None => u64::MAX,
        },
        None => u64::MAX,
    }
}

fn scan_step_exec(s: ProbeFields, b: u8) -> (r: ProbeFields)
    ensures
        r == scan_step(s, b),
{
    if b == 44 || b == 47 {
        if s.height.is_none() {
            ProbeFields { width: s.width, height: Some(0), fps_dividend: None, fps_divisor: None }
        } else if s.fps_dividend.is_none() {
            ProbeFields {
                width: s.width,
                height: s.height,
                fps_dividend: Some(0),
                fps_divisor: None,
            }
        } else if s.fps_divisor.is_none() {
            ProbeFields {
                width: s.width,
                height: s.height,
                fps_dividend: s.fps_dividend,
                fps_divisor: Some(0),
            }
        } else {
            s
        }
    } else if 48 <= b && b <= 57 {
        let d: u64 = (b - 48) as u64;
        match s.fps_divisor {
            Some(v) => ProbeFields {
                width: s.width,
                height: s.height,
                fps_dividend: s.fps_dividend,
                fps_divisor: Some(sat_append_digit_exec(v, d)),
            },
            None => match s.fps_dividend {
                Some(v) => ProbeFields {
                    width: s.width,
                    height: s.height,
                    fps_dividend: Some(sat_append_digit_exec(v, d)),
                    fps_divisor: None,
                },
                None => match s.height {
                    Some(v) => ProbeFields {
                        width: s.width,
                        height: Some(sat_append_digit_exec(v, d)),
                        fps_dividend: None,
                        fps_divisor: None,
                    },
                    None => ProbeFields {
                        width: sat_append_digit_exec(s.width, d),
                        height: None,
                        fps_dividend: None,
                        fps_divisor: None,
                    },
                },
            },
        }
    } else {
        s
    }
}

/// Single pass over the report bytes, stopping at the first line terminator.
pub fn parse_report(bytes: &Vec<u8>) -> (r: ProbeFields)
    ensures
        r == parse_report_spec(bytes@),
{
    let mut state = ProbeFields { width: 0, height: None, fps_dividend: None, fps_divisor: None };
    let n: usize = bytes.len();
    let mut i: usize = 0;
    proof {
        assert(bytes@.skip(0) =~= bytes@);
    }
    while i < n
        invariant
            i <= n,
            n == bytes@.len(),
            parse_report_spec(bytes@) == scan_from(state, bytes@.skip(i as int)),
        decreases n - i,
    {
        let b = bytes[i];
        if b == 13 || b == 10 {
            return state;
        }
        proof {
            assert(bytes@.skip(i as int).drop_first() =~= bytes@.skip(i as int + 1));
        }
        state = scan_step_exec(state, b);
        i = i + 1;
    }
    proof {
        assert(bytes@.skip(n as int) =~= Seq::<u8>::empty());
    }
    state
}

/// The compute half of the probe worker step: classify the tool's captured
/// output. Empty output means the source could not be found; anything else is
/// scanned into a probe result.
pub fn probe_from_output(src: String, output: &Vec<u8>) -> (r: Result<Probe, ApiError>)
    ensures
        output@.len() == 0 ==> r == Err::<Probe, ApiError>(ApiError::SourceNotFound),
        output@.len() > 0 ==> r == Ok::<Probe, ApiError>(probe_of(src, output@)),
{
    if output.len() == 0 {
        return Err(ApiError::SourceNotFound);
    }
    let f = parse_report(output);
    Ok(Probe {
        src: src,
        width: f.width,
        height: f.height,
        fps_dividend: f.fps_dividend,
        fps_divisor: f.fps_divisor,
    })
}

/// What the probe worker step stores for each way the tool run can end.
pub open spec fn probe_outcome(src: String, spawned: Result<Vec<u8>, String>) -> Result<
    Probe,
    ApiError,
> {
    match spawned {
        Ok(out) => if out@.len() == 0 {
            Err(ApiError::SourceNotFound)
        } else {
            Ok(probe_of(src, out@))
        },
        Err(m) => Err(ApiError::ProbeFailed(m)),
    }
}

/// Validate the call's single string argument and queue a task for it.
/// Invalid arguments are rejected here, before any work is scheduled.
pub fn probe_promise(arg: Arg<String>) -> (r: Result<TaskContext<String, Probe>, ApiError>)
    ensures
        arg is Missing ==> r == Err::<TaskContext<String, Probe>, ApiError>(
            ApiError::MissingArgument,
        ),
        arg is WrongType ==> r == Err::<TaskContext<String, Probe>, ApiError>(
            ApiError::ExpectedString,
        ),
        arg matches Arg::Value(s) ==> (r matches Ok(ctx) && ctx.queued() && ctx.spec_input()
            == Some(s) && ctx.spec_result() == Err::<Probe, ApiError>(ApiError::Pending)),
{
    match arg {
        Arg::Missing => Err(ApiError::MissingArgument),
        Arg::WrongType => Err(ApiError::ExpectedString),
        Arg::Value(s) => Ok(TaskContext::new(s)),
    }
}

/// The probe worker step: takes the task's input out of the context and
/// stores the outcome of the tool run, exactly once.
pub fn probe_execute(ctx: &mut TaskContext<String, Probe>, spawned: Result<Vec<u8>, String>)
    requires
        old(ctx).queued(),
        old(ctx).spec_input() is Some,
    ensures
        final(ctx).finished(),
        final(ctx).spec_input() is None,
        final(ctx).spec_result() == probe_outcome(old(ctx).spec_input().unwrap(), spawned),
{
    let src = ctx.take_input();
    let outcome = match spawned {
        Ok(out) => probe_from_output(src, &out),
        Err(m) => Err(ApiError::ProbeFailed(m)),
    };
    ctx.store_result(outcome);
}

} // verus!
