//! Extracting raw frames from a source: the pull-based frame sequence.
//!
//! The transcoder decodes the source into a raw fixed-format stream on its
//! output pipe. The sequence here is finite and non-restartable: each pull
//! reads exactly one frame's worth of bytes and yields an independent copy;
//! a clean end of the stream — no bytes at all, or the peer closing
//! mid-frame — ends the sequence for good, while any other I/O fault is
//! reported immediately.

use vstd::prelude::*;

use crate::bridge::{Arg, TaskContext};
use crate::errors::ApiError;
use crate::probe::Probe;

verus! {

/// What one blocking read of the output pipe came to, as the host layer
/// reports it: a full frame, a clean end of the stream, or some other I/O
/// fault with its OS error text.
pub enum ReadOutcome {
    Frame(Vec<u8>),
    EndOfStream,
    Fault(String),
}

/// One pull of the sequence as the host observes it: an item, the
/// deterministic end, or a fatal fault that aborts iteration.
#[derive(Clone, Debug, PartialEq, Eq)]
pub enum Pull {
    Item(Vec<u8>),
    Done,
    Fatal(String),
}

/// The height that sizes a frame: an absent height counts as zero rows.
pub open spec fn height_or_zero(h: Option<u64>) -> int {
    match h {
        Some(v) => v as int,
        None => 0,
    }
}

/// One frame's byte size for a probed source: four bytes per pixel.
pub open spec fn probed_frame_bytes(p: Probe) -> int {
    p.width * height_or_zero(p.height) * 4
}

/// The state of one frame sequence: the fixed frame size and whether the
/// end of the stream has been observed. The pipe itself lives with the host
/// layer; every decision about a pull is made here.
#[derive(Debug, PartialEq, Eq)]
pub struct Extract {
    frame_size: usize,
    exhausted: bool,
}

impl Extract {
    /// One frame's byte size.
    pub closed spec fn spec_frame_size(&self) -> usize {
        self.frame_size
    }

    /// Whether the end of the stream has been observed.
    pub closed spec fn spec_exhausted(&self) -> bool {
        self.exhausted
    }

    /// Build the sequence state for a probed source. Fails only when one
    /// frame's byte size does not fit in the address space.
    pub fn new(p: &Probe) -> (r: Result<Extract, ApiError>)
        ensures
            probed_frame_bytes(*p) <= usize::MAX ==> (r matches Ok(e) && e.spec_frame_size()
                == probed_frame_bytes(*p) && !e.spec_exhausted()),
            probed_frame_bytes(*p) > usize::MAX ==> r == Err::<Extract, ApiError>(
                ApiError::FrameTooLarge,
            ),
    {
        let h: u64 = match p.height {
            Some(v) => v,
            None => 0,
        };
        let pixels = match p.width.checked_mul(h) {
            Some(v) => v,
            None => {
                return Err(ApiError::FrameTooLarge);
            },
        };
        let bytes = match pixels.checked_mul(4) {
            Some(v) => v,
            None => {
                return Err(ApiError::FrameTooLarge);
            },
        };
        if bytes > usize::MAX as u64 {
            return Err(ApiError::FrameTooLarge);
        }
        Ok(Extract { frame_size: bytes as usize, exhausted: false })
    }

    /// One frame's byte size, for sizing the host's reusable read buffer.
    pub fn frame_size(&self) -> (r: usize)
        ensures
            r == self.spec_frame_size(),
    {
        self.frame_size
    }

    /// Whether a further read of the pipe is called for at all: once the end
    /// of the stream has been observed, pulls answer without reading.
    pub fn needs_read(&self) -> (r: bool)
        ensures
            r == !self.spec_exhausted(),
    {
        !self.exhausted
    }

    /// One pull of the sequence, fed with what the read came to. An
    /// exhausted sequence stays exhausted and yields the end deterministically,
    /// whatever is fed in; a clean end of the stream exhausts the sequence;
    /// a frame passes through as the item; any other fault is fatal for
    /// that pull but does not end the sequence.
    pub fn next_frame(&mut self, read: ReadOutcome) -> (r: Pull)
        requires
            read matches ReadOutcome::Frame(b) ==> b@.len() == old(self).spec_frame_size(),
        ensures
            final(self).spec_frame_size() == old(self).spec_frame_size(),
            old(self).spec_exhausted() ==> (r is Done && final(self).spec_exhausted()),
            !old(self).spec_exhausted() ==> match read {
                ReadOutcome::Frame(b) => r == Pull::Item(b) && !final(self).spec_exhausted(),
                ReadOutcome::EndOfStream => r is Done && final(self).spec_exhausted(),
                ReadOutcome::Fault(m) => r == Pull::Fatal(m) && !final(self).spec_exhausted(),
            },
            r matches Pull::Item(b) ==> b@.len() == old(self).spec_frame_size(),
    {
        if self.exhausted {
            return Pull::Done;
        }
        match read {
            ReadOutcome::Frame(b) => Pull::Item(b),
            ReadOutcome::EndOfStream => {
                self.exhausted = true;
                Pull::Done
            },
            ReadOutcome::Fault(m) => Pull::Fatal(m),
        }
    }
}

/// Once the end of the stream has been observed, every later pull yields
/// the end, deterministically, and the sequence never leaves that state:
/// there is nothing a read outcome could feed in to revive it.
pub proof fn lemma_exhausted_is_final(e: Extract)
    requires
        e.spec_exhausted(),
    ensures
        forall|read: ReadOutcome| #[trigger] pull_spec(e, read) == (e, Pull::Done),
{
}

/// The pull transition as a whole, for stating laws: the state a pull
/// leaves behind and what it yields.
pub closed spec fn pull_spec(e: Extract, read: ReadOutcome) -> (Extract, Pull) {
    if e.exhausted {
        (e, Pull::Done)
    } else {
        match read {
            ReadOutcome::Frame(b) => (e, Pull::Item(b)),
            ReadOutcome::EndOfStream => (Extract { exhausted: true, ..e }, Pull::Done),
            ReadOutcome::Fault(m) => (e, Pull::Fatal(m)),
        }
    }
}

/// A clean end of the stream ends the sequence for good: after it, any two
/// later pulls — whatever their reads — both yield the end.
pub proof fn lemma_end_is_deterministic(e: Extract, r1: ReadOutcome, r2: ReadOutcome)
    requires
        !e.spec_exhausted(),
    ensures
        pull_spec(e, ReadOutcome::EndOfStream).1 == Pull::Done,
        pull_spec(pull_spec(e, ReadOutcome::EndOfStream).0, r1) == (
            pull_spec(e, ReadOutcome::EndOfStream).0,
            Pull::Done,
        ),
        pull_spec(pull_spec(pull_spec(e, ReadOutcome::EndOfStream).0, r1).0, r2).1 == Pull::Done,
{
}

/// How many full frames a finite raw stream of a given length yields: each
/// pull reads exactly one frame's worth of bytes, and the remainder — the
/// peer closing mid-frame — is the clean end of the sequence, not an item.
pub open spec fn frames_yielded(remaining: nat, fs: nat) -> nat
    decreases remaining,
{
    if fs == 0 {
        0
    } else if remaining < fs {
        0
    } else {
        (1 + frames_yielded((remaining - fs) as nat, fs)) as nat
    }
}

/// Iterating a source whose decoded stream holds `n` bytes yields exactly
/// `n / fs` full frames of `fs` bytes each before the clean end — never
/// more frames than whole frames fit in the stream.
pub proof fn lemma_stream_frame_count(n: nat, fs: nat)
    requires
        fs > 0,
    ensures
        frames_yielded(n, fs) == n as int / fs as int,
    decreases n,
{
    if n < fs {
        vstd::arithmetic::div_mod::lemma_basic_div(n as int, fs as int);
    } else {
        lemma_stream_frame_count((n - fs) as nat, fs);
        vstd::arithmetic::div_mod::lemma_div_plus_one((n - fs) as int, fs as int);
    }
}

/// Validate the call's single probe argument and queue a task for it.
/// Invalid arguments are rejected here, before any work is scheduled.
pub fn extract_promise(arg: Arg<Probe>) -> (r: Result<TaskContext<Probe, Extract>, ApiError>)
    ensures
        arg is Missing ==> r == Err::<TaskContext<Probe, Extract>, ApiError>(
            ApiError::MissingArgument,
        ),
        arg is WrongType ==> r == Err::<TaskContext<Probe, Extract>, ApiError>(
            ApiError::ExpectedProbe,
        ),
        arg matches Arg::Value(p) ==> (r matches Ok(ctx) && ctx.queued() && ctx.spec_input()
            == Some(p) && ctx.spec_result() == Err::<Extract, ApiError>(ApiError::Pending)),
{
    match arg {
        Arg::Missing => Err(ApiError::MissingArgument),
        Arg::WrongType => Err(ApiError::ExpectedProbe),
        Arg::Value(p) => Ok(TaskContext::new(p)),
    }
}

/// The extract worker step: takes the probe out of the context and stores
/// the outcome of the spawn, exactly once. `spawned` is how starting the
/// transcoder went — the bundled path first, then the search path, where
/// `Err` carries the OS error text after both failed.
pub fn extract_execute(ctx: &mut TaskContext<Probe, Extract>, spawned: Result<(), String>)
    requires
        old(ctx).queued(),
        old(ctx).spec_input() is Some,
    ensures
        final(ctx).finished(),
        final(ctx).spec_input() is None,
        spawned matches Err(m) ==> final(ctx).spec_result() == Err::<Extract, ApiError>(
            ApiError::SpawnFailed(m),
        ),
        spawned is Ok ==> ({
            let p = old(ctx).spec_input().unwrap();
            if probed_frame_bytes(p) <= usize::MAX {
                final(ctx).spec_result() matches Ok(e) && e.spec_frame_size()
                    == probed_frame_bytes(p) && !e.spec_exhausted()
            } else {
                final(ctx).spec_result() == Err::<Extract, ApiError>(ApiError::FrameTooLarge)
            }
        }),
{
    let p = ctx.take_input();
    let outcome = match spawned {
        Ok(()) => Extract::new(&p),
        Err(m) => Err(ApiError::SpawnFailed(m)),
    };
    ctx.store_result(outcome);
}

} // verus!
