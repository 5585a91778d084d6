//! Combining raw frames into an encoded animation: option validation and the
//! sink's write/finish state machine.
//!
//! The transcoder is started once per combine call, reading raw fixed-format
//! frames on its input pipe and producing the encoded animation on its
//! output pipe. The state machine here owns the derived sizing (one frame is
//! `width * height * 4` bytes) and the input pipe's open/closed state: a
//! write must carry exactly one frame and is refused once the sink has
//! finished, and a second finish is refused outright rather than silently
//! accepted.

use vstd::prelude::*;

use crate::bridge::{Arg, TaskContext};
use crate::errors::ApiError;

verus! {

/// How often the encoded animation repeats.
#[derive(Clone, Copy, Debug, PartialEq, Eq)]
pub enum Repeat {
    /// Loop forever; the default.
    Infinite,
    /// Play once.
    Once,
    /// Play exactly this many times.
    Exact(u16),
}

/// The repeat policy a given count stands for: zero loops forever, one plays
/// once, anything else plays exactly that many times.
pub open spec fn repeat_of(v: u32) -> Repeat {
    if v == 0 {
        Repeat::Infinite
    } else if v == 1 {
        Repeat::Once
    } else {
        Repeat::Exact(v as u16)
    }
}

impl Default for Repeat {
    /// An omitted repeat policy loops forever.
    fn default() -> (r: Self)
        ensures
            r == Repeat::Infinite,
    {
        Repeat::Infinite
    }
}

impl Repeat {
    /// Parse a repeat count. Counts beyond 16 bits are rejected, never
    /// silently truncated.
    pub fn from_count(v: u32) -> (r: Result<Repeat, ApiError>)
        ensures
            v <= u16::MAX ==> r == Ok::<Repeat, ApiError>(repeat_of(v)),
            v > u16::MAX ==> r == Err::<Repeat, ApiError>(
                ApiError::InvalidOptionFields { scale: false, repeat: true },
            ),
    {
        if v > 65535 {
            return Err(ApiError::InvalidOptionFields { scale: false, repeat: true });
        }
        if v == 0 {
            Ok(Repeat::Infinite)
        } else if v == 1 {
            Ok(Repeat::Once)
        } else {
            Ok(Repeat::Exact(v as u16))
        }
    }

    /// The numeric loop count handed to the transcoder and reported back to
    /// the host; the exact inverse of [`repeat_of`] on counts that fit.
    pub fn count(&self) -> (r: u16)
        ensures
            self is Infinite ==> r == 0,
            self is Once ==> r == 1,
            self matches Repeat::Exact(v) ==> r == v,
    {
        match self {
            Repeat::Infinite => 0,
            Repeat::Once => 1,
            Repeat::Exact(v) => *v,
        }
    }
}

/// The `scale` field as the host layer hands it over: omitted (or null), a
/// list of numbers whose length is still to be checked, or a value of some
/// other shape.
pub enum RawScale {
    Absent,
    List(Vec<u32>),
    Malformed,
}

/// The `repeat` field as the host layer hands it over.
pub enum RawRepeat {
    Absent,
    Count(u32),
    Malformed,
}

/// The combine options record before validation.
pub struct RawCombineOptions {
    pub width: u32,
    pub height: u32,
    pub scale: RawScale,
    pub repeat: RawRepeat,
}

/// The validated combine options.
#[derive(Clone, Copy, Debug, PartialEq, Eq)]
pub struct CombineOptions {
    pub width: u32,
    pub height: u32,
    /// Output dimensions; defaults to the input dimensions when omitted.
    pub scale: Option<(u32, u32)>,
    pub repeat: Repeat,
}

/// A `scale` field is valid when omitted or a list of exactly two numbers.
pub open spec fn scale_valid(s: RawScale) -> bool {
    match s {
        RawScale::Absent => true,
        RawScale::List(v) => v@.len() == 2,
        RawScale::Malformed => false,
    }
}

pub open spec fn scale_value(s: RawScale) -> Option<(u32, u32)>
    recommends
        scale_valid(s),
{
    match s {
        RawScale::List(v) => Some((v@[0], v@[1])),
        _ => None,
    }
}

/// A `repeat` field is valid when omitted or a count that fits in 16 bits.
pub open spec fn repeat_valid(r: RawRepeat) -> bool {
    match r {
        RawRepeat::Absent => true,
        RawRepeat::Count(v) => v <= u16::MAX,
        RawRepeat::Malformed => false,
    }
}

pub open spec fn repeat_value(r: RawRepeat) -> Repeat
    recommends
        repeat_valid(r),
{
    match r {
        RawRepeat::Count(v) => repeat_of(v),
        _ => Repeat::Infinite,
    }
}

/// What validation makes of a raw record.
pub open spec fn validated_options(raw: RawCombineOptions) -> Result<CombineOptions, ApiError> {
    if scale_valid(raw.scale) && repeat_valid(raw.repeat) {
        Ok(
            CombineOptions {
                width: raw.width,
                height: raw.height,
                scale: scale_value(raw.scale),
                repeat: repeat_value(raw.repeat),
            },
        )
    } else {
        Err(
            ApiError::InvalidOptionFields {
                scale: !scale_valid(raw.scale),
                repeat: !repeat_valid(raw.repeat),
            },
        )
    }
}

/// Validate each optional field independently; on failure the single
/// aggregated error names exactly the offending fields.
pub fn validate_options(raw: &RawCombineOptions) -> (r: Result<CombineOptions, ApiError>)
    ensures
        r == validated_options(*raw),
{
    let scale: Option<(u32, u32)> = match &raw.scale {
        RawScale::Absent => None,
        RawScale::List(v) => {
            if v.len() == 2 {
                Some((v[0], v[1]))
            } else {
                return Err(
                    ApiError::InvalidOptionFields {
                        scale: true,
                        repeat: !repeat_valid_exec(&raw.repeat),
                    },
                );
            }
        },
        RawScale::Malformed => {
            return Err(
                ApiError::InvalidOptionFields {
                    scale: true,
                    repeat: !repeat_valid_exec(&raw.repeat),
                },
            );
        },
    };
    let repeat: Repeat = match &raw.repeat {
        RawRepeat::Absent => Repeat::Infinite,
        RawRepeat::Count(v) => {
            if *v <= 65535 {
                if *v == 0 {
                    Repeat::Infinite
                } else if *v == 1 {
                    Repeat::Once
                } else {
                    Repeat::Exact(*v as u16)
                }
            } else {
                return Err(ApiError::InvalidOptionFields { scale: false, repeat: true });
            }
        },
        RawRepeat::Malformed => {
            return Err(ApiError::InvalidOptionFields { scale: false, repeat: true });
        },
    };
    Ok(CombineOptions { width: raw.width, height: raw.height, scale: scale, repeat: repeat })
}

fn repeat_valid_exec(r: &RawRepeat) -> (ok: bool)
    ensures
        ok == repeat_valid(*r),
{
    match r {
        RawRepeat::Absent => true,
        RawRepeat::Count(v) => *v <= 65535,
        RawRepeat::Malformed => false,
    }
}

/// The output dimensions the transcoder is asked for: the requested scale,
/// or the input dimensions when none was given.
pub fn effective_scale(opts: &CombineOptions) -> (r: (u32, u32))
    ensures
        opts.scale matches Some(s) ==> r == s,
        opts.scale is None ==> r == (opts.width, opts.height),
{
    match opts.scale {
        Some(s) => s,
        None => (opts.width, opts.height),
    }
}

/// One frame's byte size for the given input dimensions: four bytes per
/// pixel.
pub open spec fn frame_bytes(width: u32, height: u32) -> int {
    width * height * 4
}

/// The sink for one combine call: the derived frame size and the input
/// pipe's state. The pipes themselves live with the host layer; every
/// decision about them is made here.
#[derive(Debug, PartialEq, Eq)]
pub struct Combine {
    buf_size: usize,
    input_open: bool,
}

impl Combine {
    /// One frame's byte size.
    pub closed spec fn spec_frame_size(&self) -> usize {
        self.buf_size
    }

    /// Whether the input pipe is still open, i.e. `finish` has not run yet.
    pub closed spec fn spec_open(&self) -> bool {
        self.input_open
    }

    /// Build the sink's state for validated options. Fails only when one
    /// frame's byte size does not fit in the address space.
    pub fn new(opts: &CombineOptions) -> (r: Result<Combine, ApiError>)
        ensures
            frame_bytes(opts.width, opts.height) <= usize::MAX ==> (r matches Ok(c)
                && c.spec_frame_size() == frame_bytes(opts.width, opts.height) && c.spec_open()),
            frame_bytes(opts.width, opts.height) > usize::MAX ==> r == Err::<Combine, ApiError>(
                ApiError::FrameTooLarge,
            ),
    {
        let w = opts.width as usize;
        let h = opts.height as usize;
        let pixels = match w.checked_mul(h) {
            Some(p) => p,
            None => {
                return Err(ApiError::FrameTooLarge);
            },
        };
        match pixels.checked_mul(4) {
            Some(size) => Ok(Combine { buf_size: size, input_open: true }),
            None => Err(ApiError::FrameTooLarge),
        }
    }

    /// A fresh zeroed buffer sized to exactly one frame.
    pub fn alloc_frame(&self) -> (r: Vec<u8>)
        ensures
            r@.len() == self.spec_frame_size(),
            forall|i: int| 0 <= i < r@.len() ==> r@[i] == 0,
    {
        let mut buf: Vec<u8> = Vec::new();
        let n = self.buf_size;
        let mut i: usize = 0;
        while i < n
            invariant
                i <= n,
                buf@.len() == i,
                forall|j: int| 0 <= j < i ==> buf@[j] == 0,
            decreases n - i,
        {
            buf.push(0);
            i = i + 1;
        }
        buf
    }

    /// What a write attempt with a buffer of the given length yields.
    pub open spec fn write_outcome(c: Combine, len: nat) -> Result<(), ApiError> {
        if len != c.spec_frame_size() {
            Err(ApiError::WrongBufferSize { expected: c.spec_frame_size() })
        } else if !c.spec_open() {
            Err(ApiError::AlreadyFinished)
        } else {
            Ok(())
        }
    }

    /// Accept one frame for the input pipe. The buffer must hold exactly one
    /// frame, and the sink must not have finished; the size check comes
    /// first, as the host observes it.
    pub fn write(&self, frame: &Vec<u8>) -> (r: Result<(), ApiError>)
        ensures
            r == Self::write_outcome(*self, frame@.len()),
            r is Ok <==> (frame@.len() == self.spec_frame_size() && self.spec_open()),
    {
        if frame.len() != self.buf_size {
            return Err(ApiError::WrongBufferSize { expected: self.buf_size });
        }
        if !self.input_open {
            return Err(ApiError::AlreadyFinished);
        }
        Ok(())
    }

    /// What finishing yields, and the state it leaves behind.
    pub open spec fn finish_outcome(c: Combine) -> Result<(), ApiError> {
        if c.spec_open() {
            Ok(())
        } else {
            Err(ApiError::AlreadyFinished)
        }
    }

    /// The state any finish attempt leaves behind: the sink closed, the
    /// frame size untouched.
    pub closed spec fn after_finish(c: Combine) -> Combine {
        Combine { input_open: false, ..c }
    }

    /// One frame's byte size, for sizing host-side buffers.
    pub fn frame_size(&self) -> (r: usize)
        ensures
            r == self.spec_frame_size(),
    {
        self.buf_size
    }

    /// Whether the sink still accepts frames.
    pub fn is_open(&self) -> (r: bool)
        ensures
            r == self.spec_open(),
    {
        self.input_open
    }

    /// Close the input pipe, signalling end-of-frames. The first call
    /// succeeds; every later call fails with the distinct state error and
    /// never silently succeeds.
    pub fn finish(&mut self) -> (r: Result<(), ApiError>)
        ensures
            r == Self::finish_outcome(*old(self)),
            *final(self) == Self::after_finish(*old(self)),
            old(self).spec_open() ==> r == Ok::<(), ApiError>(()),
            !old(self).spec_open() ==> r == Err::<(), ApiError>(ApiError::AlreadyFinished),
            !final(self).spec_open(),
            final(self).spec_frame_size() == old(self).spec_frame_size(),
    {
        if self.input_open {
            self.input_open = false;
            Ok(())
        } else {
            Err(ApiError::AlreadyFinished)
        }
    }
}

/// A buffer of exactly one frame, and only such a buffer, is accepted by a
/// live sink; in particular every buffer [`Combine::alloc_frame`] returns is.
pub proof fn lemma_alloc_write_exact(c: Combine, len: nat)
    ensures
        c.spec_open() ==> Combine::write_outcome(c, c.spec_frame_size() as nat) == Ok::<
            (),
            ApiError,
        >(()),
        Combine::write_outcome(c, len) == Ok::<(), ApiError>(()) ==> (len == c.spec_frame_size()
            && c.spec_open()),
{
}

/// Finishing twice never succeeds: whatever state a sink is in, a finish
/// that follows a finish fails with the distinct state error.
pub proof fn lemma_finish_twice(c: Combine)
    ensures
        Combine::finish_outcome(Combine::after_finish(c)) == Err::<(), ApiError>(
            ApiError::AlreadyFinished,
        ),
{
}

/// Validate the call's options record and queue a task for it. A malformed
/// record is rejected here, before any work is scheduled.
pub fn combine_promise(arg: Arg<RawCombineOptions>) -> (r: Result<
    TaskContext<CombineOptions, Combine>,
    ApiError,
>)
    ensures
        arg is Missing ==> r == Err::<TaskContext<CombineOptions, Combine>, ApiError>(
            ApiError::MissingArgument,
        ),
        arg is WrongType ==> r == Err::<TaskContext<CombineOptions, Combine>, ApiError>(
            ApiError::InvalidOptions,
        ),
        arg matches Arg::Value(raw) ==> match validated_options(raw) {
            Ok(opts) => r matches Ok(ctx) && ctx.queued() && ctx.spec_input() == Some(opts)
                && ctx.spec_result() == Err::<Combine, ApiError>(ApiError::Pending),
            Err(e) => r == Err::<TaskContext<CombineOptions, Combine>, ApiError>(e),
        },
{
    match arg {
        Arg::Missing => Err(ApiError::MissingArgument),
        Arg::WrongType => Err(ApiError::InvalidOptions),
        Arg::Value(raw) => match validate_options(&raw) {
            Ok(opts) => Ok(TaskContext::new(opts)),
            Err(e) => Err(e),
        },
    }
}

/// The combine worker step: takes the validated options out of the context
/// and stores the outcome of the spawn, exactly once. A failed spawn stores
/// the spawn error; a successful one stores the sink sized to the options'
/// input dimensions.
pub fn combine_execute(ctx: &mut TaskContext<CombineOptions, Combine>, spawned: bool)
    requires
        old(ctx).queued(),
        old(ctx).spec_input() is Some,
    ensures
        final(ctx).finished(),
        final(ctx).spec_input() is None,
        !spawned ==> final(ctx).spec_result() == Err::<Combine, ApiError>(
            ApiError::CombineSpawnFailed,
        ),
        spawned ==> ({
            let opts = old(ctx).spec_input().unwrap();
            if frame_bytes(opts.width, opts.height) <= usize::MAX {
                final(ctx).spec_result() matches Ok(c) && c.spec_frame_size() == frame_bytes(
                    opts.width,
                    opts.height,
                ) && c.spec_open()
            } else {
                final(ctx).spec_result() == Err::<Combine, ApiError>(ApiError::FrameTooLarge)
            }
        }),
{
    let opts = ctx.take_input();
    let outcome = if spawned {
        Combine::new(&opts)
    } else {
        Err(ApiError::CombineSpawnFailed)
    };
    ctx.store_result(outcome);
}

/// Queue the finish task for a sink. There is nothing to validate here:
/// the already-finished check belongs to the worker step, which closes the
/// input pipe or fails.
pub fn combine_finish_promise() -> (r: TaskContext<(), Vec<u8>>)
    ensures
        r.queued(),
        r.spec_input() == Some(()),
        r.spec_result() == Err::<Vec<u8>, ApiError>(ApiError::Pending),
{
    TaskContext::new(())
}

/// What the finish worker step stores after the blocking drain of the
/// output pipe: the encoded bytes, or the I/O fault that cut the drain
/// short. The worker step runs this only after [`Combine::finish`] closed
/// the sink; a sink that had already finished stores that state error
/// instead and never drains.
pub fn drain_outcome(drained: Result<Vec<u8>, String>) -> (r: Result<Vec<u8>, ApiError>)
    ensures
        drained matches Ok(bytes) ==> r == Ok::<Vec<u8>, ApiError>(bytes),
        drained matches Err(m) ==> r == Err::<Vec<u8>, ApiError>(ApiError::IoFault(m)),
{
    match drained {
        Ok(bytes) => Ok(bytes),
        Err(m) => Err(ApiError::IoFault(m)),
    }
}

} // verus!

