use easygif::bridge::Arg;
use easygif::combine::{
    combine_execute, combine_finish_promise, combine_promise, drain_outcome, effective_scale,
    validate_options, Combine, CombineOptions, RawCombineOptions, RawRepeat, RawScale, Repeat,
};
use easygif::errors::ApiError;

fn plain_raw() -> RawCombineOptions {
    RawCombineOptions { width: 4, height: 3, scale: RawScale::Absent, repeat: RawRepeat::Absent }
}

#[test]
fn defaults_apply_when_fields_are_omitted() {
    let opts = validate_options(&plain_raw()).unwrap();
    assert_eq!(opts.width, 4);
    assert_eq!(opts.height, 3);
    assert_eq!(opts.scale, None);
    assert_eq!(opts.repeat, Repeat::Infinite);
}

#[test]
fn two_element_scale_is_accepted() {
    let raw = RawCombineOptions { scale: RawScale::List(vec![8, 6]), ..plain_raw() };
    let opts = validate_options(&raw).unwrap();
    assert_eq!(opts.scale, Some((8, 6)));
}

#[test]
fn wrong_length_scale_is_rejected() {
    let raw = RawCombineOptions { scale: RawScale::List(vec![8]), ..plain_raw() };
    let r = validate_options(&raw);
    assert_eq!(r, Err(ApiError::InvalidOptionFields { scale: true, repeat: false }));
    let raw = RawCombineOptions { scale: RawScale::List(vec![8, 6, 4]), ..plain_raw() };
    let r = validate_options(&raw);
    assert_eq!(r, Err(ApiError::InvalidOptionFields { scale: true, repeat: false }));
}

#[test]
fn malformed_fields_are_reported_together() {
    let raw = RawCombineOptions {
        scale: RawScale::Malformed,
        repeat: RawRepeat::Malformed,
        ..plain_raw()
    };
    let r = validate_options(&raw);
    assert_eq!(r, Err(ApiError::InvalidOptionFields { scale: true, repeat: true }));
}

#[test]
fn repeat_counts_map_to_policies() {
    for (count, policy) in [
        (0, Repeat::Infinite),
        (1, Repeat::Once),
        (5, Repeat::Exact(5)),
        (65535, Repeat::Exact(65535)),
    ] {
        let raw = RawCombineOptions { repeat: RawRepeat::Count(count), ..plain_raw() };
        assert_eq!(validate_options(&raw).unwrap().repeat, policy);
        assert_eq!(Repeat::from_count(count), Ok(policy));
        assert_eq!(policy.count() as u32, count);
    }
}

#[test]
fn oversized_repeat_is_rejected() {
    let raw = RawCombineOptions { repeat: RawRepeat::Count(65536), ..plain_raw() };
    let r = validate_options(&raw);
    assert_eq!(r, Err(ApiError::InvalidOptionFields { scale: false, repeat: true }));
    assert_eq!(
        Repeat::from_count(70000),
        Err(ApiError::InvalidOptionFields { scale: false, repeat: true })
    );
}

#[test]
fn scale_defaults_to_input_dimensions() {
    let opts = CombineOptions { width: 4, height: 3, scale: None, repeat: Repeat::Infinite };
    assert_eq!(effective_scale(&opts), (4, 3));
    let opts = CombineOptions { width: 4, height: 3, scale: Some((8, 6)), repeat: Repeat::Once };
    assert_eq!(effective_scale(&opts), (8, 6));
}

#[test]
fn missing_options_are_rejected_before_scheduling() {
    let r = combine_promise(Arg::Missing);
    assert_eq!(r.err().unwrap(), ApiError::MissingArgument);
    let r = combine_promise(Arg::WrongType);
    assert_eq!(r.err().unwrap(), ApiError::InvalidOptions);
    let raw = RawCombineOptions { scale: RawScale::Malformed, ..plain_raw() };
    let r = combine_promise(Arg::Value(raw));
    assert_eq!(r.err().unwrap(), ApiError::InvalidOptionFields { scale: true, repeat: false });
}

#[test]
fn alloc_is_exactly_one_frame() {
    let opts = CombineOptions { width: 4, height: 3, scale: None, repeat: Repeat::Infinite };
    let sink = Combine::new(&opts).unwrap();
    assert_eq!(sink.frame_size(), 4 * 3 * 4);
    let buf = sink.alloc_frame();
    assert_eq!(buf.len(), 4 * 3 * 4);
    assert!(buf.iter().all(|b| *b == 0));
}

#[test]
fn alloc_uses_input_dimensions_not_scale() {
    let opts = CombineOptions { width: 4, height: 3, scale: Some((100, 100)), repeat: Repeat::Once };
    let sink = Combine::new(&opts).unwrap();
    assert_eq!(sink.alloc_frame().len(), 4 * 3 * 4);
}

#[test]
fn write_accepts_only_exact_frames() {
    let opts = CombineOptions { width: 2, height: 2, scale: None, repeat: Repeat::Infinite };
    let sink = Combine::new(&opts).unwrap();
    let frame = sink.alloc_frame();
    assert_eq!(sink.write(&frame), Ok(()));
    let short = vec![0u8; 15];
    assert_eq!(sink.write(&short), Err(ApiError::WrongBufferSize { expected: 16 }));
    let long = vec![0u8; 17];
    assert_eq!(sink.write(&long), Err(ApiError::WrongBufferSize { expected: 16 }));
}

#[test]
fn second_finish_always_rejects() {
    let opts = CombineOptions { width: 2, height: 2, scale: None, repeat: Repeat::Infinite };
    let mut sink = Combine::new(&opts).unwrap();
    assert!(sink.is_open());
    assert_eq!(sink.finish(), Ok(()));
    assert!(!sink.is_open());
    assert_eq!(sink.finish(), Err(ApiError::AlreadyFinished));
    assert_eq!(sink.finish(), Err(ApiError::AlreadyFinished));
}

#[test]
fn write_after_finish_is_a_state_error() {
    let opts = CombineOptions { width: 2, height: 2, scale: None, repeat: Repeat::Infinite };
    let mut sink = Combine::new(&opts).unwrap();
    let frame = sink.alloc_frame();
    sink.finish().unwrap();
    assert_eq!(sink.write(&frame), Err(ApiError::AlreadyFinished));
}

#[test]
fn oversized_frame_dimensions_are_rejected() {
    let opts =
        CombineOptions { width: u32::MAX, height: u32::MAX, scale: None, repeat: Repeat::Infinite };
    assert_eq!(Combine::new(&opts), Err(ApiError::FrameTooLarge));
}

#[test]
fn failed_spawn_is_stored_as_the_outcome() {
    let raw = plain_raw();
    let mut ctx = combine_promise(Arg::Value(raw)).unwrap();
    combine_execute(&mut ctx, false);
    assert_eq!(ctx.complete(), Err(ApiError::CombineSpawnFailed));
}

#[test]
fn successful_spawn_stores_a_live_sink() {
    let mut ctx = combine_promise(Arg::Value(plain_raw())).unwrap();
    combine_execute(&mut ctx, true);
    let sink = ctx.complete().unwrap();
    assert!(sink.is_open());
    assert_eq!(sink.frame_size(), 4 * 3 * 4);
}

#[test]
fn finish_drains_or_reports_the_fault() {
    let mut ctx = combine_finish_promise();
    let drained = drain_outcome(Ok(vec![1, 2, 3]));
    ctx.store_result(drained);
    assert_eq!(ctx.complete(), Ok(vec![1, 2, 3]));

    let mut ctx = combine_finish_promise();
    let drained = drain_outcome(Err(String::from("broken pipe")));
    ctx.store_result(drained);
    assert_eq!(ctx.complete(), Err(ApiError::IoFault(String::from("broken pipe"))));
}
