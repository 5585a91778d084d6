use easygif::bridge::{Arg, TaskContext};
use easygif::errors::ApiError;
use easygif::probe::{probe_execute, probe_promise};

#[test]
fn task_hands_its_input_to_the_worker_step() {
    let mut ctx: TaskContext<u32, u32> = TaskContext::new(17);
    assert_eq!(*ctx.borrow_input(), 17);
    let input = ctx.take_input();
    assert_eq!(input, 17);
    ctx.store_result(Ok(input + 1));
    assert_eq!(ctx.complete(), Ok(18));
}

#[test]
fn failed_outcome_reaches_completion_unchanged() {
    let mut ctx: TaskContext<u32, u32> = TaskContext::new(17);
    ctx.store_result(Err(ApiError::SourceNotFound));
    assert_eq!(ctx.complete(), Err(ApiError::SourceNotFound));
}

#[test]
fn missing_string_argument_is_rejected_before_scheduling() {
    assert_eq!(probe_promise(Arg::Missing).err().unwrap(), ApiError::MissingArgument);
    assert_eq!(probe_promise(Arg::WrongType).err().unwrap(), ApiError::ExpectedString);
}

#[test]
fn concurrent_tasks_do_not_contaminate_each_other() {
    // Three probe calls in flight at once, their worker steps finishing out
    // of order: every promise settles with the metadata of its own source.
    let mut a = probe_promise(Arg::Value(String::from("a.gif"))).unwrap();
    let mut b = probe_promise(Arg::Value(String::from("b.gif"))).unwrap();
    let mut c = probe_promise(Arg::Value(String::from("c.gif"))).unwrap();

    probe_execute(&mut b, Ok(b"640,480,24/1\n".to_vec()));
    probe_execute(&mut c, Ok(Vec::new()));
    probe_execute(&mut a, Ok(b"1920,1080,30/1\n".to_vec()));

    let pc = c.complete();
    let pa = a.complete().unwrap();
    let pb = b.complete().unwrap();

    assert_eq!(pa.src, "a.gif");
    assert_eq!(pa.width, 1920);
    assert_eq!(pa.height, Some(1080));
    assert_eq!(pb.src, "b.gif");
    assert_eq!(pb.width, 640);
    assert_eq!(pb.height, Some(480));
    assert_eq!(pc, Err(ApiError::SourceNotFound));
}

#[test]
fn probe_worker_step_reports_a_failed_tool_run() {
    let mut ctx = probe_promise(Arg::Value(String::from("clip.gif"))).unwrap();
    probe_execute(&mut ctx, Err(String::from("spawn failed")));
    assert_eq!(ctx.complete(), Err(ApiError::ProbeFailed(String::from("spawn failed"))));
}
