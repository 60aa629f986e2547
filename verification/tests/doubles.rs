//! The adapters over stand-ins for deferred computations that record what is
//! done to them.
use std::cell::Cell;
use std::rc::Rc;
use transpose_future::{Step, TransposeFuture, TransposedOption, TransposedResult};

/// A computation that counts its resumptions and completes with that count at
/// the resumption numbered `completes_at`.
#[derive(Debug, PartialEq)]
struct Counting {
    resumed: u32,
    completes_at: u32,
}

fn resume_counting(computation: &mut Counting) -> Step<u32> {
    computation.resumed += 1;
    if computation.resumed == computation.completes_at {
        Step::Ready(computation.resumed)
    } else {
        Step::Pending
    }
}

/// A computation that never completes and records that it was dropped.
struct Watched {
    dropped: Rc<Cell<bool>>,
}

impl Drop for Watched {
    fn drop(&mut self) {
        self.dropped.set(true);
    }
}

fn resume_watched(_computation: &mut Watched) -> Step<()> {
    Step::Pending
}

/// An error that cannot be copied or compared but by what it carries.
#[derive(Debug, PartialEq)]
struct Failure {
    code: i64,
    detail: String,
}

#[test]
fn option_passes_each_report_on() {
    let mut adapter = Some(Counting { resumed: 0, completes_at: 3 }).transpose();
    assert_eq!(adapter.poll(resume_counting), Step::Pending);
    assert_eq!(adapter.poll(resume_counting), Step::Pending);
    assert_eq!(adapter.poll(resume_counting), Step::Ready(Some(3)));
}

#[test]
fn option_resumes_the_held_computation_once_per_resumption() {
    let calls = Cell::new(0);
    let mut adapter = Some(Counting { resumed: 0, completes_at: 2 }).transpose();
    let report = adapter.poll(|computation: &mut Counting| {
        calls.set(calls.get() + 1);
        resume_counting(computation)
    });
    assert_eq!(report, Step::Pending);
    assert_eq!(calls.get(), 1);
    let report = adapter.poll(|computation: &mut Counting| {
        calls.set(calls.get() + 1);
        resume_counting(computation)
    });
    assert_eq!(report, Step::Ready(Some(2)));
    assert_eq!(calls.get(), 2);
}

#[test]
fn option_wraps_a_completion_whatever_its_value() {
    let mut adapter = Some(0u8).transpose();
    let report = adapter.poll(|held: &mut u8| Step::Ready(Some(*held)));
    assert_eq!(report, Step::Ready(Some(Some(0u8))));
    let mut nested = Some(0u8).transpose();
    let report = nested.poll(|_held: &mut u8| Step::Ready(None::<u8>));
    assert_eq!(report, Step::Ready(Some(None)));
}

#[test]
fn none_completes_with_none_however_often_it_is_resumed() {
    let calls = Cell::new(0);
    let mut adapter = None::<Counting>.transpose();
    for _ in 0..5 {
        let report = adapter.poll(|computation: &mut Counting| {
            calls.set(calls.get() + 1);
            resume_counting(computation)
        });
        assert_eq!(report, Step::Ready(None));
    }
    assert_eq!(calls.get(), 0);
}

#[test]
fn result_passes_each_report_on() {
    let mut adapter = Ok::<Counting, Failure>(Counting { resumed: 0, completes_at: 2 }).transpose();
    assert!(!adapter.is_spent());
    assert_eq!(adapter.poll(resume_counting), Step::Pending);
    assert!(!adapter.is_spent());
    assert_eq!(adapter.poll(resume_counting), Step::Ready(Ok(2)));
    assert!(!adapter.is_spent());
}

#[test]
fn result_passes_an_inner_failure_on_as_a_success_value() {
    let mut adapter = Ok::<u8, Failure>(0u8).transpose();
    let report = adapter.poll(|_held: &mut u8| Step::Ready(Err::<i32, &str>("inner")));
    assert_eq!(report, Step::Ready(Ok(Err("inner"))));
}

#[test]
fn err_hands_the_error_out_unchanged_and_once() {
    let calls = Cell::new(0);
    let failure = Failure { code: -3, detail: String::from("connection reset") };
    let mut adapter = Err::<Counting, Failure>(failure).transpose();
    assert!(!adapter.is_spent());
    let report = adapter.poll(|computation: &mut Counting| {
        calls.set(calls.get() + 1);
        resume_counting(computation)
    });
    assert_eq!(
        report,
        Step::Ready(Err(Failure { code: -3, detail: String::from("connection reset") }))
    );
    assert_eq!(calls.get(), 0);
    assert!(adapter.is_spent());
}

#[test]
fn converting_option_converts_at_once_and_only_what_is_there() {
    let conversions = Cell::new(0);
    let mut adapter = TransposedOption::converting(Some(3u32), |completes_at: u32| {
        conversions.set(conversions.get() + 1);
        Counting { resumed: 0, completes_at }
    });
    assert_eq!(conversions.get(), 1);
    assert_eq!(adapter.poll(resume_counting), Step::Pending);
    assert_eq!(adapter.poll(resume_counting), Step::Pending);
    assert_eq!(adapter.poll(resume_counting), Step::Ready(Some(3)));
    assert_eq!(conversions.get(), 1);

    let mut absent = TransposedOption::converting(None::<u32>, |completes_at: u32| {
        conversions.set(conversions.get() + 1);
        Counting { resumed: 0, completes_at }
    });
    assert_eq!(conversions.get(), 1);
    assert_eq!(absent.poll(resume_counting), Step::Ready(None));
}

#[test]
fn converting_result_converts_at_once_and_leaves_an_error_alone() {
    let conversions = Cell::new(0);
    let mut adapter = TransposedResult::converting(Ok::<u32, Failure>(1), |completes_at: u32| {
        conversions.set(conversions.get() + 1);
        Counting { resumed: 0, completes_at }
    });
    assert_eq!(conversions.get(), 1);
    assert_eq!(adapter.poll(resume_counting), Step::Ready(Ok(1)));

    let failure = Failure { code: 7, detail: String::from("refused") };
    let mut failed = TransposedResult::converting(Err::<u32, Failure>(failure), |completes_at: u32| {
        conversions.set(conversions.get() + 1);
        Counting { resumed: 0, completes_at }
    });
    assert_eq!(conversions.get(), 1);
    assert!(!failed.is_spent());
    assert_eq!(
        failed.poll(resume_counting),
        Step::Ready(Err(Failure { code: 7, detail: String::from("refused") }))
    );
    assert!(failed.is_spent());
}

#[test]
fn dropping_a_suspended_option_adapter_releases_the_computation() {
    let dropped = Rc::new(Cell::new(false));
    let mut adapter = Some(Watched { dropped: Rc::clone(&dropped) }).transpose();
    assert_eq!(adapter.poll(resume_watched), Step::Pending);
    assert!(!dropped.get());
    drop(adapter);
    assert!(dropped.get());
}

#[test]
fn dropping_a_suspended_result_adapter_releases_the_computation() {
    let dropped = Rc::new(Cell::new(false));
    let mut adapter = Ok::<Watched, Failure>(Watched { dropped: Rc::clone(&dropped) }).transpose();
    assert_eq!(adapter.poll(resume_watched), Step::Pending);
    assert!(!dropped.get());
    drop(adapter);
    assert!(dropped.get());
}

#[test]
fn dropping_an_unresumed_result_adapter_releases_the_error() {
    let dropped = Rc::new(Cell::new(false));
    let adapter = Err::<Counting, Watched>(Watched { dropped: Rc::clone(&dropped) }).transpose();
    assert!(!dropped.get());
    drop(adapter);
    assert!(dropped.get());
}

#[test]
fn steps_compare_by_what_they_report() {
    assert_eq!(Step::Ready(1), Step::Ready(1));
    assert_ne!(Step::Ready(1), Step::Ready(2));
    assert_ne!(Step::Ready(1), Step::Pending);
    assert_eq!(Step::<i32>::Pending, Step::Pending);
    assert_eq!(format!("{:?}", Step::Ready(5)), "Ready(5)");
}
