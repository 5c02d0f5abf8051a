use edenapi_core::pipeline::{Pipeline, Slot, Step};

fn start_all(pipeline: &mut Pipeline) -> Vec<usize> {
    let mut started = Vec::new();
    while let Some(index) = pipeline.start_next() {
        started.push(index);
    }
    started
}

#[test]
fn empty_batch_is_finished_at_once() {
    let mut pipeline = Pipeline::new(0, 100);
    assert!(pipeline.is_finished());
    assert!(!pipeline.has_failed());
    assert_eq!(pipeline.start_next(), None);
    assert_eq!(pipeline.total(), 0);
    assert_eq!(pipeline.running(), 0);
}

#[test]
fn batch_smaller_than_limit_starts_everything() {
    let mut pipeline = Pipeline::new(3, 100);
    assert_eq!(pipeline.limit(), 100);
    assert_eq!(start_all(&mut pipeline), vec![0, 1, 2]);
    assert_eq!(pipeline.running(), 3);
    assert!(!pipeline.is_finished());
}

#[test]
fn no_more_than_limit_run_at_once() {
    let mut pipeline = Pipeline::new(10, 4);
    assert_eq!(start_all(&mut pipeline), vec![0, 1, 2, 3]);
    assert_eq!(pipeline.running(), 4);
    assert_eq!(pipeline.start_next(), None);
    assert_eq!(pipeline.complete::<u8, u8>(2, Ok(20)), Step::Yield(20));
    assert_eq!(pipeline.running(), 3);
    assert_eq!(pipeline.start_next(), Some(4));
    assert_eq!(pipeline.start_next(), None);
    assert_eq!(pipeline.running(), 4);
}

#[test]
fn running_never_exceeds_the_smaller_of_batch_and_limit() {
    for (total, limit) in [(0usize, 0usize), (5, 0), (1, 1), (7, 3), (3, 7), (100, 100), (250, 100)] {
        let mut pipeline = Pipeline::new(total, limit);
        let mut in_flight: Vec<usize> = Vec::new();
        let mut done = 0;
        loop {
            while let Some(index) = pipeline.start_next() {
                in_flight.push(index);
                assert!(pipeline.running() <= total.min(limit));
            }
            assert_eq!(pipeline.running(), in_flight.len());
            if in_flight.is_empty() {
                break;
            }
            let index = in_flight.remove(in_flight.len() / 2);
            assert_eq!(pipeline.complete::<usize, ()>(index, Ok(index)), Step::Yield(index));
            done += 1;
        }
        if limit > 0 {
            assert_eq!(done, total);
            assert!(pipeline.is_finished());
        } else {
            assert_eq!(done, 0);
            assert_eq!(pipeline.is_finished(), total == 0);
        }
    }
}

#[test]
fn results_leave_in_completion_order() {
    let mut pipeline = Pipeline::new(3, 3);
    start_all(&mut pipeline);
    let mut out = Vec::new();
    for index in [2usize, 0, 1] {
        match pipeline.complete::<usize, ()>(index, Ok(index * 10)) {
            Step::Yield(value) => out.push(value),
            other => panic!("unexpected step {:?}", other),
        }
    }
    assert_eq!(out, vec![20, 0, 10]);
    assert!(pipeline.is_finished());
    assert!(!pipeline.has_failed());
    assert_eq!(pipeline.slot(0), Some(Slot::Done));
    assert_eq!(pipeline.slot(3), None);
}

#[test]
fn first_failure_ends_the_batch() {
    let mut pipeline = Pipeline::new(6, 3);
    assert_eq!(start_all(&mut pipeline), vec![0, 1, 2]);
    assert_eq!(pipeline.complete::<u8, &str>(1, Ok(1)), Step::Yield(1));
    assert_eq!(pipeline.start_next(), Some(3));
    assert_eq!(pipeline.complete::<u8, &str>(0, Err("boom")), Step::Terminate("boom"));
    assert!(pipeline.has_failed());
    assert!(pipeline.is_finished());
    assert_eq!(pipeline.running(), 0);
    assert_eq!(pipeline.start_next(), None);
    assert_eq!(pipeline.complete::<u8, &str>(2, Ok(2)), Step::Ignored);
    assert_eq!(pipeline.complete::<u8, &str>(3, Err("later")), Step::Ignored);
    assert_eq!(pipeline.slot(0), Some(Slot::Dropped));
    assert_eq!(pipeline.slot(1), Some(Slot::Done));
    assert_eq!(pipeline.slot(2), Some(Slot::Dropped));
    assert_eq!(pipeline.slot(3), Some(Slot::Dropped));
    assert_eq!(pipeline.slot(4), Some(Slot::Waiting));
    assert_eq!(pipeline.slot(5), Some(Slot::Waiting));
}

#[test]
fn reports_for_items_not_in_flight_are_ignored() {
    let mut pipeline = Pipeline::new(3, 1);
    assert_eq!(pipeline.complete::<u8, u8>(0, Ok(1)), Step::Ignored);
    assert_eq!(pipeline.start_next(), Some(0));
    assert_eq!(pipeline.complete::<u8, u8>(1, Ok(1)), Step::Ignored);
    assert_eq!(pipeline.complete::<u8, u8>(7, Err(1)), Step::Ignored);
    assert_eq!(pipeline.complete::<u8, u8>(0, Ok(5)), Step::Yield(5));
    assert_eq!(pipeline.complete::<u8, u8>(0, Ok(5)), Step::Ignored);
    assert!(!pipeline.has_failed());
    assert_eq!(pipeline.running(), 0);
    assert_eq!(pipeline.slot(0), Some(Slot::Done));
    assert_eq!(pipeline.slot(1), Some(Slot::Waiting));
}

#[test]
fn limit_zero_never_starts_anything() {
    let mut pipeline = Pipeline::new(2, 0);
    assert_eq!(pipeline.start_next(), None);
    assert!(!pipeline.is_finished());
    assert_eq!(pipeline.running(), 0);
}
