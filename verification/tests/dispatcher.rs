use imgpress::compressor::FileError;
use imgpress::dispatcher::{record_outcome, Dispatcher};
use imgpress::stats::{aggregate, FileStat};

fn files(n: usize) -> Vec<String> {
    (0..n).map(|i| format!("in/{}.png", i)).collect()
}

#[test]
fn record_of_success_carries_sizes() {
    assert_eq!(
        record_outcome("a.png".to_string(), Ok((900, 300)), 42),
        FileStat::success("a.png".to_string(), 900, 300, 42)
    );
}

#[test]
fn record_of_failure_carries_the_description() {
    let failure = Err(FileError::Decode("bad header".to_string()));
    let stat = record_outcome("a.png".to_string(), failure, 7);
    assert_eq!(
        stat,
        FileStat::error("a.png".to_string(), "decode error: bad header".to_string(), 7)
    );
    let stat = record_outcome("b.png".to_string(), Err(FileError::Io("denied".to_string())), 1);
    assert_eq!(stat.error, Some("I/O error: denied".to_string()));
    let failure = Err(FileError::Encode("too big".to_string()));
    let stat = record_outcome("c.png".to_string(), failure, 1);
    assert_eq!(stat.error, Some("encode error: too big".to_string()));
    let stat = record_outcome("d.png".to_string(), Err(FileError::OutOfOrder), 1);
    assert_eq!(stat.error, Some("worker was told of something it had not asked for".to_string()));
    assert_eq!((stat.before, stat.after), (0, 0));
}

#[test]
fn empty_run_is_done_at_once() {
    let mut dispatcher = Dispatcher::new(Vec::new(), 4);
    assert_eq!(dispatcher.file_count(), 0);
    assert!(dispatcher.is_done());
    assert_eq!(dispatcher.next_job(), None);
    assert_eq!(dispatcher.finish(), Some(Vec::new()));
}

#[test]
fn jobs_go_out_in_discovery_order() {
    let mut dispatcher = Dispatcher::new(files(3), 8);
    assert_eq!(dispatcher.next_job(), Some((0, "in/0.png".to_string())));
    assert_eq!(dispatcher.next_job(), Some((1, "in/1.png".to_string())));
    assert_eq!(dispatcher.next_job(), Some((2, "in/2.png".to_string())));
    assert_eq!(dispatcher.next_job(), None);
    assert_eq!(dispatcher.in_flight(), 3);
}

#[test]
fn no_more_jobs_in_flight_than_workers() {
    let mut dispatcher = Dispatcher::new(files(5), 2);
    assert!(dispatcher.next_job().is_some());
    assert!(dispatcher.next_job().is_some());
    assert_eq!(dispatcher.next_job(), None);
    assert_eq!(dispatcher.in_flight(), 2);
    assert!(dispatcher.complete(1, Ok((10, 5)), 1));
    assert_eq!(dispatcher.in_flight(), 1);
    assert_eq!(dispatcher.next_job(), Some((2, "in/2.png".to_string())));
    assert_eq!(dispatcher.next_job(), None);
}

#[test]
fn zero_workers_count_as_one() {
    let mut dispatcher = Dispatcher::new(files(2), 0);
    assert_eq!(dispatcher.next_job(), Some((0, "in/0.png".to_string())));
    assert_eq!(dispatcher.next_job(), None);
    assert!(dispatcher.complete(0, Ok((1, 1)), 0));
    assert_eq!(dispatcher.next_job(), Some((1, "in/1.png".to_string())));
}

#[test]
fn result_of_a_file_not_handed_out_is_turned_down() {
    let mut dispatcher = Dispatcher::new(files(3), 1);
    assert!(!dispatcher.complete(0, Ok((1, 1)), 0));
    assert!(dispatcher.next_job().is_some());
    assert!(!dispatcher.complete(1, Ok((1, 1)), 0));
    assert!(!dispatcher.complete(3, Ok((1, 1)), 0));
    assert!(!dispatcher.complete(usize::MAX, Ok((1, 1)), 0));
    assert_eq!(dispatcher.in_flight(), 1);
    assert!(!dispatcher.is_done());
}

#[test]
fn second_result_for_a_file_is_turned_down() {
    let mut dispatcher = Dispatcher::new(files(1), 1);
    assert!(dispatcher.next_job().is_some());
    assert!(dispatcher.complete(0, Ok((100, 40)), 3));
    assert!(!dispatcher.complete(0, Ok((100, 1)), 3));
    assert!(!dispatcher.complete(0, Err(FileError::OutOfOrder), 3));
    assert_eq!(
        dispatcher.finish(),
        Some(vec![FileStat::success("in/0.png".to_string(), 100, 40, 3)])
    );
}

#[test]
fn finish_gives_nothing_before_the_end() {
    let mut dispatcher = Dispatcher::new(files(2), 2);
    assert_eq!(dispatcher.finish(), None);
    dispatcher.next_job();
    dispatcher.next_job();
    assert!(dispatcher.complete(1, Ok((2, 1)), 0));
    assert!(!dispatcher.is_done());
    assert_eq!(dispatcher.finish(), None);
    assert!(dispatcher.complete(0, Ok((4, 1)), 0));
    assert!(dispatcher.is_done());
    assert!(dispatcher.finish().is_some());
}

#[test]
fn every_file_gets_exactly_one_record_in_discovery_order() {
    for n in [0usize, 1, 2, 7, 50] {
        for workers in [1usize, 3, 64] {
            let mut dispatcher = Dispatcher::new(files(n), workers);
            let mut waiting: Vec<usize> = Vec::new();
            while !dispatcher.is_done() {
                while let Some((index, path)) = dispatcher.next_job() {
                    assert_eq!(path, format!("in/{}.png", index));
                    waiting.push(index);
                    assert!(dispatcher.in_flight() <= workers);
                }
                // The job handed out last comes back first.
                let index = waiting.pop().unwrap();
                assert!(dispatcher.complete(index, Ok((1000 + index as u64, index as u64)), 1));
            }
            let records = dispatcher.finish().unwrap();
            assert_eq!(records.len(), n);
            for (i, record) in records.iter().enumerate() {
                let path = format!("in/{}.png", i);
                assert_eq!(*record, FileStat::success(path, 1000 + i as u64, i as u64, 1));
            }
            assert_eq!(aggregate(&records).count, n);
        }
    }
}

#[test]
fn one_failure_leaves_the_other_records_alone() {
    let mut dispatcher = Dispatcher::new(files(4), 4);
    while dispatcher.next_job().is_some() {}
    assert!(dispatcher.complete(3, Ok((300, 30)), 1));
    assert!(dispatcher.complete(1, Err(FileError::Decode("corrupt".to_string())), 2));
    assert!(dispatcher.complete(0, Ok((100, 10)), 3));
    assert!(dispatcher.complete(2, Ok((200, 20)), 4));
    let records = dispatcher.finish().unwrap();
    assert_eq!(
        records,
        vec![
            FileStat::success("in/0.png".to_string(), 100, 10, 3),
            FileStat::error("in/1.png".to_string(), "decode error: corrupt".to_string(), 2),
            FileStat::success("in/2.png".to_string(), 200, 20, 4),
            FileStat::success("in/3.png".to_string(), 300, 30, 1),
        ]
    );
    let summary = aggregate(&records);
    assert_eq!(summary.count, 4);
    assert_eq!(summary.total_before, 600);
    assert_eq!(summary.total_after, 60);
    assert_eq!(summary.total_saved, 540);
    assert_eq!(summary.failed.len(), 1);
    assert_eq!(summary.failed[0].path, "in/1.png");
}
