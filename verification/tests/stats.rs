use imgpress::stats::{aggregate, FileStat, Summary};

fn sample() -> Vec<FileStat> {
    vec![
        FileStat::success("a/one.png".to_string(), 1000, 400, 12),
        FileStat::error("a/two.png".to_string(), "decode error: bad header".to_string(), 3),
        FileStat::success("a/three.jpg".to_string(), 500, 700, 8),
        FileStat::error("a/four.bmp".to_string(), "I/O error: denied".to_string(), 1),
        FileStat::success("a/five.webp".to_string(), 2048, 1024, 30),
    ]
}

#[test]
fn success_record_keeps_its_values() {
    let stat = FileStat::success("dir/photo.png".to_string(), 2048, 512, 77);
    assert_eq!(stat.path, "dir/photo.png");
    assert_eq!(stat.before, 2048);
    assert_eq!(stat.after, 512);
    assert_eq!(stat.error, None);
    assert_eq!(stat.duration_ms, 77);
    assert!(!stat.is_failure());
}

#[test]
fn error_record_has_zero_sizes() {
    let stat = FileStat::error("dir/broken.png".to_string(), "no picture".to_string(), 5);
    assert_eq!(stat.path, "dir/broken.png");
    assert_eq!(stat.before, 0);
    assert_eq!(stat.after, 0);
    assert_eq!(stat.error, Some("no picture".to_string()));
    assert_eq!(stat.duration_ms, 5);
    assert!(stat.is_failure());
    assert_eq!(stat.saved_bytes(), 0);
}

#[test]
fn saved_bytes_is_the_shrinkage() {
    assert_eq!(FileStat::success("p".to_string(), 1000, 400, 0).saved_bytes(), 600);
    assert_eq!(FileStat::success("p".to_string(), 1000, 1000, 0).saved_bytes(), 0);
    assert_eq!(FileStat::success("p".to_string(), u64::MAX, 0, 0).saved_bytes(), u64::MAX);
}

#[test]
fn saved_bytes_stops_at_zero_when_the_file_grew() {
    assert_eq!(FileStat::success("p".to_string(), 400, 1000, 0).saved_bytes(), 0);
    assert_eq!(FileStat::success("p".to_string(), 0, u64::MAX, 0).saved_bytes(), 0);
}

#[test]
fn clone_keeps_the_record() {
    let stat = FileStat::error("x".to_string(), "why".to_string(), 9);
    assert_eq!(stat.clone(), stat);
    let stat = FileStat::success("y".to_string(), 3, 2, 1);
    assert_eq!(stat.clone(), stat);
}

#[test]
fn aggregate_of_nothing_is_all_zero() {
    let summary = aggregate(&Vec::new());
    assert_eq!(
        summary,
        Summary { count: 0, total_before: 0, total_after: 0, total_saved: 0, failed: vec![] }
    );
}

#[test]
fn aggregate_adds_up_sizes_and_counts_records() {
    let summary = aggregate(&sample());
    assert_eq!(summary.count, 5);
    assert_eq!(summary.total_before, 3548);
    assert_eq!(summary.total_after, 2124);
    assert_eq!(summary.total_saved, 1424);
}

#[test]
fn aggregate_keeps_failures_in_order() {
    let summary = aggregate(&sample());
    assert_eq!(
        summary.failed,
        vec![
            FileStat::error("a/two.png".to_string(), "decode error: bad header".to_string(), 3),
            FileStat::error("a/four.bmp".to_string(), "I/O error: denied".to_string(), 1),
        ]
    );
}

#[test]
fn aggregate_saved_stops_at_zero() {
    let records = vec![
        FileStat::success("a".to_string(), 10, 50, 0),
        FileStat::success("b".to_string(), 20, 30, 0),
    ];
    let summary = aggregate(&records);
    assert_eq!(summary.total_before, 30);
    assert_eq!(summary.total_after, 80);
    assert_eq!(summary.total_saved, 0);
}

#[test]
fn aggregate_saved_is_taken_from_the_totals() {
    // One file grew by 40, the other shrank by 100: the totals differ by 60.
    let records = vec![
        FileStat::success("a".to_string(), 10, 50, 0),
        FileStat::success("b".to_string(), 200, 100, 0),
    ];
    assert_eq!(aggregate(&records).total_saved, 60);
}

#[test]
fn aggregate_does_not_overflow_on_huge_sizes() {
    let records = vec![
        FileStat::success("a".to_string(), u64::MAX, 1, 0),
        FileStat::success("b".to_string(), u64::MAX, 2, 0),
        FileStat::success("c".to_string(), u64::MAX, 3, 0),
    ];
    let summary = aggregate(&records);
    assert_eq!(summary.total_before, 3 * (u64::MAX as u128));
    assert_eq!(summary.total_after, 6);
    assert_eq!(summary.total_saved, 3 * (u64::MAX as u128) - 6);
}

#[test]
fn totals_do_not_depend_on_order() {
    let forward = aggregate(&sample());
    let mut reversed = sample();
    reversed.reverse();
    let backward = aggregate(&reversed);
    assert_eq!(forward.count, backward.count);
    assert_eq!(forward.total_before, backward.total_before);
    assert_eq!(forward.total_after, backward.total_after);
    assert_eq!(forward.total_saved, backward.total_saved);
    let mut rotated = sample();
    rotated.rotate_left(2);
    let turned = aggregate(&rotated);
    assert_eq!(forward.total_before, turned.total_before);
    assert_eq!(forward.total_after, turned.total_after);
    assert_eq!(turned.failed.len(), 2);
    assert_eq!(turned.failed[0].path, "a/four.bmp");
    assert_eq!(turned.failed[1].path, "a/two.png");
}

#[test]
fn totals_do_not_depend_on_durations() {
    let first = vec![
        FileStat::success("a".to_string(), 100, 40, 5),
        FileStat::success("b".to_string(), 300, 90, 7),
    ];
    let second = vec![
        FileStat::success("a".to_string(), 100, 40, 500),
        FileStat::success("b".to_string(), 300, 90, 1),
    ];
    let one = aggregate(&first);
    let two = aggregate(&second);
    assert_eq!(one.total_before, two.total_before);
    assert_eq!(one.total_after, two.total_after);
    assert_eq!(one.total_saved, two.total_saved);
    assert_eq!(one.count, two.count);
}
