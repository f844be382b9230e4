use kentik_api::batch::Aggregator;

#[test]
fn flush_by_size_without_waiting() {
    // Crossing the byte threshold hands the batch out at once.
    let mut agg = Aggregator::new(10);
    let flushed = agg.append(&[1, 2, 3, 4, 5, 6, 7, 8, 9, 10]);
    assert_eq!(Some(vec![1, 2, 3, 4, 5, 6, 7, 8, 9, 10]), flushed);
    assert_eq!(None, agg.tick());
}

#[test]
fn flush_by_size_accumulates_first() {
    let mut agg = Aggregator::new(10);
    assert_eq!(None, agg.append(&[1, 2, 3, 4]));
    let flushed = agg.append(&[5, 6, 7, 8, 9, 10]);
    assert_eq!(Some(vec![1, 2, 3, 4, 5, 6, 7, 8, 9, 10]), flushed);
}

#[test]
fn flush_by_time_single_record() {
    // One small record, then a timer tick: exactly one submission holding
    // that record, and the next tick submits nothing.
    let mut agg = Aggregator::new(1_000_000);
    assert_eq!(None, agg.append(&[42, 43]));
    assert_eq!(Some(vec![42, 43]), agg.tick());
    assert_eq!(None, agg.tick());
}

#[test]
fn tick_on_empty_buffer_is_no_op() {
    let mut agg = Aggregator::new(100);
    assert_eq!(None, agg.tick());
    assert_eq!(None, agg.tick());
}

#[test]
fn ordering_kept_within_batch() {
    // Chunks enqueued in order A, B, C appear in that order in the batch.
    let mut agg = Aggregator::new(1_000_000);
    assert_eq!(None, agg.append(&[1, 1]));
    assert_eq!(None, agg.append(&[2, 2, 2]));
    assert_eq!(None, agg.append(&[3]));
    assert_eq!(Some(vec![1, 1, 2, 2, 2, 3]), agg.tick());
}

#[test]
fn close_submits_residue_exactly_once() {
    let mut agg = Aggregator::new(1_000_000);
    assert_eq!(None, agg.append(&[7, 8, 9]));
    assert_eq!(Some(vec![7, 8, 9]), agg.close());
}

#[test]
fn close_with_empty_buffer_submits_nothing() {
    let mut agg = Aggregator::new(10);
    assert_eq!(None, agg.close());
}

#[test]
fn immediate_threshold_gives_one_submission_per_record() {
    // With a threshold of one byte every non-empty append flushes, so ten
    // records sent one at a time give ten distinct submissions.
    let mut agg = Aggregator::new(1);
    for n in 0..10u8 {
        let flushed = agg.append(&[n]);
        assert_eq!(Some(vec![n]), flushed);
    }
}

#[test]
fn empty_chunk_never_flushes() {
    // A threshold of zero still never submits an empty buffer.
    let mut agg = Aggregator::new(0);
    assert_eq!(None, agg.append(&[]));
    assert_eq!(Some(vec![5]), agg.append(&[5]));
}
