use crossbeam_channel::unbounded;
use hprof_slurp::coordinator::{Action, Coordinator, Phase, Worker, WorkerExit};
use hprof_slurp::errors::HprofSlurpError;
use hprof_slurp::pool::BufferPool;
use hprof_slurp::header::FILE_HEADER_LENGTH;
use hprof_slurp::prefetch::{PrefetchReader, RAW_POOL_SEED, READ_BUFFER_SIZE};
use hprof_slurp::rendered_result::{ClassAllocationStats, RenderedResult};
use hprof_slurp::result_recorder::{rank, tally, Record, ResultRecorder};
use hprof_slurp::stream::{RecordStreamParser, BATCH_POOL_SEED, DEFAULT_BATCH_TARGET};

fn sample_result() -> RenderedResult {
    RenderedResult {
        summary: "s".to_string(),
        thread_info: "t".to_string(),
        memory_usage: vec![],
        duplicated_strings: None,
        captured_strings: None,
    }
}

fn balanced<T>(pool: &BufferPool<T>, seeded: usize) -> bool {
    pool.pooled() + pool.in_flight() == seeded + pool.allocated()
}

#[test]
fn constants() {
    assert_eq!(FILE_HEADER_LENGTH, 31);
    assert_eq!(READ_BUFFER_SIZE, 67_108_864);
    assert_eq!(RAW_POOL_SEED, 2);
    assert_eq!(BATCH_POOL_SEED, 1);
    assert_eq!(DEFAULT_BATCH_TARGET, 65_536);
}

#[test]
fn pool_recycles_before_it_allocates() {
    let mut pool: BufferPool<u8> = BufferPool::seeded(2, 16);
    assert_eq!((pool.pooled(), pool.in_flight(), pool.allocated()), (2, 0, 0));
    assert!(pool.can_acquire());
    let a = pool.acquire();
    let b = pool.acquire();
    assert!(a.is_empty() && b.is_empty());
    assert!(a.capacity() >= 16);
    assert_eq!((pool.pooled(), pool.in_flight(), pool.allocated()), (0, 2, 0));
    let c = pool.acquire();
    assert!(c.is_empty());
    assert!(c.capacity() >= 16);
    assert_eq!((pool.pooled(), pool.in_flight(), pool.allocated()), (0, 3, 1));
    assert!(balanced(&pool, 2));
    pool.release(vec![1, 2, 3]);
    assert_eq!((pool.pooled(), pool.in_flight(), pool.allocated()), (1, 2, 1));
    let d = pool.acquire();
    assert!(d.is_empty());
    assert_eq!((pool.pooled(), pool.in_flight(), pool.allocated()), (0, 3, 1));
    assert!(balanced(&pool, 2));
    drop((a, b, c, d));
}

#[test]
fn pool_reclaims_what_came_back_and_no_more_than_is_out() {
    let (send, receive) = unbounded::<Vec<u8>>();
    let mut pool: BufferPool<u8> = BufferPool::seeded(1, 4);
    pool.reclaim(&receive);
    assert_eq!((pool.pooled(), pool.in_flight()), (1, 0));
    let mut first = pool.acquire();
    first.extend_from_slice(b"data");
    let second = pool.acquire();
    assert_eq!((pool.pooled(), pool.in_flight(), pool.allocated()), (0, 2, 1));
    send.send(first).unwrap();
    pool.reclaim(&receive);
    assert_eq!((pool.pooled(), pool.in_flight(), pool.allocated()), (1, 1, 1));
    assert!(pool.acquire().is_empty());
    send.send(second).unwrap();
    send.send(vec![9]).unwrap();
    send.send(vec![9]).unwrap();
    send.send(vec![9]).unwrap();
    pool.reclaim(&receive);
    assert_eq!((pool.pooled(), pool.in_flight(), pool.allocated()), (2, 0, 1));
    assert!(balanced(&pool, 1));
    assert_eq!(receive.len(), 2);
    drop(send);
    pool.reclaim(&receive);
    assert_eq!((pool.pooled(), pool.in_flight()), (2, 0));
}

#[test]
fn prefetcher_plans_full_chunks_then_a_partial_one() {
    let (_send, receive) = unbounded::<Vec<u8>>();
    let mut reader = PrefetchReader::new(31 + 25, 31, 10);
    assert_eq!(reader.next_size(), Some(10));
    let mut sizes = vec![];
    while reader.can_continue() {
        match reader.next_chunk(&receive) {
            Some(chunk) => {
                assert!(chunk.iter().all(|b| *b == 0));
                sizes.push(chunk.len());
            }
            None => break,
        }
    }
    assert_eq!(sizes, vec![10, 10, 5]);
    assert_eq!(sizes.iter().sum::<usize>(), 25);
    assert_eq!(reader.next_size(), None);
    assert!(reader.next_chunk(&receive).is_none());
}

#[test]
fn prefetcher_of_a_file_that_is_all_preamble_reads_nothing() {
    let (_send, receive) = unbounded::<Vec<u8>>();
    let mut reader = PrefetchReader::new(31, 31, READ_BUFFER_SIZE);
    assert_eq!(reader.next_size(), None);
    assert!(reader.next_chunk(&receive).is_none());
}

#[test]
fn prefetcher_reuses_returned_buffers() {
    let (send, receive) = unbounded::<Vec<u8>>();
    let mut reader = PrefetchReader::new(100, 0, 10);
    let mut capacities = vec![];
    for _ in 0..10 {
        let mut chunk = reader.next_chunk(&receive).unwrap();
        assert_eq!(chunk.len(), 10);
        chunk[0] = 0xAB;
        capacities.push(chunk.as_ptr() as usize);
        send.send(chunk).unwrap();
    }
    assert!(reader.next_chunk(&receive).is_none());
    capacities.sort();
    capacities.dedup();
    assert!(capacities.len() <= 2, "only the seeded buffers are in use");
    let chunk_exact = PrefetchReader::new(20, 0, 10);
    assert_eq!(chunk_exact.next_size(), Some(10));
}

fn consume_and_report(parser: &mut RecordStreamParser<u32>, amount: usize) -> Result<usize, HprofSlurpError> {
    parser.begin_chunk(amount);
    if amount > 0 {
        parser.consume(amount)?;
    }
    parser.report()
}

#[test]
fn progress_is_cumulative_and_bounded_by_the_stream() {
    let mut parser: RecordStreamParser<u32> = RecordStreamParser::new(25, 3);
    assert_eq!(parser.processed_len(), 0);
    let mut reports = vec![];
    for amount in [10usize, 0, 10, 5] {
        reports.push(consume_and_report(&mut parser, amount).unwrap());
    }
    assert_eq!(reports, vec![10, 10, 20, 25]);
    assert!(reports.windows(2).all(|pair| pair[0] <= pair[1]));
    assert_eq!(*reports.last().unwrap(), 25);
    parser.begin_chunk(1);
    assert_eq!(parser.consume(1), Ok(()));
    assert_eq!(
        parser.report(),
        Err(HprofSlurpError::InvalidHprofFile {
            message: "record stream is longer than the input".to_string()
        })
    );
    assert_eq!(parser.processed_len(), 25);
}

#[test]
fn progress_of_a_chunked_file_ends_at_the_stream_length() {
    let (_send, receive) = unbounded::<Vec<u8>>();
    let file_len = 31 + 95;
    let mut reader = PrefetchReader::new(file_len, FILE_HEADER_LENGTH, 40);
    let mut parser: RecordStreamParser<u32> = RecordStreamParser::new(file_len - FILE_HEADER_LENGTH, 8);
    let mut reports = vec![];
    while let Some(chunk) = reader.next_chunk(&receive) {
        parser.begin_chunk(chunk.len());
        while !parser.chunk_exhausted() {
            let step = std::cmp::min(7, chunk.len() - parser.offset());
            parser.consume(step).unwrap();
            if parser.batch_is_due(step) {
                reports.push(parser.report().unwrap());
            }
        }
    }
    assert_eq!(reports, vec![40, 80, 95]);
    assert_eq!(parser.processed_len(), file_len - FILE_HEADER_LENGTH);
}

#[test]
fn decoder_cannot_leave_the_chunk() {
    let mut parser: RecordStreamParser<u32> = RecordStreamParser::new(100, 3);
    let lost = Err(HprofSlurpError::InvalidHprofFile {
        message: "the decoder lost its place in the stream".to_string(),
    });
    assert!(parser.chunk_exhausted());
    assert_eq!(parser.consume(1), lost);
    parser.begin_chunk(10);
    assert!(!parser.chunk_exhausted());
    assert_eq!(parser.consume(0), lost);
    assert_eq!(parser.consume(11), lost);
    assert_eq!(parser.offset(), 0);
    assert_eq!(parser.consume(4), Ok(()));
    assert_eq!(parser.offset(), 4);
    assert_eq!(parser.consume(7), lost);
    assert_eq!(parser.consume(6), Ok(()));
    assert!(parser.chunk_exhausted());
    assert_eq!(parser.report(), Ok(10));
    assert_eq!(parser.report(), Ok(10));
}

#[test]
fn progress_cannot_overflow() {
    let mut parser: RecordStreamParser<u32> = RecordStreamParser::new(usize::MAX, 1);
    parser.begin_chunk(usize::MAX);
    assert_eq!(parser.consume(usize::MAX - 1), Ok(()));
    parser.begin_chunk(5);
    assert!(parser.consume(2).is_err());
    assert_eq!(parser.consume(1), Ok(()));
    assert_eq!(parser.report(), Ok(usize::MAX));
}

#[test]
fn batch_is_due_at_target_or_end_of_chunk() {
    let mut parser: RecordStreamParser<u32> = RecordStreamParser::new(25, 3);
    assert!(parser.batch_is_due(0));
    parser.begin_chunk(4);
    assert!(!parser.batch_is_due(0));
    assert!(!parser.batch_is_due(2));
    assert!(parser.batch_is_due(3));
    assert!(parser.batch_is_due(4));
    parser.consume(4).unwrap();
    assert!(parser.batch_is_due(0));
}

#[test]
fn batch_containers_are_recycled() {
    let (send, receive) = unbounded::<Vec<u32>>();
    let mut parser: RecordStreamParser<u32> = RecordStreamParser::new(25, 3);
    assert!(parser.can_continue());
    let mut first = parser.next_batch(&receive);
    assert!(first.is_empty());
    first.push(1);
    send.send(first).unwrap();
    let second = parser.next_batch(&receive);
    assert!(second.is_empty());
    let third = parser.next_batch(&receive);
    assert!(third.is_empty());
}

#[test]
fn coordinator_runs_a_clean_pipeline() {
    let mut c = Coordinator::new(100);
    assert_eq!(c.phase(), Phase::Starting);
    assert_eq!(c.action(), Action::Start { worker: Worker::Prefetcher });
    assert_eq!(c.worker_started(), Action::Start { worker: Worker::Parser });
    assert_eq!(c.worker_started(), Action::Start { worker: Worker::Recorder });
    assert_eq!(c.worker_started(), Action::Watch);
    assert_eq!(c.phase(), Phase::Draining);
    assert_eq!(c.progress(10), Action::Show { position: 10 });
    assert_eq!(c.progress(10), Action::Show { position: 10 });
    assert_eq!(c.progress(69), Action::Show { position: 69 });
    assert_eq!(c.progress_closed(), Action::AwaitResult);
    assert_eq!(c.phase(), Phase::Awaiting);
    assert_eq!(c.result_ready(sample_result()), Action::Join { worker: Worker::Prefetcher });
    assert_eq!(c.phase(), Phase::Joining);
    assert_eq!(c.worker_joined(WorkerExit::Clean), Action::Join { worker: Worker::Parser });
    assert_eq!(c.worker_joined(WorkerExit::Clean), Action::Join { worker: Worker::Recorder });
    assert_eq!(c.worker_joined(WorkerExit::Clean), Action::Finish);
    assert_eq!(c.phase(), Phase::Done);
    assert_eq!(c.finish(), Ok(sample_result()));
}

#[test]
fn display_never_moves_back_or_past_the_end() {
    let mut c = Coordinator::new(100);
    c.worker_started();
    c.worker_started();
    c.worker_started();
    let mut shown = vec![];
    for value in [5usize, 3, 50, 49, 1000, 7] {
        match c.progress(value) {
            Action::Show { position } => shown.push(position),
            other => panic!("unexpected {:?}", other),
        }
    }
    assert_eq!(shown, vec![5, 5, 50, 50, 100, 100]);
}

#[test]
fn first_failure_is_returned_after_all_are_joined() {
    let mut c = Coordinator::new(100);
    c.worker_started();
    c.worker_started();
    c.worker_started();
    c.progress_closed();
    assert_eq!(c.result_missing(), Action::Join { worker: Worker::Prefetcher });
    assert_eq!(c.worker_joined(WorkerExit::Clean), Action::Join { worker: Worker::Parser });
    assert_eq!(
        c.worker_joined(WorkerExit::Failed {
            error: HprofSlurpError::InvalidHprofFile { message: "bad tag".to_string() }
        }),
        Action::Join { worker: Worker::Recorder }
    );
    assert_eq!(
        c.worker_joined(WorkerExit::Panicked { message: "recorder gone".to_string() }),
        Action::Finish
    );
    assert_eq!(
        c.finish(),
        Err(HprofSlurpError::InvalidHprofFile { message: "bad tag".to_string() })
    );
}

#[test]
fn unexpected_end_of_a_worker_is_a_thread_failure() {
    let mut c = Coordinator::new(100);
    c.worker_started();
    c.worker_started();
    c.worker_started();
    c.progress_closed();
    c.result_ready(sample_result());
    c.worker_joined(WorkerExit::Panicked { message: "boom".to_string() });
    c.worker_joined(WorkerExit::Clean);
    assert_eq!(c.worker_joined(WorkerExit::Clean), Action::Finish);
    assert_eq!(c.finish(), Err(HprofSlurpError::StdThreadError { message: "boom".to_string() }));
}

#[test]
fn missing_result_without_any_failure_is_a_thread_failure() {
    let mut c = Coordinator::new(100);
    c.worker_started();
    c.worker_started();
    c.worker_started();
    c.progress_closed();
    c.result_missing();
    c.worker_joined(WorkerExit::Clean);
    c.worker_joined(WorkerExit::Clean);
    c.worker_joined(WorkerExit::Clean);
    assert_eq!(
        c.finish(),
        Err(HprofSlurpError::StdThreadError {
            message: "result channel closed before a result arrived".to_string()
        })
    );
}

#[test]
fn failed_start_joins_what_runs() {
    let mut c = Coordinator::new(100);
    assert_eq!(c.start_failed("no threads".to_string()), Action::Finish);
    assert_eq!(c.finish(), Err(HprofSlurpError::StdIoError { message: "no threads".to_string() }));

    let mut c = Coordinator::new(100);
    c.worker_started();
    c.worker_started();
    assert_eq!(
        c.start_failed("no threads".to_string()),
        Action::Join { worker: Worker::Prefetcher }
    );
    assert_eq!(c.worker_joined(WorkerExit::Clean), Action::Join { worker: Worker::Parser });
    assert_eq!(
        c.worker_joined(WorkerExit::Panicked { message: "late".to_string() }),
        Action::Finish
    );
    assert_eq!(c.finish(), Err(HprofSlurpError::StdIoError { message: "no threads".to_string() }));
}

fn allocation(name: &str, size: u64) -> Record {
    Record::ClassAllocation { class_name: name.to_string(), size }
}

#[test]
fn tally_updates_the_row_of_the_name() {
    let mut rows = vec![];
    tally(&mut rows, "A", 10);
    tally(&mut rows, "B", 3);
    tally(&mut rows, "A", 30);
    tally(&mut rows, "A", 20);
    assert_eq!(
        rows,
        vec![
            ClassAllocationStats::new("A".to_string(), 3, 30, 60),
            ClassAllocationStats::new("B".to_string(), 1, 3, 3),
        ]
    );
    tally(&mut rows, "B", u64::MAX);
    assert_eq!(rows[1], ClassAllocationStats::new("B".to_string(), 2, u64::MAX, u64::MAX));
}

#[test]
fn rows_are_ranked_by_size_then_name() {
    let rows = vec![
        ClassAllocationStats::new("b.Small".to_string(), 1, 8, 8),
        ClassAllocationStats::new("z.Tie".to_string(), 2, 50, 100),
        ClassAllocationStats::new("a.Tie".to_string(), 4, 25, 100),
        ClassAllocationStats::new("m.Big".to_string(), 1, 500, 500),
        ClassAllocationStats::new("a.Tie2".to_string(), 4, 25, 100),
        ClassAllocationStats::new("Z.Upper".to_string(), 4, 25, 100),
    ];
    let names: Vec<String> = rank(&rows).into_iter().map(|row| row.class_name).collect();
    assert_eq!(names, vec!["m.Big", "Z.Upper", "a.Tie", "a.Tie2", "z.Tie", "b.Small"]);
    assert_eq!(rank(&vec![]), vec![]);
}

#[test]
fn ranking_does_not_depend_on_arrival_order() {
    let mut rows = vec![
        ClassAllocationStats::new("c".to_string(), 1, 1, 7),
        ClassAllocationStats::new("a".to_string(), 1, 1, 7),
        ClassAllocationStats::new("b".to_string(), 1, 1, 9),
        ClassAllocationStats::new("é".to_string(), 1, 1, 7),
    ];
    let expected = rank(&rows);
    rows.reverse();
    assert_eq!(rank(&rows), expected);
    rows.swap(0, 2);
    assert_eq!(rank(&rows), expected);
}

#[test]
fn recorder_counts_instances_of_a_class() {
    let mut recorder = ResultRecorder::new(false);
    let mut batch: Vec<Record> = (0..10_000).map(|_| allocation("org.example.Main$TestClass", 24)).collect();
    batch.push(allocation("java.lang.Object", 16));
    batch.push(Record::ThreadEvent);
    recorder.record_records(&mut batch);
    assert!(batch.is_empty());
    let mut more = vec![Record::ThreadEvent, allocation("java.lang.Object", 48)];
    recorder.record_records(&mut more);
    assert!(more.is_empty());
    let result = recorder.finish();
    assert_eq!(
        result.memory_usage,
        vec![
            ClassAllocationStats::new("org.example.Main$TestClass".to_string(), 10_000, 24, 240_000),
            ClassAllocationStats::new("java.lang.Object".to_string(), 2, 48, 64),
        ]
    );
    assert_eq!(
        result.summary,
        "\nFile content summary:\n  Objects counted: 10002\n  Distinct classes: 2\n  Strings encountered: 0\n  Heap bytes: 240064"
    );
    assert_eq!(result.thread_info, "\nThread information:\n  Threads discovered: 2");
    assert_eq!(result.duplicated_strings, None);
    assert_eq!(result.captured_strings, None);
}

#[test]
fn recorder_reports_duplicated_and_captured_strings() {
    let mut recorder = ResultRecorder::new(true);
    for content in ["alpha", "beta", "alpha", "alpha", "gamma"] {
        recorder.record(&Record::StringEvent { content: content.to_string() });
    }
    let result = recorder.finish();
    assert_eq!(
        result.duplicated_strings,
        Some("\nFound 2 duplicated strings out of 3 unique strings\n".to_string())
    );
    assert_eq!(result.captured_strings, Some("\nList of Strings\nalpha\nbeta\ngamma\n".to_string()));
    assert!(result.summary.contains("Strings encountered: 5\n"));
    assert!(result.memory_usage.is_empty());

    let empty = ResultRecorder::new(true).finish();
    assert_eq!(empty.captured_strings, Some("\nList of Strings\n".to_string()));
    assert_eq!(empty.duplicated_strings, None);
}

#[test]
fn same_records_give_the_same_result_however_they_are_batched() {
    let records = || {
        vec![
            allocation("b", 5),
            Record::StringEvent { content: "s".to_string() },
            allocation("a", 5),
            Record::ThreadEvent,
            allocation("b", 1),
            allocation("c", 6),
        ]
    };
    let mut whole = ResultRecorder::new(true);
    whole.record_records(&mut records());
    let mut piecewise = ResultRecorder::new(true);
    for record in records() {
        piecewise.record_records(&mut vec![record]);
    }
    let first = whole.finish();
    assert_eq!(first, piecewise.finish());
    let names: Vec<&str> = first.memory_usage.iter().map(|row| row.class_name.as_str()).collect();
    assert_eq!(names, vec!["b", "c", "a"]);
}
