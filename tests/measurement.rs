use wasm_bench::{
    reference_score, names_match, RunFailure, RunLoop, TimingSample, TriggerError, TriggerState,
    Verdict, LOOPS_COMPILED, REFERENCE_COUNT,
};

fn sample(start_ms: u64, stop_ms: u64) -> Result<TimingSample, TriggerError> {
    Ok(TimingSample { start_ms, stop_ms })
}

#[test]
fn reference_table_has_every_benchmark() {
    let table: [(&str, u64); 19] = [
        ("aha-mont64", 4_004),
        ("crc32", 4_010),
        ("cubic", 3_931),
        ("edn", 4_010),
        ("huffbench", 4_120),
        ("matmult-int", 3_985),
        ("minver", 3_998),
        ("nbody", 2_808),
        ("neetle-aes", 4_026),
        ("neetle-sha256", 3_997),
        ("nsichneu", 4_001),
        ("picojpeg", 4_030),
        ("qrduino", 4_253),
        ("sglib-combined", 3_981),
        ("slre", 4_010),
        ("st", 4_080),
        ("statemate", 4_001),
        ("ud", 3_999),
        ("wikisort", 2_779),
    ];
    assert_eq!(table.len(), REFERENCE_COUNT);
    for (name, score) in table {
        assert_eq!(reference_score(name), Some(score), "{}", name);
    }
}

#[test]
fn reference_lookup_is_exact() {
    assert_eq!(reference_score("aha-mont"), None);
    assert_eq!(reference_score("aha-mont64 "), None);
    assert_eq!(reference_score("AHA-MONT64"), None);
    assert_eq!(reference_score("sta"), None);
    assert_eq!(reference_score(""), None);
    assert_eq!(reference_score("st"), Some(4_080));
}

#[test]
fn names_match_compares_whole_names() {
    assert!(names_match("crc32", "crc32"));
    assert!(!names_match("crc32", "crc3"));
    assert!(!names_match("crc32", "crc33"));
    assert!(names_match("", ""));
    assert!(!names_match("é", "e"));
}

#[test]
fn trigger_pairs_start_with_stop() {
    let mut t = TriggerState::new();
    assert_eq!(t.start(10), Ok(()));
    assert_eq!(t.stop(52), Ok(()));
    assert_eq!(t.take_sample(), Ok(TimingSample { start_ms: 10, stop_ms: 52 }));
    assert_eq!(t, TriggerState::Idle);
}

#[test]
fn trigger_rejects_broken_pairing() {
    let mut t = TriggerState::new();
    assert_eq!(t.stop(5), Err(TriggerError::StopWithoutStart));
    assert_eq!(t.take_sample(), Err(TriggerError::Incomplete));
    assert_eq!(t.start(7), Ok(()));
    assert_eq!(t.start(8), Err(TriggerError::DoubleStart));
    assert_eq!(t, TriggerState::Started { start_ms: 7 });
    assert_eq!(t.take_sample(), Err(TriggerError::Incomplete));
    assert_eq!(t.stop(9), Ok(()));
    assert_eq!(t.start(10), Err(TriggerError::DoubleStart));
    assert_eq!(t.stop(11), Err(TriggerError::StopWithoutStart));
    assert_eq!(t.take_sample(), Ok(TimingSample { start_ms: 7, stop_ms: 9 }));
}

#[test]
fn duration_is_stop_minus_start() {
    assert_eq!(TimingSample { start_ms: 100, stop_ms: 140 }.duration_ms(), Some(40));
    assert_eq!(TimingSample { start_ms: 5, stop_ms: 5 }.duration_ms(), Some(0));
    assert_eq!(TimingSample { start_ms: 6, stop_ms: 5 }.duration_ms(), None);
}

#[test]
fn embench_run_of_equal_durations() {
    let reference = reference_score("aha-mont64").unwrap();
    assert_eq!(reference, 4_004);
    let mut run = RunLoop::new(LOOPS_COMPILED);
    assert_eq!(LOOPS_COMPILED, 100);
    let mut t = TriggerState::new();
    for i in 0..100u64 {
        assert!(!run.is_finished());
        assert_eq!(run.iteration(), i as usize + 1);
        t.start(1_000 * i).unwrap();
        t.stop(1_000 * i + 40).unwrap();
        let v = run.record(0, t.take_sample());
        if i < 99 {
            assert_eq!(v, Verdict::Continue);
        } else {
            assert_eq!(v, Verdict::Complete);
        }
    }
    assert!(run.is_finished());
    let durations = run.completed_durations().unwrap();
    assert_eq!(durations.len(), 100);
    assert!(durations.iter().all(|d| *d == 40));
    let n = durations.len() as f64;
    let speeds: Vec<f64> = durations.iter().map(|d| reference as f64 / *d as f64).collect();
    let mean = speeds.iter().map(|s| s.ln()).sum::<f64>() / n;
    let mean = mean.exp();
    let spread = (speeds.iter().map(|s| (s / mean).ln().powi(2)).sum::<f64>() / n).sqrt().exp();
    assert!((mean - 100.1).abs() < 1e-9 * 100.1);
    assert!((spread - 1.0).abs() < 1e-9);
}

#[test]
fn non_zero_status_aborts_the_run() {
    let mut run = RunLoop::new(100);
    assert_eq!(run.record(0, sample(0, 40)), Verdict::Continue);
    assert_eq!(run.record(0, sample(50, 90)), Verdict::Continue);
    let v = run.record(1, sample(100, 140));
    assert_eq!(v, Verdict::Abort(RunFailure::Status { iteration: 3, status: 1 }));
    assert!(run.is_finished());
    assert_eq!(run.failure_cause(), Some(RunFailure::Status { iteration: 3, status: 1 }));
    assert!(run.completed_durations().is_none());
}

#[test]
fn timing_defects_abort_the_run() {
    let mut run = RunLoop::new(5);
    assert_eq!(
        run.record(0, Err(TriggerError::Incomplete)),
        Verdict::Abort(RunFailure::Trigger { iteration: 1, error: TriggerError::Incomplete })
    );
    let mut run = RunLoop::new(5);
    run.record(0, sample(0, 3));
    assert_eq!(run.record(0, sample(9, 4)), Verdict::Abort(RunFailure::ClockDefect { iteration: 2 }));
    assert!(run.completed_durations().is_none());
    let mut run = RunLoop::new(5);
    assert_eq!(run.record(0, sample(4, 4)), Verdict::Abort(RunFailure::ZeroDuration { iteration: 1 }));
}

#[test]
fn status_is_checked_before_timing() {
    let mut run = RunLoop::new(2);
    assert_eq!(
        run.record(-1, Err(TriggerError::Incomplete)),
        Verdict::Abort(RunFailure::Status { iteration: 1, status: -1 })
    );
}

#[test]
fn single_iteration_run_completes_at_once() {
    let mut run = RunLoop::new(1);
    assert_eq!(run.record(0, sample(3, 10)), Verdict::Complete);
    assert_eq!(run.completed_durations().unwrap(), &vec![7]);
}

#[test]
fn run_in_progress_has_no_result() {
    let mut run = RunLoop::new(3);
    run.record(0, sample(0, 10));
    assert!(!run.is_finished());
    assert!(run.completed_durations().is_none());
    assert_eq!(run.failure_cause(), None);
}
