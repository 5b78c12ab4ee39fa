use tts_lib::probe::DEFAULT_PROBE_ATTEMPTS;
use tts_lib::probe::DEFAULT_PROBE_INTERVAL_MS;
use tts_lib::probe::NotReadyError;
use tts_lib::probe::ProbeStep;
use tts_lib::probe::await_ready_outcome;
use tts_lib::probe::probe_step;
use tts_lib::slot::FileProbe;

fn absent() -> FileProbe {
    FileProbe { exists: false, size: 0 }
}

fn written() -> FileProbe {
    FileProbe { exists: true, size: 4096 }
}

#[test]
fn default_policy_is_bounded() {
    assert_eq!(DEFAULT_PROBE_ATTEMPTS, 5);
    assert_eq!(DEFAULT_PROBE_INTERVAL_MS, 100);
}

#[test]
fn file_written_after_one_interval_succeeds() {
    // The write lands 50ms in; with a 100ms interval the first attempt still
    // sees nothing and the second sees the finished file.
    let observations = vec![absent(), written(), written(), written(), written()];
    assert_eq!(await_ready_outcome(&observations, 5), Ok(2));
}

#[test]
fn file_already_complete_succeeds_at_once() {
    let observations = vec![written(), absent(), absent(), absent(), absent()];
    assert_eq!(await_ready_outcome(&observations, 5), Ok(1));
}

#[test]
fn file_never_written_fails_after_exactly_five_attempts() {
    let observations = vec![absent(); 5];
    assert_eq!(await_ready_outcome(&observations, 5), Err(NotReadyError));
}

#[test]
fn empty_file_never_counts_as_ready() {
    let empty = FileProbe { exists: true, size: 0 };
    let observations = vec![empty, empty, empty, empty, empty];
    assert_eq!(await_ready_outcome(&observations, 5), Err(NotReadyError));
}

#[test]
fn success_on_the_last_allowed_attempt() {
    let observations = vec![absent(), absent(), absent(), absent(), written()];
    assert_eq!(await_ready_outcome(&observations, 5), Ok(5));
}

#[test]
fn step_decisions() {
    assert_eq!(probe_step(&written(), 0, 5), ProbeStep::Ready);
    assert_eq!(probe_step(&absent(), 0, 5), ProbeStep::Retry);
    assert_eq!(probe_step(&absent(), 3, 5), ProbeStep::Retry);
    assert_eq!(probe_step(&absent(), 4, 5), ProbeStep::Exhausted);
    assert_eq!(probe_step(&written(), 4, 5), ProbeStep::Ready);
}
