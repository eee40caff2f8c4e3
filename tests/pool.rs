use server::error_handler::Level;
use server::signal::ErrorType;
use server::thread_pool::{is_shutdown_command, Job, Submission, ThreadPool};
use server::worker::WorkerState;
use server::FnBox;
use std::sync::{Arc, Mutex};



/// Runs every worker in turn, one cycle each, until all have terminated or
/// `rounds` rounds have passed.
fn drive(pool: &mut ThreadPool<Job>, rounds: usize) {
    for _ in 0..rounds {
        let mut live = false;
        for i in 0..pool.worker_count() {
            if pool.worker_state(i) == WorkerState::Terminated {
                continue;
            }
            if let Some(job) = pool.next_job(i) {
                job.call_box();
                pool.job_done(i);
            }
            if pool.worker_state(i) != WorkerState::Terminated {
                pool.check_fatal(i);
            }
            if pool.worker_state(i) != WorkerState::Terminated {
                live = true;
            }
        }
        if !live {
            return;
        }
    }
}

fn counting_job(counter: &Arc<Mutex<usize>>) -> Job {
    let c = Arc::clone(counter);
    Box::new(move || {
        *c.lock().unwrap() += 1;
    })
}

#[test]
fn three_workers_ten_jobs_then_shutdown() {
    let counter = Arc::new(Mutex::new(0usize));
    let mut pool: ThreadPool<Job> = ThreadPool::new(3);
    for _ in 0..10 {
        assert_eq!(pool.execute(counting_job(&counter)), Submission::Queued);
    }
    assert_eq!(pool.kill(), 0);
    drive(&mut pool, 100);
    assert_eq!(*counter.lock().unwrap(), 10);
    assert!(pool.is_dead());
    assert_eq!(pool.live_worker_count(), 0);
}

#[test]
fn each_job_runs_once_in_submission_order() {
    for n in 1..6usize {
        let order = Arc::new(Mutex::new(Vec::new()));
        let mut pool: ThreadPool<Job> = ThreadPool::new(n);
        for k in 0..n {
            let o = Arc::clone(&order);
            let job: Job = Box::new(move || o.lock().unwrap().push(k));
            assert_eq!(pool.execute(job), Submission::Queued);
        }
        assert_eq!(pool.kill(), 0);
        drive(&mut pool, 100);
        let seen = order.lock().unwrap().clone();
        assert_eq!(seen, (0..n).collect::<Vec<usize>>());
        assert_eq!(pool.live_worker_count(), 0);
    }
}

#[test]
fn one_job_goes_to_one_worker() {
    let counter = Arc::new(Mutex::new(0usize));
    let mut pool: ThreadPool<Job> = ThreadPool::new(2);
    pool.execute(counting_job(&counter));
    let first = pool.next_job(0);
    assert!(first.is_some());
    assert_eq!(pool.worker_state(0), WorkerState::Executing);
    assert!(pool.next_job(1).is_none());
    assert_eq!(pool.worker_state(1), WorkerState::Polling);
    // A worker that is running a job takes nothing more.
    pool.execute(counting_job(&counter));
    assert!(pool.next_job(0).is_none());
    first.unwrap().call_box();
    pool.job_done(0);
    assert_eq!(pool.worker_state(0), WorkerState::Polling);
    assert_eq!(*counter.lock().unwrap(), 1);
    assert_eq!(pool.queued(), 1);
}

#[test]
fn shutdown_leaves_pool_dead_and_workers_terminated() {
    let mut pool: ThreadPool<Job> = ThreadPool::new(4);
    assert!(!pool.is_dead());
    assert_eq!(pool.kill(), 0);
    assert!(pool.is_dead());
    assert_eq!(pool.queued(), 4);
    drive(&mut pool, 10);
    for i in 0..4 {
        assert_eq!(pool.worker_state(i), WorkerState::Terminated);
    }
    assert_eq!(pool.live_worker_count(), 0);
}

#[test]
fn second_shutdown_sends_nothing() {
    let mut pool: ThreadPool<Job> = ThreadPool::new(3);
    assert_eq!(pool.kill(), 0);
    assert_eq!(pool.queued(), 3);
    assert_eq!(pool.kill(), 1);
    assert_eq!(pool.queued(), 3);
    assert!(pool.is_dead());
    assert_eq!(pool.take_log().len(), 0);
}

#[test]
fn job_after_death_is_dropped() {
    let counter = Arc::new(Mutex::new(0usize));
    let mut pool: ThreadPool<Job> = ThreadPool::new(2);
    assert_eq!(pool.kill(), 0);
    assert_eq!(pool.execute(counting_job(&counter)), Submission::Rejected);
    assert_eq!(pool.queued(), 2);
    drive(&mut pool, 10);
    assert_eq!(*counter.lock().unwrap(), 0);
}

#[test]
fn send_failure_kills_pool_and_logs_fatal() {
    let counter = Arc::new(Mutex::new(0usize));
    let mut pool: ThreadPool<Job> = ThreadPool::new(1);
    // The only worker meets a fatal signal and leaves the queue.
    pool.report(ErrorType::Fatal(String::from("disk gone")));
    pool.check_fatal(0);
    assert_eq!(pool.worker_state(0), WorkerState::Terminated);
    assert!(!pool.is_dead());
    assert_eq!(pool.execute(counting_job(&counter)), Submission::Failed);
    assert!(pool.is_dead());
    let log = pool.take_log();
    assert_eq!(log.len(), 2);
    assert_eq!(log[1].level, Level::Fatal);
    assert_eq!(log[1].message, "SendError { .. }");
    assert!(log[1].line().starts_with("ERROR::FATAL: SendError { .. } at "));
    assert_eq!(log[1].file(), "./logs/fatal.txt");
    assert_eq!(*counter.lock().unwrap(), 0);
}

#[test]
fn shutdown_after_workers_left_reports_failure() {
    let mut pool: ThreadPool<Job> = ThreadPool::new(1);
    pool.report(ErrorType::Fatal(String::from("gone")));
    pool.check_fatal(0);
    assert_eq!(pool.kill(), 2);
    assert!(pool.is_dead());
    let log = pool.take_log();
    assert_eq!(log.len(), 2);
    assert_eq!(log[1].message, "SendError { .. }");
}

#[test]
fn exit_command_fans_out_to_every_worker_and_prompt() {
    let mut pool: ThreadPool<Job> = ThreadPool::new(3);
    assert!(!pool.input_should_stop());
    assert!(!pool.input_line("hello\n"));
    assert!(!pool.is_dead());
    assert!(pool.input_line("exit\n"));
    assert!(pool.is_dead());
    assert_eq!(pool.error_handler().get_comms_sender().len(), 1);
    assert!(pool.close_step());
    assert_eq!(pool.error_handler().get_comms_sender().len(), 0);
    assert_eq!(pool.error_handler().get_err_recv().len(), 3);
    assert_eq!(pool.error_handler().get_input_recv().len(), 1);
    assert!(pool.input_should_stop());
    for i in 0..3 {
        pool.check_fatal(i);
        assert_eq!(pool.worker_state(i), WorkerState::Terminated);
    }
    assert_eq!(pool.live_worker_count(), 0);
    // The broadcast happens once.
    assert!(pool.close_step());
    assert_eq!(pool.error_handler().get_err_recv().len(), 0);
    assert_eq!(pool.error_handler().get_input_recv().len(), 0);
}

#[test]
fn fatal_on_worker_error_channel_fans_out() {
    let mut pool: ThreadPool<Job> = ThreadPool::new(2);
    pool.report(ErrorType::Fatal(String::from("boom")));
    assert_eq!(pool.error_handler().get_err_recv().len(), 1);
    assert!(pool.close_step());
    assert_eq!(pool.error_handler().get_err_recv().len(), 2);
    assert!(pool.input_should_stop());
    drive(&mut pool, 3);
    assert_eq!(pool.live_worker_count(), 0);
    let log = pool.take_log();
    assert_eq!(log.len(), 1);
    assert_eq!(log[0].level, Level::Fatal);
    assert_eq!(log[0].message, "boom");
}

#[test]
fn watcher_waits_without_fatal() {
    let mut pool: ThreadPool<Job> = ThreadPool::new(2);
    assert!(!pool.close_step());
    pool.report(ErrorType::NonFatal(String::from("slow disk")));
    assert!(!pool.close_step());
    assert_eq!(pool.error_handler().get_err_recv().len(), 0);
    let log = pool.take_log();
    assert_eq!(log.len(), 1);
    assert_eq!(log[0].level, Level::NonFatal);
    assert!(log[0].line().starts_with("ERROR::NON_FATAL: slow disk at "));
    assert_eq!(log[0].file(), "./logs/non_fatal.txt");
    assert!(!pool.is_dead());
}

#[test]
fn nothing_signal_is_ignored() {
    let mut pool: ThreadPool<Job> = ThreadPool::new(1);
    pool.report(ErrorType::Nothing(String::from("Nothing")));
    assert_eq!(pool.take_log().len(), 0);
    assert_eq!(pool.error_handler().get_err_recv().len(), 0);
}

#[test]
fn operator_line_is_trimmed() {
    let mut pool: ThreadPool<Job> = ThreadPool::new(1);
    assert!(!pool.input_line("Exit\n"));
    assert!(!pool.input_line("exit now\n"));
    assert!(!pool.is_dead());
    assert!(pool.input_line("  exit \r\n"));
    assert!(pool.is_dead());
}

#[test]
fn shutdown_keyword_is_exact() {
    assert!(is_shutdown_command("exit"));
    assert!(!is_shutdown_command(" exit"));
    assert!(!is_shutdown_command("EXIT"));
    assert!(!is_shutdown_command(""));
}

#[test]
fn boxed_job_runs() {
    let counter = Arc::new(Mutex::new(0usize));
    let job = counting_job(&counter);
    job.call_box();
    assert_eq!(*counter.lock().unwrap(), 1);
}

// The operator prompt learns of a shutdown decided elsewhere only at its next
// check, made before each read: a read already waiting for a line is not
// interrupted. This is kept as it is; the line read meanwhile is handled as
// usual, and the prompt stops at the check that follows.
#[test]
fn prompt_stops_only_at_its_next_check() {
    let mut pool: ThreadPool<Job> = ThreadPool::new(1);
    pool.report(ErrorType::Fatal(String::from("boom")));
    assert!(pool.close_step());
    assert!(!pool.input_line("status\n"));
    assert!(pool.input_should_stop());
    assert!(!pool.input_should_stop());
}
