use nml::manager::{start_all_tasks, TaskError, TaskManager};
use nml::task::{Step, Task, TaskKind, TaskRunner};
use std::sync::atomic::{AtomicUsize, Ordering};
use std::sync::{Arc, Mutex};
use std::time::{Duration, Instant};

fn task_named(name: &str, interval: Option<u64>) -> Task {
    Task::new(name.to_string(), TaskKind::DynamicCpuUsage, interval, Vec::new())
}

fn runtime() -> tokio::runtime::Runtime {
    tokio::runtime::Builder::new_multi_thread().worker_threads(2).enable_all().build().unwrap()
}

async fn drive(mut runner: TaskRunner, starts: Arc<Mutex<Vec<Instant>>>) {
    loop {
        match runner.next_step() {
            Step::Wait(ms) => tokio::time::sleep(Duration::from_millis(ms)).await,
            Step::Invoke { .. } => starts.lock().unwrap().push(Instant::now()),
            Step::Yield => tokio::task::yield_now().await,
            Step::Exit => break,
        }
    }
}

fn pause_for(runtime: &tokio::runtime::Runtime, ms: u64) {
    runtime.block_on(async { tokio::time::sleep(Duration::from_millis(ms)).await });
}

#[test]
fn an_empty_registry_knows_no_task() {
    let manager: TaskManager<u32> = TaskManager::new();
    assert_eq!(manager.query_task_status("anything"), None);
    assert_eq!(manager.query_task_status(""), None);
}

#[test]
fn a_registered_task_is_started_and_switched_on() {
    let mut manager: TaskManager<u32> = TaskManager::new();
    let started = Arc::new(AtomicUsize::new(0));
    let counter = started.clone();
    let result = manager.add_and_start_task(task_named("cpu", Some(5)), move |runner: TaskRunner| {
        assert_eq!(runner.interval(), Some(5));
        counter.fetch_add(1, Ordering::SeqCst);
        11
    });
    assert_eq!(result, Ok(()));
    assert_eq!(started.load(Ordering::SeqCst), 1);
    assert_eq!(manager.query_task_status("cpu"), Some(true));
    assert_eq!(manager.query_task_status("cpu "), None);
    assert_eq!(manager.query_task_status("CPU"), None);
}

#[test]
fn a_name_collision_fails_and_starts_nothing() {
    let mut manager: TaskManager<u32> = TaskManager::new();
    assert_eq!(manager.add_and_start_task(task_named("cpu", None), |_runner: TaskRunner| 1), Ok(()));
    manager.pause_task("cpu");
    let started = Arc::new(AtomicUsize::new(0));
    let counter = started.clone();
    let result = manager.add_and_start_task(task_named("cpu", Some(9)), move |_runner: TaskRunner| {
        counter.fetch_add(1, Ordering::SeqCst);
        2
    });
    assert_eq!(result, Err(TaskError::NameTaken));
    assert_eq!(started.load(Ordering::SeqCst), 0);
    assert_eq!(manager.query_task_status("cpu"), Some(false));
    let mut joined: Vec<u32> = Vec::new();
    manager.remove_task("cpu", |handle: u32| joined.push(handle));
    assert_eq!(joined, vec![1]);
}

#[test]
fn pause_and_resume_touch_the_named_task_only() {
    let mut manager: TaskManager<u32> = TaskManager::new();
    assert_eq!(manager.add_and_start_task(task_named("a", None), |_runner: TaskRunner| 1), Ok(()));
    assert_eq!(manager.add_and_start_task(task_named("b", None), |_runner: TaskRunner| 2), Ok(()));
    manager.pause_task("a");
    assert_eq!(manager.query_task_status("a"), Some(false));
    assert_eq!(manager.query_task_status("b"), Some(true));
    manager.pause_task("b");
    manager.resume_task("a");
    assert_eq!(manager.query_task_status("a"), Some(true));
    assert_eq!(manager.query_task_status("b"), Some(false));
}

#[test]
fn pause_resume_and_remove_of_an_absent_name_do_nothing() {
    let mut manager: TaskManager<u32> = TaskManager::new();
    assert_eq!(manager.add_and_start_task(task_named("a", None), |_runner: TaskRunner| 1), Ok(()));
    manager.pause_task("missing");
    manager.resume_task("missing");
    let mut joined: Vec<u32> = Vec::new();
    manager.remove_task("missing", |handle: u32| joined.push(handle));
    assert!(joined.is_empty());
    assert_eq!(manager.query_task_status("a"), Some(true));
    assert_eq!(manager.query_task_status("missing"), None);
}

#[test]
fn remove_joins_the_loop_and_frees_the_name() {
    let mut manager: TaskManager<u32> = TaskManager::new();
    let probe = Arc::new(Mutex::new(None));
    let slot = probe.clone();
    assert_eq!(
        manager.add_and_start_task(task_named("a", None), move |runner: TaskRunner| {
            *slot.lock().unwrap() = Some(runner);
            41
        }),
        Ok(())
    );
    assert_eq!(manager.add_and_start_task(task_named("b", None), |_runner: TaskRunner| 42), Ok(()));
    let mut runner = probe.lock().unwrap().take().unwrap();
    assert_eq!(runner.next_step(), Step::Invoke { first: true });
    assert_eq!(runner.next_step(), Step::Yield);
    let mut joined: Vec<(u32, Step)> = Vec::new();
    manager.remove_task("a", |handle: u32| joined.push((handle, runner.next_step())));
    assert_eq!(joined, vec![(41, Step::Exit)]);
    assert_eq!(manager.query_task_status("a"), None);
    assert_eq!(manager.query_task_status("b"), Some(true));
    assert_eq!(runner.next_step(), Step::Exit);
    assert_eq!(manager.add_and_start_task(task_named("a", None), |_runner: TaskRunner| 43), Ok(()));
    assert_eq!(manager.query_task_status("a"), Some(true));
    let mut rejoined: Vec<u32> = Vec::new();
    manager.remove_task("a", |handle: u32| rejoined.push(handle));
    manager.remove_task("b", |handle: u32| rejoined.push(handle));
    assert_eq!(rejoined, vec![43, 42]);
}

#[test]
fn all_tasks_are_the_cpu_usage_task() {
    let mut manager: TaskManager<u32> = TaskManager::new();
    let probe = Arc::new(Mutex::new(None));
    let slot = probe.clone();
    let result = start_all_tasks("machine-1".to_string(), &mut manager, move |runner: TaskRunner| {
        *slot.lock().unwrap() = Some(runner);
        5
    });
    assert_eq!(result, Ok(()));
    assert_eq!(manager.query_task_status("dynamic_cpu_usage"), Some(true));
    let mut runner = probe.lock().unwrap().take().unwrap();
    assert_eq!(runner.interval(), None);
    assert_eq!(runner.kind(), TaskKind::DynamicCpuUsage);
    assert_eq!(runner.next_step(), Step::Invoke { first: true });
    assert_eq!(runner.next_step(), Step::Yield);
    assert_eq!(runner.next_step(), Step::Invoke { first: false });
    let again = start_all_tasks("machine-1".to_string(), &mut manager, |_runner: TaskRunner| 6);
    assert_eq!(again, Err(TaskError::NameTaken));
    let mut joined: Vec<u32> = Vec::new();
    manager.remove_task("dynamic_cpu_usage", |handle: u32| joined.push(handle));
    assert_eq!(joined, vec![5]);
}

#[test]
fn a_running_task_keeps_its_interval() {
    let runtime = runtime();
    let starts = Arc::new(Mutex::new(Vec::new()));
    let mut manager: TaskManager<tokio::task::JoinHandle<()>> = TaskManager::new();
    let log = starts.clone();
    let begun = Instant::now();
    let result = manager.add_and_start_task(task_named("tick", Some(30)), |runner: TaskRunner| {
        runtime.spawn(drive(runner, log))
    });
    assert_eq!(result, Ok(()));
    pause_for(&runtime, 400);
    manager.remove_task("tick", |handle: tokio::task::JoinHandle<()>| {
        runtime.block_on(handle).unwrap();
    });
    let ran_for = begun.elapsed();
    let seen = starts.lock().unwrap().clone();
    assert!(seen.len() >= 3, "only {} invocations", seen.len());
    assert!(seen.len() as u128 <= ran_for.as_millis() / 30 + 1, "{} invocations", seen.len());
    let mut i: usize = 1;
    while i < seen.len() {
        assert!(seen[i].duration_since(seen[i - 1]) >= Duration::from_millis(30));
        i += 1;
    }
}

#[test]
fn a_paused_task_is_not_invoked_until_resumed() {
    let runtime = runtime();
    let starts = Arc::new(Mutex::new(Vec::new()));
    let mut manager: TaskManager<tokio::task::JoinHandle<()>> = TaskManager::new();
    let log = starts.clone();
    let result = manager.add_and_start_task(task_named("tick", Some(10)), |runner: TaskRunner| {
        runtime.spawn(drive(runner, log))
    });
    assert_eq!(result, Ok(()));
    pause_for(&runtime, 100);
    manager.pause_task("tick");
    assert_eq!(manager.query_task_status("tick"), Some(false));
    pause_for(&runtime, 250);
    let paused_at = starts.lock().unwrap().len();
    assert!(paused_at >= 1);
    pause_for(&runtime, 300);
    assert_eq!(starts.lock().unwrap().len(), paused_at);
    manager.resume_task("tick");
    assert_eq!(manager.query_task_status("tick"), Some(true));
    pause_for(&runtime, 600);
    assert!(starts.lock().unwrap().len() > paused_at);
    manager.remove_task("tick", |handle: tokio::task::JoinHandle<()>| {
        runtime.block_on(handle).unwrap();
    });
}

#[test]
fn a_removed_task_is_never_invoked_again() {
    let runtime = runtime();
    let starts = Arc::new(Mutex::new(Vec::new()));
    let mut manager: TaskManager<tokio::task::JoinHandle<()>> = TaskManager::new();
    let log = starts.clone();
    let result = manager.add_and_start_task(task_named("tick", None), |runner: TaskRunner| {
        runtime.spawn(drive(runner, log))
    });
    assert_eq!(result, Ok(()));
    pause_for(&runtime, 50);
    let mut joined: usize = 0;
    manager.remove_task("tick", |handle: tokio::task::JoinHandle<()>| {
        runtime.block_on(handle).unwrap();
        joined += 1;
    });
    assert_eq!(joined, 1);
    let at_removal = starts.lock().unwrap().len();
    assert!(at_removal >= 1);
    assert_eq!(manager.query_task_status("tick"), None);
    pause_for(&runtime, 100);
    assert_eq!(starts.lock().unwrap().len(), at_removal);
    let log = starts.clone();
    let again = manager.add_and_start_task(task_named("tick", Some(20)), |runner: TaskRunner| {
        runtime.spawn(drive(runner, log))
    });
    assert_eq!(again, Ok(()));
    pause_for(&runtime, 100);
    assert!(starts.lock().unwrap().len() > at_removal);
    manager.remove_task("tick", |handle: tokio::task::JoinHandle<()>| {
        runtime.block_on(handle).unwrap();
    });
}
