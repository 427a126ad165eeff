use os3::config::{MAX_APP_NUM, MAX_SYSCALL_NUM};
use os3::task::{
    count_syscall, exit_current_and_run_next, get_task_info, init_task_time, run_first_task,
    suspend_current_and_run_next, Dispatch, TaskManager, TaskStatus,
};

const ENTRY: usize = 0x8020_0000;

fn booted(num_app: usize) -> TaskManager {
    let stacks: Vec<usize> = (0..num_app).map(|i| 0x9000_0000 + 0x2000 * i).collect();
    TaskManager::new(&stacks, ENTRY).expect("a table for this many applications")
}

fn statuses(manager: &TaskManager) -> Vec<TaskStatus> {
    (0..manager.num_app()).map(|id| manager.task(id).task_status).collect()
}

fn running(manager: &TaskManager) -> usize {
    statuses(manager).iter().filter(|status| **status == TaskStatus::Running).count()
}

#[test]
fn new_primes_every_task() {
    let manager = TaskManager::new(&[0x1000, 0x2000, 0x3000], ENTRY).unwrap();
    assert_eq!(manager.num_app(), 3);
    assert_eq!(manager.current(), 0);
    for (id, sp) in [0x1000usize, 0x2000, 0x3000].into_iter().enumerate() {
        let task = manager.task(id);
        assert_eq!(task.task_status, TaskStatus::Ready);
        assert_eq!(task.task_cx.ra, ENTRY);
        assert_eq!(task.task_cx.sp, sp);
        assert_eq!(task.task_cx.s, [0usize; 12]);
        assert_eq!(task.start_time_us, 0);
        assert_eq!(task.syscall_times, [0u32; MAX_SYSCALL_NUM]);
    }
}

#[test]
fn new_refuses_no_application() {
    assert!(TaskManager::new(&[], ENTRY).is_none());
}

#[test]
fn new_refuses_more_than_the_table_holds() {
    let stacks = vec![0x1000usize; MAX_APP_NUM + 1];
    assert!(TaskManager::new(&stacks, ENTRY).is_none());
}

#[test]
fn new_takes_a_full_table() {
    let stacks = vec![0x1000usize; MAX_APP_NUM];
    let manager = TaskManager::new(&stacks, ENTRY).unwrap();
    assert_eq!(manager.num_app(), MAX_APP_NUM);
    assert_eq!(statuses(&manager), vec![TaskStatus::Ready; MAX_APP_NUM]);
}

#[test]
fn new_takes_a_single_application() {
    let manager = TaskManager::new(&[0x1000], ENTRY).unwrap();
    assert_eq!(manager.num_app(), 1);
    assert_eq!(manager.find_next_task(), Some(0));
}

#[test]
fn run_first_task_marks_task_zero_running() {
    let mut manager = booted(3);
    manager.run_first_task();
    assert_eq!(manager.current(), 0);
    assert_eq!(
        statuses(&manager),
        vec![TaskStatus::Running, TaskStatus::Ready, TaskStatus::Ready]
    );
}

#[test]
fn free_run_first_task_marks_task_zero_running() {
    let mut manager = booted(2);
    run_first_task(&mut manager);
    assert_eq!(statuses(&manager), vec![TaskStatus::Running, TaskStatus::Ready]);
    assert_eq!(manager.current(), 0);
}

#[test]
fn mark_current_suspended_keeps_counters_and_start_time() {
    let mut manager = booted(2);
    manager.run_first_task();
    manager.init_current_task_start_time(1234);
    manager.count_syscall(7);
    manager.mark_current_suspended();
    let task = manager.task(0);
    assert_eq!(task.task_status, TaskStatus::Ready);
    assert_eq!(task.start_time_us, 1234);
    assert_eq!(task.syscall_times[7], 1);
    assert_eq!(manager.task(1).task_status, TaskStatus::Ready);
    assert_eq!(manager.current(), 0);
}

#[test]
fn mark_current_exited_marks_only_the_current_task() {
    let mut manager = booted(3);
    manager.run_first_task();
    manager.mark_current_exited();
    assert_eq!(
        statuses(&manager),
        vec![TaskStatus::Exited, TaskStatus::Ready, TaskStatus::Ready]
    );
    assert_eq!(manager.current(), 0);
}

#[test]
fn two_ready_tasks_next_is_one() {
    let mut manager = booted(2);
    assert_eq!(statuses(&manager), vec![TaskStatus::Ready, TaskStatus::Ready]);
    assert_eq!(manager.current(), 0);
    assert_eq!(manager.find_next_task(), Some(1));
    assert_eq!(manager.run_next_task(), Dispatch::Switch { from: 0, to: 1 });
    assert_eq!(manager.current(), 1);
    assert_eq!(manager.task(1).task_status, TaskStatus::Running);
}

#[test]
fn run_next_task_leaves_the_outgoing_status_alone() {
    let mut manager = booted(2);
    manager.run_first_task();
    assert_eq!(manager.run_next_task(), Dispatch::Switch { from: 0, to: 1 });
    assert_eq!(statuses(&manager), vec![TaskStatus::Running, TaskStatus::Running]);
}

#[test]
fn only_ready_task_is_found_from_scan_start_zero() {
    let mut manager = booted(3);
    manager.run_first_task();
    suspend_current_and_run_next(&mut manager);
    exit_current_and_run_next(&mut manager);
    suspend_current_and_run_next(&mut manager);
    manager.mark_current_exited();
    assert_eq!(
        statuses(&manager),
        vec![TaskStatus::Exited, TaskStatus::Exited, TaskStatus::Ready]
    );
    assert_eq!(manager.current(), 0);
    assert_eq!(manager.find_next_task(), Some(2));
}

#[test]
fn only_ready_task_is_found_from_scan_start_one() {
    let mut manager = booted(3);
    manager.run_first_task();
    exit_current_and_run_next(&mut manager);
    manager.mark_current_exited();
    assert_eq!(
        statuses(&manager),
        vec![TaskStatus::Exited, TaskStatus::Exited, TaskStatus::Ready]
    );
    assert_eq!(manager.current(), 1);
    assert_eq!(manager.find_next_task(), Some(2));
}

#[test]
fn only_ready_task_is_found_from_scan_start_two() {
    let mut manager = booted(3);
    manager.run_first_task();
    exit_current_and_run_next(&mut manager);
    exit_current_and_run_next(&mut manager);
    manager.mark_current_suspended();
    assert_eq!(
        statuses(&manager),
        vec![TaskStatus::Exited, TaskStatus::Exited, TaskStatus::Ready]
    );
    assert_eq!(manager.current(), 2);
    assert_eq!(manager.find_next_task(), Some(2));
}

#[test]
fn all_exited_means_all_completed() {
    let mut manager = booted(2);
    manager.run_first_task();
    assert_eq!(
        exit_current_and_run_next(&mut manager),
        Dispatch::Switch { from: 0, to: 1 }
    );
    assert_eq!(exit_current_and_run_next(&mut manager), Dispatch::AllCompleted);
    assert_eq!(statuses(&manager), vec![TaskStatus::Exited, TaskStatus::Exited]);
    assert_eq!(manager.find_next_task(), None);
    assert_eq!(manager.run_next_task(), Dispatch::AllCompleted);
    assert_eq!(statuses(&manager), vec![TaskStatus::Exited, TaskStatus::Exited]);
    assert_eq!(manager.current(), 1);
}

#[test]
fn find_next_task_skips_what_is_not_ready() {
    let mut manager = booted(4);
    manager.run_first_task();
    suspend_current_and_run_next(&mut manager);
    exit_current_and_run_next(&mut manager);
    assert_eq!(
        statuses(&manager),
        vec![TaskStatus::Ready, TaskStatus::Exited, TaskStatus::Running, TaskStatus::Ready]
    );
    assert_eq!(manager.find_next_task(), Some(3));
    suspend_current_and_run_next(&mut manager);
    assert_eq!(manager.current(), 3);
    assert_eq!(suspend_current_and_run_next(&mut manager), Dispatch::Switch { from: 3, to: 0 });
    assert_eq!(suspend_current_and_run_next(&mut manager), Dispatch::Switch { from: 0, to: 2 });
}

#[test]
fn current_task_comes_last_in_the_scan() {
    let mut manager = booted(3);
    manager.run_first_task();
    manager.mark_current_suspended();
    assert_eq!(manager.find_next_task(), Some(1));
    let mut alone = booted(1);
    alone.run_first_task();
    assert_eq!(alone.find_next_task(), None);
    assert_eq!(
        suspend_current_and_run_next(&mut alone),
        Dispatch::Switch { from: 0, to: 0 }
    );
    assert_eq!(alone.task(0).task_status, TaskStatus::Running);
}

#[test]
fn round_robin_visits_every_task_once_per_round() {
    let num_app = 5;
    let mut manager = booted(num_app);
    manager.run_first_task();
    let mut visited = Vec::new();
    for round in 1..=2 * num_app {
        let from = manager.current();
        let plan = suspend_current_and_run_next(&mut manager);
        assert_eq!(plan, Dispatch::Switch { from, to: (from + 1) % num_app });
        assert_eq!(manager.current(), round % num_app);
        visited.push(manager.current());
    }
    assert_eq!(visited, vec![1, 2, 3, 4, 0, 1, 2, 3, 4, 0]);
}

#[test]
fn repeated_run_next_task_walks_the_ready_tasks_in_order() {
    let mut manager = booted(4);
    let mut visited = Vec::new();
    for _ in 0..4 {
        match manager.run_next_task() {
            Dispatch::Switch { to, .. } => visited.push(to),
            Dispatch::AllCompleted => panic!("a ready task was left"),
        }
    }
    assert_eq!(visited, vec![1, 2, 3, 0]);
    assert_eq!(manager.run_next_task(), Dispatch::AllCompleted);
}

#[test]
fn at_most_one_task_runs_through_a_mixed_run() {
    let mut manager = booted(4);
    assert_eq!(running(&manager), 0);
    run_first_task(&mut manager);
    assert_eq!(running(&manager), 1);
    let mut exited: Vec<usize> = Vec::new();
    for step in 0..40usize {
        let plan = if step % 7 == 3 {
            exited.push(manager.current());
            exit_current_and_run_next(&mut manager)
        } else {
            count_syscall(&mut manager, step);
            init_task_time(&mut manager, 100 + step);
            suspend_current_and_run_next(&mut manager)
        };
        if plan == Dispatch::AllCompleted {
            assert_eq!(running(&manager), 0);
            assert_eq!(exited.len(), 4);
            return;
        }
        assert_eq!(running(&manager), 1);
        assert_eq!(manager.task(manager.current()).task_status, TaskStatus::Running);
        for id in &exited {
            assert_eq!(manager.task(*id).task_status, TaskStatus::Exited);
            assert_ne!(manager.find_next_task(), Some(*id));
            assert_ne!(manager.current(), *id);
        }
    }
    panic!("the run should have ended with every task exited");
}

#[test]
fn exited_task_is_never_picked_again() {
    let mut manager = booted(3);
    manager.run_first_task();
    suspend_current_and_run_next(&mut manager);
    exit_current_and_run_next(&mut manager);
    for _ in 0..10 {
        let plan = suspend_current_and_run_next(&mut manager);
        match plan {
            Dispatch::Switch { to, .. } => assert_ne!(to, 1),
            Dispatch::AllCompleted => panic!("two tasks are left"),
        }
        assert_eq!(manager.task(1).task_status, TaskStatus::Exited);
    }
}

#[test]
fn count_syscall_counts_for_the_current_task_only() {
    let mut manager = booted(2);
    manager.run_first_task();
    manager.count_syscall(64);
    manager.count_syscall(64);
    manager.count_syscall(0);
    manager.count_syscall(MAX_SYSCALL_NUM - 1);
    let mut expected = [0u32; MAX_SYSCALL_NUM];
    expected[64] = 2;
    expected[0] = 1;
    expected[MAX_SYSCALL_NUM - 1] = 1;
    assert_eq!(manager.task(0).syscall_times, expected);
    assert_eq!(manager.task(1).syscall_times, [0u32; MAX_SYSCALL_NUM]);
    suspend_current_and_run_next(&mut manager);
    count_syscall(&mut manager, 64);
    assert_eq!(manager.task(0).syscall_times, expected);
    assert_eq!(manager.task(1).syscall_times[64], 1);
}

#[test]
fn count_syscall_ignores_an_identifier_out_of_range() {
    let mut manager = booted(2);
    manager.run_first_task();
    manager.count_syscall(3);
    let before = manager.task(0).syscall_times;
    manager.count_syscall(MAX_SYSCALL_NUM);
    manager.count_syscall(MAX_SYSCALL_NUM + 1);
    manager.count_syscall(usize::MAX);
    count_syscall(&mut manager, MAX_SYSCALL_NUM);
    assert_eq!(manager.task(0).syscall_times, before);
    assert_eq!(manager.task(1).syscall_times, [0u32; MAX_SYSCALL_NUM]);
    assert_eq!(statuses(&manager), vec![TaskStatus::Running, TaskStatus::Ready]);
}

#[test]
fn report_before_any_start_is_zero() {
    let mut manager = booted(2);
    manager.run_first_task();
    let info = manager.get_current_task_info(123_456_789);
    assert_eq!(info.time, 0);
    assert_eq!(info.status, TaskStatus::Running);
    assert_eq!(info.syscall_times, [0u32; MAX_SYSCALL_NUM]);
}

#[test]
fn report_gives_whole_milliseconds_since_start() {
    let mut manager = booted(2);
    manager.run_first_task();
    manager.init_current_task_start_time(5_000);
    assert_eq!(manager.get_current_task_info(5_000).time, 0);
    assert_eq!(manager.get_current_task_info(5_999).time, 0);
    assert_eq!(manager.get_current_task_info(6_000).time, 1);
    assert_eq!(manager.get_current_task_info(5_000 + 1_234_567).time, 1_234);
    assert_eq!(get_task_info(&manager, 5_000 + 2_999).time, 2);
}

#[test]
fn report_carries_status_and_counters() {
    let mut manager = booted(2);
    manager.run_first_task();
    manager.count_syscall(169);
    manager.count_syscall(169);
    manager.count_syscall(410);
    let info = get_task_info(&manager, 10);
    assert_eq!(info.status, TaskStatus::Running);
    let mut expected = [0u32; MAX_SYSCALL_NUM];
    expected[169] = 2;
    expected[410] = 1;
    assert_eq!(info.syscall_times, expected);
    manager.mark_current_suspended();
    assert_eq!(manager.get_current_task_info(10).status, TaskStatus::Ready);
}

#[test]
fn start_time_is_recorded_once() {
    let mut manager = booted(2);
    manager.run_first_task();
    manager.init_current_task_start_time(777);
    assert_eq!(manager.task(0).start_time_us, 777);
    manager.init_current_task_start_time(999);
    assert_eq!(manager.task(0).start_time_us, 777);
    init_task_time(&mut manager, 1_000_000);
    assert_eq!(manager.task(0).start_time_us, 777);
    assert_eq!(manager.task(1).start_time_us, 0);
}

#[test]
fn start_time_is_per_task() {
    let mut manager = booted(2);
    manager.run_first_task();
    init_task_time(&mut manager, 100);
    suspend_current_and_run_next(&mut manager);
    init_task_time(&mut manager, 250);
    assert_eq!(manager.task(0).start_time_us, 100);
    assert_eq!(manager.task(1).start_time_us, 250);
    assert_eq!(manager.get_current_task_info(10_250).time, 10);
}

#[test]
fn operations_leave_saved_contexts_alone() {
    let mut manager = TaskManager::new(&[0x1000, 0x2000], ENTRY).unwrap();
    manager.run_first_task();
    manager.count_syscall(1);
    manager.init_current_task_start_time(5);
    suspend_current_and_run_next(&mut manager);
    exit_current_and_run_next(&mut manager);
    assert_eq!(manager.task(0).task_cx.sp, 0x1000);
    assert_eq!(manager.task(1).task_cx.sp, 0x2000);
    assert_eq!(manager.task(0).task_cx.ra, ENTRY);
    assert_eq!(manager.task(1).task_cx.ra, ENTRY);
}
