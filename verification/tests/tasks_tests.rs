use blaze_app::tasks::{
    TaskManager, TaskProgress, TaskMessage, TaskStatus, FINISHED_VISIBLE_MS, PROGRESS_DONE_BITS,
    PROGRESS_ZERO_BITS,
};

#[derive(Clone, Copy, Debug, PartialEq, Eq)]
enum Kind {
    Copy,
    Delete,
}

fn by_id(tasks: &[TaskProgress<Kind>], id: u64) -> &TaskProgress<Kind> {
    tasks.iter().find(|t| t.task_id == id).expect("task listed")
}

#[test]
fn started_task_is_running_with_no_progress() {
    let mut m: TaskManager<Kind> = TaskManager::new();
    m.start_task(1, "copiando".to_string(), Kind::Copy);
    let tasks = m.get_tasks(0);
    assert_eq!(tasks.len(), 1);
    assert_eq!(tasks[0].task_id, 1);
    assert_eq!(tasks[0].text, "copiando");
    assert_eq!(tasks[0].status, TaskStatus::Running);
    assert_eq!(tasks[0].progress_bits, PROGRESS_ZERO_BITS);
    assert_eq!(tasks[0].task_kind, Kind::Copy);
    assert_eq!(tasks[0].finished_at, None);
}

#[test]
fn restarting_an_id_replaces_the_task() {
    let mut m: TaskManager<Kind> = TaskManager::new();
    m.start_task(1, "a".to_string(), Kind::Copy);
    m.start_task(2, "b".to_string(), Kind::Copy);
    m.update_task(1, 0.5f32.to_bits(), "a half".to_string(), Kind::Copy);
    m.start_task(1, "again".to_string(), Kind::Delete);
    let tasks = m.get_tasks(0);
    assert_eq!(tasks.len(), 2);
    assert_eq!(by_id(&tasks, 1).text, "again");
    assert_eq!(by_id(&tasks, 1).progress_bits, PROGRESS_ZERO_BITS);
    assert_eq!(by_id(&tasks, 1).task_kind, Kind::Delete);
    assert_eq!(by_id(&tasks, 2).text, "b");
}

#[test]
fn progress_updates_text_and_value() {
    let mut m: TaskManager<Kind> = TaskManager::new();
    m.start_task(7, "x".to_string(), Kind::Copy);
    m.update_task(7, 0.25f32.to_bits(), "25%".to_string(), Kind::Delete);
    let t = &m.get_tasks(0)[0];
    assert_eq!(f32::from_bits(t.progress_bits), 0.25);
    assert_eq!(t.text, "25%");
    assert_eq!(t.task_kind, Kind::Copy);
    assert_eq!(t.status, TaskStatus::Running);
}

#[test]
fn reports_for_unknown_tasks_are_ignored() {
    let mut m: TaskManager<Kind> = TaskManager::new();
    m.start_task(1, "x".to_string(), Kind::Copy);
    m.update_task(2, 0.5f32.to_bits(), "other".to_string(), Kind::Copy);
    m.finish_task(3, true, Kind::Copy, 10);
    let tasks = m.get_tasks(10);
    assert_eq!(tasks.len(), 1);
    assert_eq!(tasks[0].text, "x");
    assert_eq!(tasks[0].status, TaskStatus::Running);
}

#[test]
fn finished_task_shows_its_outcome_for_three_seconds() {
    let mut m: TaskManager<Kind> = TaskManager::new();
    m.start_task(1, "ok".to_string(), Kind::Copy);
    m.start_task(2, "bad".to_string(), Kind::Delete);
    m.finish_task(1, true, Kind::Copy, 1_000);
    m.finish_task(2, false, Kind::Delete, 2_000);
    let at_start = m.get_tasks(1_000);
    assert_eq!(at_start.len(), 2);
    assert_eq!(by_id(&at_start, 1).status, TaskStatus::FinishedSuccess);
    assert_eq!(by_id(&at_start, 1).progress_bits, PROGRESS_DONE_BITS);
    assert_eq!(f32::from_bits(by_id(&at_start, 1).progress_bits), 1.0);
    assert_eq!(by_id(&at_start, 1).finished_at, Some(1_000));
    assert_eq!(by_id(&at_start, 2).status, TaskStatus::FinishedError);
    let before = m.get_tasks(1_000 + FINISHED_VISIBLE_MS - 1);
    assert_eq!(before.len(), 2);
    let after = m.get_tasks(1_000 + FINISHED_VISIBLE_MS);
    assert_eq!(after.len(), 1);
    assert_eq!(after[0].task_id, 2);
    let later = m.get_tasks(2_000 + FINISHED_VISIBLE_MS);
    assert!(later.is_empty());
}

#[test]
fn running_tasks_never_expire() {
    let mut m: TaskManager<Kind> = TaskManager::new();
    m.start_task(1, "long".to_string(), Kind::Copy);
    assert_eq!(m.get_tasks(u64::MAX).len(), 1);
}

#[test]
fn asking_twice_gives_the_same_list() {
    let mut m: TaskManager<Kind> = TaskManager::new();
    m.start_task(1, "a".to_string(), Kind::Copy);
    m.start_task(2, "b".to_string(), Kind::Copy);
    m.finish_task(1, true, Kind::Copy, 0);
    let first: Vec<u64> = m.get_tasks(5_000).iter().map(|t| t.task_id).collect();
    let second: Vec<u64> = m.get_tasks(5_000).iter().map(|t| t.task_id).collect();
    assert_eq!(first, vec![2]);
    assert_eq!(first, second);
}

#[test]
fn messages_drive_the_manager() {
    let mut m: TaskManager<Kind> = TaskManager::new();
    m.process_message(
        TaskMessage::Started { task_id: 9, text: "mover".to_string(), task_type: Kind::Copy },
        0,
    );
    m.process_message(
        TaskMessage::Progress {
            task_id: 9,
            progress_bits: 0.5f32.to_bits(),
            text: "mitad".to_string(),
            task_type: Kind::Copy,
        },
        0,
    );
    assert_eq!(m.get_tasks(0)[0].text, "mitad");
    m.process_message(
        TaskMessage::Finished {
            task_id: 9,
            success: true,
            task_type: Kind::Copy,
            text: "fin".to_string(),
        },
        100,
    );
    let t = &m.get_tasks(100)[0];
    assert_eq!(t.status, TaskStatus::FinishedSuccess);
    assert_eq!(t.text, "mitad");
    assert_eq!(t.finished_at, Some(100));
    assert!(m.get_tasks(3_100).is_empty());
}

#[test]
fn a_finish_time_after_now_counts_as_no_time() {
    let mut m: TaskManager<Kind> = TaskManager::new();
    m.start_task(1, "a".to_string(), Kind::Copy);
    m.finish_task(1, true, Kind::Copy, 10_000);
    assert_eq!(m.get_tasks(5).len(), 1);
}

#[test]
fn status_icons() {
    assert_eq!(TaskStatus::Running.icon(), "⏳");
    assert_eq!(TaskStatus::FinishedSuccess.icon(), "✅");
    assert_eq!(TaskStatus::FinishedError.icon(), "❌");
}
