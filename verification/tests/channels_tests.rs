use blaze_app::channels::{ChannelPool, MessageKinds, Notify, NotifyingSender, Routable};
use crossbeam_channel::Sender;
use std::sync::atomic::{AtomicUsize, Ordering};
use std::sync::Arc;

#[derive(Debug, PartialEq)]
struct FileMsg(u32);
#[derive(Debug, PartialEq)]
struct TaskMsg(u32);

struct Kinds;

impl MessageKinds for Kinds {
    type FileMsg = FileMsg;
    type TaskMsg = TaskMsg;
    type SearchMsg = u8;
    type UiMsg = u16;
    type OpMsg = u32;
    type SizeMsg = u64;
    type InfoMsg = i32;
    type ThumbMsg = i64;
}

#[derive(Clone)]
struct Counter(Arc<AtomicUsize>);

impl Notify for Counter {
    fn notify(&self) {
        self.0.fetch_add(1, Ordering::SeqCst);
    }
}

impl Routable<Kinds, Counter> for FileMsg {
    fn sender(ns: &NotifyingSender<Kinds, Counter>) -> &Sender<Self> {
        ns.file_sender()
    }
}

impl Routable<Kinds, Counter> for TaskMsg {
    fn sender(ns: &NotifyingSender<Kinds, Counter>) -> &Sender<Self> {
        ns.task_sender()
    }
}

fn counter() -> Counter {
    Counter(Arc::new(AtomicUsize::new(0)))
}

#[test]
fn a_tab_without_notifier_gets_channels_but_no_sender() {
    let mut pool: ChannelPool<Kinds, Counter> = ChannelPool::new();
    assert!(!pool.has_channel(1));
    assert!(pool.get_notifying_sender(1).is_none());
    assert!(pool.has_channel(1));
    assert_eq!(pool.active_file_channels(), 1);
}

#[test]
fn sending_reaches_the_tab_and_wakes_it() {
    let mut pool: ChannelPool<Kinds, Counter> = ChannelPool::new();
    let c = counter();
    pool.register_notifier(5, c.clone());
    let ns = pool.get_notifying_sender(5).expect("a registered tab gets senders");
    assert_eq!(ns.tab_id(), 5);
    assert!(ns.send(FileMsg(1)).is_ok());
    assert!(ns.send(FileMsg(2)).is_ok());
    assert!(ns.send(TaskMsg(3)).is_ok());
    assert_eq!(c.0.load(Ordering::SeqCst), 3);
    assert_eq!(pool.file_channels.take_waiting(5), vec![FileMsg(1), FileMsg(2)]);
    assert_eq!(pool.task_channels.take_waiting(5), vec![TaskMsg(3)]);
    assert!(pool.file_channels.take_waiting(5).is_empty());
    assert!(pool.file_channels.take_waiting(6).is_empty());
    pool.notify(5);
    pool.notify(6);
    assert_eq!(c.0.load(Ordering::SeqCst), 4);
}

#[test]
fn asking_again_reuses_the_channels() {
    let mut pool: ChannelPool<Kinds, Counter> = ChannelPool::new();
    pool.register_notifier(1, counter());
    let first = pool.get_notifying_sender(1).unwrap();
    let second = pool.get_notifying_sender(1).unwrap();
    first.send(FileMsg(10)).unwrap();
    second.send(FileMsg(11)).unwrap();
    assert_eq!(pool.active_file_channels(), 1);
    assert_eq!(pool.file_channels.take_waiting(1), vec![FileMsg(10), FileMsg(11)]);
}

#[test]
fn requeued_messages_keep_their_order() {
    let mut pool: ChannelPool<Kinds, Counter> = ChannelPool::new();
    pool.register_notifier(2, counter());
    let ns = pool.get_notifying_sender(2).unwrap();
    ns.send(FileMsg(1)).unwrap();
    ns.send(FileMsg(2)).unwrap();
    pool.drain_file_loading_messages(2);
    pool.drain_file_loading_messages(3);
    assert_eq!(pool.file_channels.take_waiting(2), vec![FileMsg(1), FileMsg(2)]);
}

#[test]
fn removing_a_tab() {
    let mut pool: ChannelPool<Kinds, Counter> = ChannelPool::new();
    let c = counter();
    pool.register_notifier(3, c.clone());
    let ns = pool.get_notifying_sender(3).unwrap();
    ns.send(FileMsg(1)).unwrap();
    assert!(pool.remove_tab(3));
    assert!(!pool.has_channel(3));
    assert!(pool.recursive_channels.contains(3));
    assert!(!pool.task_channels.contains(3));
    assert!(!pool.remove_tab(3));
    assert!(pool.get_notifying_sender(3).is_none());
    assert_eq!(ns.send(FileMsg(2)), Err(FileMsg(2)));
    assert_eq!(c.0.load(Ordering::SeqCst), 1);
}

#[test]
fn other_tabs_are_untouched() {
    let mut pool: ChannelPool<Kinds, Counter> = ChannelPool::new();
    pool.register_notifier(1, counter());
    pool.register_notifier(2, counter());
    pool.get_notifying_sender(1).unwrap();
    pool.get_notifying_sender(2).unwrap();
    assert!(pool.remove_tab(1));
    assert!(pool.has_channel(2));
    assert!(pool.get_notifying_sender(2).is_some());
    assert_eq!(pool.active_file_channels(), 1);
}

#[test]
fn getters_hand_out_the_tab_senders() {
    let mut pool: ChannelPool<Kinds, Counter> = ChannelPool::new();
    pool.register_notifier(8, counter());
    let ns = pool.get_notifying_sender(8).unwrap();
    ns.file_sender().send(FileMsg(4)).unwrap();
    ns.task_sender().send(TaskMsg(5)).unwrap();
    ns.thumbnails_sender().send(-1).unwrap();
    assert_eq!(pool.file_channels.take_waiting(8), vec![FileMsg(4)]);
    assert_eq!(pool.task_channels.take_waiting(8), vec![TaskMsg(5)]);
    assert_eq!(pool.thumbnails_channels.take_waiting(8), vec![-1]);
}

#[test]
fn asking_again_keeps_queued_messages() {
    let mut pool: ChannelPool<Kinds, Counter> = ChannelPool::new();
    pool.register_notifier(4, counter());
    let first = pool.get_notifying_sender(4).unwrap();
    first.send(TaskMsg(1)).unwrap();
    let _second = pool.get_notifying_sender(4).unwrap();
    first.send(TaskMsg(2)).unwrap();
    assert_eq!(pool.task_channels.take_waiting(4), vec![TaskMsg(1), TaskMsg(2)]);
}
