use vstd::prelude::*;
use std::collections::HashMap;
use crossbeam_channel::{Receiver, Sender};

verus! {

broadcast use vstd::std_specs::hash::group_hash_axioms;

#[verifier::external_type_specification]
#[verifier::external_body]
#[verifier::reject_recursive_types(T)]
pub struct ExSender<T>(Sender<T>);

#[verifier::external_type_specification]
#[verifier::external_body]
#[verifier::reject_recursive_types(T)]
pub struct ExReceiver<T>(Receiver<T>);

/// `crossbeam_channel::unbounded`: a new channel with no bound on the
/// number of waiting messages. Nothing is stated of the pair: it is opaque.
#[verifier::external_body]
fn unbounded_channel<M>() -> (Sender<M>, Receiver<M>) {
    crossbeam_channel::unbounded()
}

/// `Sender::clone` of crossbeam_channel: another handle on the same
/// channel. Its source copies the handle's pointer to the channel's shared
/// counter (and counts one sender more), so the contract states that the
/// clone is the same handle value as the original: messages sent through
/// either reach the same receivers.
#[verifier::external_body]
fn clone_sender<M>(s: &Sender<M>) -> (r: Sender<M>)
    ensures
        r == *s,
{
    s.clone()
}

/// `Receiver::try_iter` of crossbeam_channel, collected: the messages that
/// are waiting now, oldest first. What is waiting depends on the other
/// threads, so nothing is stated of it.
#[verifier::external_body]
fn take_waiting<M>(r: &Receiver<M>) -> Vec<M> {
    r.try_iter().collect()
}

/// `Sender::send` of crossbeam_channel. Its source and documentation show
/// that a message that could not be sent (every receiver is gone) comes
/// back in the error: the contract says that an `Err` holds the message
/// itself. Whether it can be sent depends on the receivers, so which of
/// `Ok` and `Err` comes back is not stated.
#[verifier::external_body]
fn send_message<M>(s: &Sender<M>, msg: M) -> (r: Result<(), M>)
    ensures
        r matches Err(m) ==> m == msg,
{
    match s.send(msg) {
        Ok(()) => Ok(()),
        Err(e) => Err(e.0),
    }
}

/// A conflict that a file operation reports to the interface: a file of
/// that name already exists at that path.
#[derive(Debug)]
pub enum FileConflict {
    AlreadyExist { name: String, path: String },
}

/// The channels of one kind of message, one per tab, keyed by the tab's id.
#[verifier::reject_recursive_types(M)]
pub struct TabChannels<M> {
    channels: HashMap<u128, (Sender<M>, Receiver<M>)>,
}

impl<M> TabChannels<M> {
    /// The channel of each tab: the sender and the receiver kept for it.
    pub closed spec fn pairs(&self) -> Map<u128, (Sender<M>, Receiver<M>)> {
        self.channels@
    }

    /// The tabs that have a channel.
    pub open spec fn tabs(&self) -> Set<u128> {
        self.pairs().dom()
    }

    /// `after` holds a channel for `tab` too, and every channel of `self`
    /// is kept in it as it was (the same sender and receiver).
    pub open spec fn gains_channel(&self, after: &Self, tab: u128) -> bool {
        &&& after.tabs() == self.tabs().insert(tab)
        &&& forall|t: u128| #[trigger] self.pairs().contains_key(t) ==> after.pairs()[t] == self.pairs()[t]
    }

    pub fn new() -> (c: Self)
        ensures
            c.tabs() == Set::<u128>::empty(),
    {
        TabChannels { channels: HashMap::new() }
    }

    /// A sender on the tab's channel, which is created first if the tab has
    /// none; a channel that exists, the tab's or another's, is kept. The
    /// sender handed out is the one kept for the tab.
    pub fn sender(&mut self, tab: u128) -> (s: Sender<M>)
        ensures
            old(self).gains_channel(final(self), tab),
            s == final(self).pairs()[tab].0,
    {
        match self.channels.get(&tab) {
            Some(pair) => {
                assert(self.channels@.dom().insert(tab) =~= self.channels@.dom());
                clone_sender(&pair.0)
            },
            None => {
                let (tx, rx) = unbounded_channel();
                let s = clone_sender(&tx);
                self.channels.insert(tab, (tx, rx));
                s
            },
        }
    }

    /// Whether the tab has a channel.
    pub fn contains(&self, tab: u128) -> (b: bool)
        ensures
            b == self.tabs().contains(tab),
    {
        self.channels.contains_key(&tab)
    }

    /// The number of tabs that have a channel.
    pub fn len(&self) -> (n: usize)
        ensures
            n == self.tabs().len(),
    {
        self.channels.len()
    }

    /// Removes the tab's channel, discarding the messages that wait in it;
    /// tells whether there was one.
    pub fn remove(&mut self, tab: u128) -> (removed: bool)
        ensures
            removed == old(self).tabs().contains(tab),
            final(self).pairs() == old(self).pairs().remove(tab),
    {
        match self.channels.remove(&tab) {
            Some(pair) => {
                let _discarded = take_waiting(&pair.1);
                true
            },
            None => false,
        }
    }

    /// The messages waiting in the tab's channel, oldest first; none where
    /// the tab has no channel.
    pub fn take_waiting(&self, tab: u128) -> (msgs: Vec<M>)
        ensures
            !self.tabs().contains(tab) ==> msgs@.len() == 0,
    {
        match self.channels.get(&tab) {
            Some(pair) => take_waiting(&pair.1),
            None => Vec::new(),
        }
    }

    /// Takes the messages waiting in the tab's channel and sends them back
    /// in the same order, behind any that arrived meanwhile.
    pub fn requeue_waiting(&self, tab: u128) {
        if let Some(pair) = self.channels.get(&tab) {
            let mut pending = take_waiting(&pair.1);
            while pending.len() > 0
                decreases pending.len(),
            {
                let msg = pending.remove(0);
                let _ = send_message(&pair.0, msg);
            }
        }
    }
}

/// The message types that travel through a pool, one per kind of channel.
pub trait MessageKinds {
    type FileMsg;
    type TaskMsg;
    type SearchMsg;
    type UiMsg;
    type OpMsg;
    type SizeMsg;
    type InfoMsg;
    type ThumbMsg;
}

/// What wakes the window of a tab up after a message was sent to it.
pub trait Notify {
    fn notify(&self);
}

/// A message type that knows which of a tab's senders carries it.
pub trait Routable<K: MessageKinds, N>: Sized {
    fn sender(ns: &NotifyingSender<K, N>) -> &Sender<Self>;
}

/// The senders of one tab, with the tab's notifier.
pub struct NotifyingSender<K: MessageKinds, N> {
    pub tab_id: u128,
    file_sender: Sender<K::FileMsg>,
    task_sender: Sender<K::TaskMsg>,
    recursive_search_sender: Sender<K::SearchMsg>,
    ui_event_sender: Sender<K::UiMsg>,
    file_operation_sender: Sender<K::OpMsg>,
    sizer_sender: Sender<K::SizeMsg>,
    extended_info_sender: Sender<K::InfoMsg>,
    thumbnails_sender: Sender<K::ThumbMsg>,
    notifier: N,
}

impl<K: MessageKinds, N: Notify> NotifyingSender<K, N> {
    /// The tab whose channels these senders feed.
    pub closed spec fn tab(&self) -> u128 {
        self.tab_id
    }

    /// The sender that this value holds for the tab's file-loading channel.
    pub closed spec fn held_file_sender(&self) -> Sender<K::FileMsg> {
        self.file_sender
    }

    /// The sender that this value holds for the tab's task channel.
    pub closed spec fn held_task_sender(&self) -> Sender<K::TaskMsg> {
        self.task_sender
    }

    /// The sender that this value holds for the tab's recursive-search channel.
    pub closed spec fn held_recursive_search_sender(&self) -> Sender<K::SearchMsg> {
        self.recursive_search_sender
    }

    /// The sender that this value holds for the tab's interface-event channel.
    pub closed spec fn held_ui_event_sender(&self) -> Sender<K::UiMsg> {
        self.ui_event_sender
    }

    /// The sender that this value holds for the tab's file-operation channel.
    pub closed spec fn held_file_operation_sender(&self) -> Sender<K::OpMsg> {
        self.file_operation_sender
    }

    /// The sender that this value holds for the tab's folder-size channel.
    pub closed spec fn held_sizer_sender(&self) -> Sender<K::SizeMsg> {
        self.sizer_sender
    }

    /// The sender that this value holds for the tab's extended-information channel.
    pub closed spec fn held_extended_info_sender(&self) -> Sender<K::InfoMsg> {
        self.extended_info_sender
    }

    /// The sender that this value holds for the tab's thumbnail channel.
    pub closed spec fn held_thumbnails_sender(&self) -> Sender<K::ThumbMsg> {
        self.thumbnails_sender
    }

    /// The id of the tab whose channels these senders feed.
    pub fn tab_id(&self) -> (t: u128)
        ensures
            t == self.tab(),
    {
        self.tab_id
    }

    /// The sender of the tab's file-loading channel.
    pub fn file_sender(&self) -> (r: &Sender<K::FileMsg>)
        ensures
            *r == self.held_file_sender(),
    {
        &self.file_sender
    }

    /// The sender of the tab's task channel.
    pub fn task_sender(&self) -> (r: &Sender<K::TaskMsg>)
        ensures
            *r == self.held_task_sender(),
    {
        &self.task_sender
    }

    /// The sender of the tab's recursive-search channel.
    pub fn recursive_search_sender(&self) -> (r: &Sender<K::SearchMsg>)
        ensures
            *r == self.held_recursive_search_sender(),
    {
        &self.recursive_search_sender
    }

    /// The sender of the tab's interface-event channel.
    pub fn ui_event_sender(&self) -> (r: &Sender<K::UiMsg>)
        ensures
            *r == self.held_ui_event_sender(),
    {
        &self.ui_event_sender
    }

    /// The sender of the tab's file-operation channel.
    pub fn file_operation_sender(&self) -> (r: &Sender<K::OpMsg>)
        ensures
            *r == self.held_file_operation_sender(),
    {
        &self.file_operation_sender
    }

    /// The sender of the tab's folder-size channel.
    pub fn sizer_sender(&self) -> (r: &Sender<K::SizeMsg>)
        ensures
            *r == self.held_sizer_sender(),
    {
        &self.sizer_sender
    }

    /// The sender of the tab's extended-information channel.
    pub fn extended_info_sender(&self) -> (r: &Sender<K::InfoMsg>)
        ensures
            *r == self.held_extended_info_sender(),
    {
        &self.extended_info_sender
    }

    /// The sender of the tab's thumbnail channel.
    pub fn thumbnails_sender(&self) -> (r: &Sender<K::ThumbMsg>)
        ensures
            *r == self.held_thumbnails_sender(),
    {
        &self.thumbnails_sender
    }

    /// Sends a message on the sender of its kind and, when it went through,
    /// wakes the tab's window up; a message that could not be sent comes back.
    pub fn send<M: Routable<K, N>>(&self, msg: M) -> (r: Result<(), M>)
        ensures
            r matches Err(m) ==> m == msg,
    {
        let res = send_message(M::sender(self), msg);
        if res.is_ok() {
            self.notifier.notify();
        }
        res
    }
}

/// The channels of every kind for every open tab, and the notifier that
/// each tab registered.
#[verifier::reject_recursive_types(N)]
pub struct ChannelPool<K: MessageKinds, N> {
    pub file_channels: TabChannels<K::FileMsg>,
    pub task_channels: TabChannels<K::TaskMsg>,
    pub recursive_channels: TabChannels<K::SearchMsg>,
    pub ui_event_channels: TabChannels<K::UiMsg>,
    pub fileops_channels: TabChannels<K::OpMsg>,
    pub sizer_channels: TabChannels<K::SizeMsg>,
    pub extended_info_channels: TabChannels<K::InfoMsg>,
    pub thumbnails_channels: TabChannels<K::ThumbMsg>,
    ui_notifier: HashMap<u128, N>,
}

/// What a pool holds, per kind: the tabs with a channel of that kind, and
/// the tabs that registered a notifier.
pub struct PoolView {
    pub file: Set<u128>,
    pub task: Set<u128>,
    pub search: Set<u128>,
    pub ui: Set<u128>,
    pub ops: Set<u128>,
    pub sizer: Set<u128>,
    pub info: Set<u128>,
    pub thumbs: Set<u128>,
    pub notified: Set<u128>,
}

impl PoolView {
    /// No channel and no notifier.
    pub open spec fn empty() -> PoolView {
        PoolView {
            file: Set::empty(),
            task: Set::empty(),
            search: Set::empty(),
            ui: Set::empty(),
            ops: Set::empty(),
            sizer: Set::empty(),
            info: Set::empty(),
            thumbs: Set::empty(),
            notified: Set::empty(),
        }
    }

    /// The tab has a channel of every kind.
    pub open spec fn with_channels(self, tab: u128) -> PoolView {
        PoolView {
            file: self.file.insert(tab),
            task: self.task.insert(tab),
            search: self.search.insert(tab),
            ui: self.ui.insert(tab),
            ops: self.ops.insert(tab),
            sizer: self.sizer.insert(tab),
            info: self.info.insert(tab),
            thumbs: self.thumbs.insert(tab),
            notified: self.notified,
        }
    }

    /// The tab registered a notifier.
    pub open spec fn with_notifier(self, tab: u128) -> PoolView {
        PoolView { notified: self.notified.insert(tab), ..self }
    }

    /// The tab lost its notifier and its channels of every kind but the
    /// recursive-search one.
    pub open spec fn without_tab(self, tab: u128) -> PoolView {
        PoolView {
            file: self.file.remove(tab),
            task: self.task.remove(tab),
            search: self.search,
            ui: self.ui.remove(tab),
            ops: self.ops.remove(tab),
            sizer: self.sizer.remove(tab),
            info: self.info.remove(tab),
            thumbs: self.thumbs.remove(tab),
            notified: self.notified.remove(tab),
        }
    }

    /// The tab has a channel of one of the kinds that `without_tab` removes.
    pub open spec fn has_removable(self, tab: u128) -> bool {
        ||| self.file.contains(tab)
        ||| self.task.contains(tab)
        ||| self.ui.contains(tab)
        ||| self.ops.contains(tab)
        ||| self.sizer.contains(tab)
        ||| self.info.contains(tab)
        ||| self.thumbs.contains(tab)
    }
}

/// Once a tab asked for its senders it has a channel of every kind; asking
/// again changes nothing.
pub proof fn law_sender_then_channels(v: PoolView, tab: u128)
    ensures
        v.with_channels(tab).file.contains(tab),
        v.with_channels(tab).has_removable(tab),
        v.with_channels(tab).search.contains(tab),
        v.with_channels(tab).with_channels(tab) == v.with_channels(tab),
{
    assert(v.with_channels(tab).with_channels(tab).file =~= v.with_channels(tab).file);
    assert(v.with_channels(tab).with_channels(tab).task =~= v.with_channels(tab).task);
    assert(v.with_channels(tab).with_channels(tab).search =~= v.with_channels(tab).search);
    assert(v.with_channels(tab).with_channels(tab).ui =~= v.with_channels(tab).ui);
    assert(v.with_channels(tab).with_channels(tab).ops =~= v.with_channels(tab).ops);
    assert(v.with_channels(tab).with_channels(tab).sizer =~= v.with_channels(tab).sizer);
    assert(v.with_channels(tab).with_channels(tab).info =~= v.with_channels(tab).info);
    assert(v.with_channels(tab).with_channels(tab).thumbs =~= v.with_channels(tab).thumbs);
}

/// Removing a tab leaves it without a notifier and without any channel but
/// its recursive-search one; a second removal finds nothing to remove.
pub proof fn law_remove_tab(v: PoolView, tab: u128)
    ensures
        !v.without_tab(tab).file.contains(tab),
        !v.without_tab(tab).notified.contains(tab),
        !v.without_tab(tab).has_removable(tab),
        v.without_tab(tab).search == v.search,
        v.without_tab(tab).without_tab(tab) == v.without_tab(tab),
{
    assert(v.without_tab(tab).without_tab(tab).file =~= v.without_tab(tab).file);
    assert(v.without_tab(tab).without_tab(tab).task =~= v.without_tab(tab).task);
    assert(v.without_tab(tab).without_tab(tab).ui =~= v.without_tab(tab).ui);
    assert(v.without_tab(tab).without_tab(tab).ops =~= v.without_tab(tab).ops);
    assert(v.without_tab(tab).without_tab(tab).sizer =~= v.without_tab(tab).sizer);
    assert(v.without_tab(tab).without_tab(tab).info =~= v.without_tab(tab).info);
    assert(v.without_tab(tab).without_tab(tab).thumbs =~= v.without_tab(tab).thumbs);
    assert(v.without_tab(tab).without_tab(tab).notified =~= v.without_tab(tab).notified);
}

/// Other tabs keep their channels and notifiers when a tab asks for its
/// senders, registers a notifier or is removed.
pub proof fn law_other_tabs_untouched(v: PoolView, tab: u128, other: u128)
    requires
        other != tab,
    ensures
        v.with_channels(tab).file.contains(other) == v.file.contains(other),
        v.with_channels(tab).notified == v.notified,
        v.with_notifier(tab).notified.contains(other) == v.notified.contains(other),
        v.without_tab(tab).file.contains(other) == v.file.contains(other),
        v.without_tab(tab).notified.contains(other) == v.notified.contains(other),
        v.without_tab(tab).has_removable(other) == v.has_removable(other),
{
}

impl<K: MessageKinds, N> View for ChannelPool<K, N> {
    type V = PoolView;

    closed spec fn view(&self) -> PoolView {
        PoolView {
            file: self.file_channels.tabs(),
            task: self.task_channels.tabs(),
            search: self.recursive_channels.tabs(),
            ui: self.ui_event_channels.tabs(),
            ops: self.fileops_channels.tabs(),
            sizer: self.sizer_channels.tabs(),
            info: self.extended_info_channels.tabs(),
            thumbs: self.thumbnails_channels.tabs(),
            notified: self.ui_notifier@.dom(),
        }
    }
}

impl<K: MessageKinds, N> ChannelPool<K, N> {
    /// The file-loading channels of the pool.
    pub closed spec fn file_store(&self) -> TabChannels<K::FileMsg> {
        self.file_channels
    }

    /// The task channels of the pool.
    pub closed spec fn task_store(&self) -> TabChannels<K::TaskMsg> {
        self.task_channels
    }

    /// The recursive-search channels of the pool.
    pub closed spec fn search_store(&self) -> TabChannels<K::SearchMsg> {
        self.recursive_channels
    }

    /// The interface-event channels of the pool.
    pub closed spec fn ui_store(&self) -> TabChannels<K::UiMsg> {
        self.ui_event_channels
    }

    /// The file-operation channels of the pool.
    pub closed spec fn ops_store(&self) -> TabChannels<K::OpMsg> {
        self.fileops_channels
    }

    /// The folder-size channels of the pool.
    pub closed spec fn sizer_store(&self) -> TabChannels<K::SizeMsg> {
        self.sizer_channels
    }

    /// The extended-information channels of the pool.
    pub closed spec fn info_store(&self) -> TabChannels<K::InfoMsg> {
        self.extended_info_channels
    }

    /// The thumbnail channels of the pool.
    pub closed spec fn thumbs_store(&self) -> TabChannels<K::ThumbMsg> {
        self.thumbnails_channels
    }

    /// `after` has a channel of every kind for `tab`, and keeps every
    /// channel of `self` as it was.
    pub open spec fn gains_channels(&self, after: &Self, tab: u128) -> bool {
        &&& self.file_store().gains_channel(&after.file_store(), tab)
        &&& self.task_store().gains_channel(&after.task_store(), tab)
        &&& self.search_store().gains_channel(&after.search_store(), tab)
        &&& self.ui_store().gains_channel(&after.ui_store(), tab)
        &&& self.ops_store().gains_channel(&after.ops_store(), tab)
        &&& self.sizer_store().gains_channel(&after.sizer_store(), tab)
        &&& self.info_store().gains_channel(&after.info_store(), tab)
        &&& self.thumbs_store().gains_channel(&after.thumbs_store(), tab)
    }

    /// `after` holds the very channels of `self`, of every kind.
    pub open spec fn same_channels(&self, after: &Self) -> bool {
        &&& after.file_store() == self.file_store()
        &&& after.task_store() == self.task_store()
        &&& after.search_store() == self.search_store()
        &&& after.ui_store() == self.ui_store()
        &&& after.ops_store() == self.ops_store()
        &&& after.sizer_store() == self.sizer_store()
        &&& after.info_store() == self.info_store()
        &&& after.thumbs_store() == self.thumbs_store()
    }
}

impl<K: MessageKinds, N: Notify> ChannelPool<K, N> {
    /// Each sender of `s` is the sender kept in this pool for `tab`, in the
    /// store of its kind.
    pub open spec fn hands_out(&self, s: &NotifyingSender<K, N>, tab: u128) -> bool {
        &&& s.held_file_sender() == self.file_store().pairs()[tab].0
        &&& s.held_task_sender() == self.task_store().pairs()[tab].0
        &&& s.held_recursive_search_sender() == self.search_store().pairs()[tab].0
        &&& s.held_ui_event_sender() == self.ui_store().pairs()[tab].0
        &&& s.held_file_operation_sender() == self.ops_store().pairs()[tab].0
        &&& s.held_sizer_sender() == self.sizer_store().pairs()[tab].0
        &&& s.held_extended_info_sender() == self.info_store().pairs()[tab].0
        &&& s.held_thumbnails_sender() == self.thumbs_store().pairs()[tab].0
    }
}

/// Asking a pool twice for a tab's senders hands out the same senders, on
/// the same channels, which the second call leaves as they were: a message
/// sent through the first senders waits where the second ones send.
pub proof fn law_senders_reused<K: MessageKinds, N: Notify>(
    p0: &ChannelPool<K, N>,
    p1: &ChannelPool<K, N>,
    p2: &ChannelPool<K, N>,
    s1: &NotifyingSender<K, N>,
    s2: &NotifyingSender<K, N>,
    tab: u128,
)
    requires
        p0.gains_channels(p1, tab),
        p1.hands_out(s1, tab),
        p1.gains_channels(p2, tab),
        p2.hands_out(s2, tab),
    ensures
        p2.file_store().pairs() == p1.file_store().pairs(),
        p2.task_store().pairs() == p1.task_store().pairs(),
        p2.search_store().pairs() == p1.search_store().pairs(),
        p2.ui_store().pairs() == p1.ui_store().pairs(),
        p2.ops_store().pairs() == p1.ops_store().pairs(),
        p2.sizer_store().pairs() == p1.sizer_store().pairs(),
        p2.info_store().pairs() == p1.info_store().pairs(),
        p2.thumbs_store().pairs() == p1.thumbs_store().pairs(),
        s2.held_file_sender() == s1.held_file_sender(),
        s2.held_task_sender() == s1.held_task_sender(),
        s2.held_recursive_search_sender() == s1.held_recursive_search_sender(),
        s2.held_ui_event_sender() == s1.held_ui_event_sender(),
        s2.held_file_operation_sender() == s1.held_file_operation_sender(),
        s2.held_sizer_sender() == s1.held_sizer_sender(),
        s2.held_extended_info_sender() == s1.held_extended_info_sender(),
        s2.held_thumbnails_sender() == s1.held_thumbnails_sender(),
{
    law_sender_keeps_channel(&p1.file_store(), &p2.file_store(), tab);
    law_sender_keeps_channel(&p1.task_store(), &p2.task_store(), tab);
    law_sender_keeps_channel(&p1.search_store(), &p2.search_store(), tab);
    law_sender_keeps_channel(&p1.ui_store(), &p2.ui_store(), tab);
    law_sender_keeps_channel(&p1.ops_store(), &p2.ops_store(), tab);
    law_sender_keeps_channel(&p1.sizer_store(), &p2.sizer_store(), tab);
    law_sender_keeps_channel(&p1.info_store(), &p2.info_store(), tab);
    law_sender_keeps_channel(&p1.thumbs_store(), &p2.thumbs_store(), tab);
}

/// Asking again for the sender of a tab that has a channel changes nothing:
/// the same sender and receiver stay, so messages sent through earlier
/// senders wait in the same channel.
pub proof fn law_sender_keeps_channel<M>(before: &TabChannels<M>, after: &TabChannels<M>, tab: u128)
    requires
        before.gains_channel(after, tab),
        before.tabs().contains(tab),
    ensures
        after.pairs() == before.pairs(),
{
    assert(before.tabs().insert(tab) =~= before.tabs());
    assert(after.pairs() =~= before.pairs());
}

/// The pool's view lists the tabs of its channel stores.
pub proof fn lemma_view_of_stores<K: MessageKinds, N>(p: &ChannelPool<K, N>)
    ensures
        p@.file == p.file_store().tabs(),
        p@.task == p.task_store().tabs(),
        p@.search == p.search_store().tabs(),
        p@.ui == p.ui_store().tabs(),
        p@.ops == p.ops_store().tabs(),
        p@.sizer == p.sizer_store().tabs(),
        p@.info == p.info_store().tabs(),
        p@.thumbs == p.thumbs_store().tabs(),
{
}

impl<K: MessageKinds, N: Notify + Clone> ChannelPool<K, N> {
    /// An empty pool: no channel and no notifier.
    pub fn new() -> (p: Self)
        ensures
            p@ == PoolView::empty(),
    {
        ChannelPool {
            file_channels: TabChannels::new(),
            task_channels: TabChannels::new(),
            recursive_channels: TabChannels::new(),
            ui_event_channels: TabChannels::new(),
            fileops_channels: TabChannels::new(),
            sizer_channels: TabChannels::new(),
            extended_info_channels: TabChannels::new(),
            thumbnails_channels: TabChannels::new(),
            ui_notifier: HashMap::new(),
        }
    }

    /// Registers (or replaces) the notifier of a tab.
    pub fn register_notifier(&mut self, tab_id: u128, notifier: N)
        ensures
            final(self)@ == old(self)@.with_notifier(tab_id),
            old(self).same_channels(final(self)),
    {
        self.ui_notifier.insert(tab_id, notifier);
    }

    /// Wakes the tab's window up, if the tab registered a notifier.
    pub fn notify(&self, tab_id: u128) {
        if let Some(n) = self.ui_notifier.get(&tab_id) {
            n.notify();
        }
    }

    /// Makes sure the tab has a channel of every kind, then hands out its
    /// senders with its notifier; `None` (the channels stay) where the tab
    /// registered no notifier.
    pub fn get_notifying_sender(&mut self, tab_id: u128) -> (r: Option<NotifyingSender<K, N>>)
        ensures
            final(self)@ == old(self)@.with_channels(tab_id),
            old(self).gains_channels(final(self), tab_id),
            r is Some <==> old(self)@.notified.contains(tab_id),
            r matches Some(s) ==> s.tab() == tab_id && final(self).hands_out(&s, tab_id),
    {
        let file_sender = self.file_channels.sender(tab_id);
        let task_sender = self.task_channels.sender(tab_id);
        let recursive_search_sender = self.recursive_channels.sender(tab_id);
        let ui_event_sender = self.ui_event_channels.sender(tab_id);
        let file_operation_sender = self.fileops_channels.sender(tab_id);
        let sizer_sender = self.sizer_channels.sender(tab_id);
        let extended_info_sender = self.extended_info_channels.sender(tab_id);
        let thumbnails_sender = self.thumbnails_channels.sender(tab_id);
        match self.ui_notifier.get(&tab_id) {
            None => None,
            Some(n) => Some(NotifyingSender {
                tab_id,
                file_sender,
                task_sender,
                recursive_search_sender,
                ui_event_sender,
                file_operation_sender,
                sizer_sender,
                extended_info_sender,
                thumbnails_sender,
                notifier: n.clone(),
            }),
        }
    }

    /// Takes the file-loading messages waiting for the tab and sends them
    /// back in the same order.
    pub fn drain_file_loading_messages(&mut self, tab_id: u128)
        ensures
            final(self)@ == old(self)@,
            old(self).same_channels(final(self)),
    {
        self.file_channels.requeue_waiting(tab_id);
    }

    /// Forgets the tab: its notifier, and its channels of every kind but
    /// the recursive-search one, which stays. Tells whether the tab had any
    /// of the removed channels.
    pub fn remove_tab(&mut self, tab_id: u128) -> (removed: bool)
        ensures
            final(self)@ == old(self)@.without_tab(tab_id),
            removed == old(self)@.has_removable(tab_id),
            final(self).file_store().pairs() == old(self).file_store().pairs().remove(tab_id),
            final(self).task_store().pairs() == old(self).task_store().pairs().remove(tab_id),
            final(self).ui_store().pairs() == old(self).ui_store().pairs().remove(tab_id),
            final(self).ops_store().pairs() == old(self).ops_store().pairs().remove(tab_id),
            final(self).sizer_store().pairs() == old(self).sizer_store().pairs().remove(tab_id),
            final(self).info_store().pairs() == old(self).info_store().pairs().remove(tab_id),
            final(self).thumbs_store().pairs() == old(self).thumbs_store().pairs().remove(tab_id),
            final(self).search_store() == old(self).search_store(),
    {
        self.ui_notifier.remove(&tab_id);
        let a = self.file_channels.remove(tab_id);
        let b = self.task_channels.remove(tab_id);
        let c = self.ui_event_channels.remove(tab_id);
        let d = self.fileops_channels.remove(tab_id);
        let e = self.sizer_channels.remove(tab_id);
        let f = self.extended_info_channels.remove(tab_id);
        let g = self.thumbnails_channels.remove(tab_id);
        a || b || c || d || e || f || g
    }

    /// Whether the tab has a file-loading channel.
    pub fn has_channel(&self, tab_id: u128) -> (b: bool)
        ensures
            b == self@.file.contains(tab_id),
    {
        self.file_channels.contains(tab_id)
    }

    /// The number of tabs with a file-loading channel.
    pub fn active_file_channels(&self) -> (n: usize)
        ensures
            n == self@.file.len(),
    {
        self.file_channels.len()
    }
}

} // verus!
