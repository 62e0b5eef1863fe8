use vstd::prelude::*;
use std::collections::HashMap;
use vstd::std_specs::iter::IteratorSpec;

verus! {

/// The IEEE-754 single precision encoding of `0.0`, the progress of a task
/// that has just started.
pub const PROGRESS_ZERO_BITS: u32 = 0;

/// The IEEE-754 single precision encoding of `1.0`, the progress of a
/// finished task.
pub const PROGRESS_DONE_BITS: u32 = 0x3F80_0000;

/// How long a finished task stays listed, in milliseconds.
pub const FINISHED_VISIBLE_MS: u64 = 3000;

/// Where a background task stands.
#[derive(Clone, Copy, Debug, PartialEq, Eq, Structural)]
pub enum TaskStatus {
    Running,
    FinishedSuccess,
    FinishedError,
}

impl TaskStatus {
    /// The sign the progress bubble shows before a task's text.
    pub fn icon(&self) -> (s: &'static str)
        ensures
            s@ == (match *self {
                TaskStatus::Running => "⏳"@,
                TaskStatus::FinishedSuccess => "✅"@,
                TaskStatus::FinishedError => "❌"@,
            }),
    {
        match self {
            TaskStatus::Running => "⏳",
            TaskStatus::FinishedSuccess => "✅",
            TaskStatus::FinishedError => "❌",
        }
    }
}

/// A background task as the progress bubble shows it.
///
/// `progress_bits` is the IEEE-754 encoding of the progress (a float from
/// `0.0` to `1.0` that the library only carries); `finished_at` is the time
/// the task finished, in milliseconds of a monotonic clock; `K` is the kind
/// of operation the task performs.
#[derive(Debug)]
pub struct TaskProgress<K> {
    pub task_id: u64,
    pub text: String,
    pub progress_bits: u32,
    pub status: TaskStatus,
    pub task_kind: K,
    pub finished_at: Option<u64>,
}

/// A report that a background operation sends about a task.
#[derive(Debug)]
pub enum TaskMessage<K> {
    Started { task_id: u64, text: String, task_type: K },
    Progress { task_id: u64, progress_bits: u32, text: String, task_type: K },
    Finished { task_id: u64, success: bool, task_type: K, text: String },
}

impl<K: Copy> TaskProgress<K> {
    /// A copy equal to this progress record.
    pub fn duplicate(&self) -> (r: Self)
        ensures
            r == *self,
    {
        TaskProgress {
            task_id: self.task_id,
            text: self.text.clone(),
            progress_bits: self.progress_bits,
            status: self.status,
            task_kind: self.task_kind,
            finished_at: self.finished_at,
        }
    }
}

broadcast use vstd::std_specs::hash::group_hash_axioms;

/// No two tasks of the list have the same id.
pub open spec fn distinct_ids<K>(s: Seq<TaskProgress<K>>) -> bool {
    forall|i: int, j: int| 0 <= i < j < s.len() ==> s[i].task_id != s[j].task_id
}

/// Every task is filed under its own id.
pub open spec fn filed_by_id<K>(m: Map<u64, TaskProgress<K>>) -> bool {
    forall|id: u64| #[trigger] m.contains_key(id) ==> m[id].task_id == id
}

/// The task a `Started` report creates.
pub open spec fn started_task<K>(id: u64, text: String, kind: K) -> TaskProgress<K> {
    TaskProgress {
        task_id: id,
        text,
        progress_bits: PROGRESS_ZERO_BITS,
        status: TaskStatus::Running,
        task_kind: kind,
        finished_at: None,
    }
}

/// The tasks after a `Started` report: the task is filed under its id, in
/// place of any task of that id.
pub open spec fn after_start<K>(m: Map<u64, TaskProgress<K>>, id: u64, text: String, kind: K) -> Map<
    u64,
    TaskProgress<K>,
> {
    m.insert(id, started_task(id, text, kind))
}

/// The tasks after a `Progress` report: the listed task takes the new
/// progress and text; nothing changes for an unknown id.
pub open spec fn after_update<K>(m: Map<u64, TaskProgress<K>>, id: u64, progress_bits: u32, text: String)
    -> Map<u64, TaskProgress<K>> {
    if m.contains_key(id) {
        m.insert(id, TaskProgress { progress_bits, text, ..m[id] })
    } else {
        m
    }
}

/// The status a `Finished` report sets.
pub open spec fn finished_status(success: bool) -> TaskStatus {
    if success {
        TaskStatus::FinishedSuccess
    } else {
        TaskStatus::FinishedError
    }
}

/// The tasks after a `Finished` report at time `now`: the listed task is
/// finished, with full progress; nothing changes for an unknown id.
pub open spec fn after_finish<K>(m: Map<u64, TaskProgress<K>>, id: u64, success: bool, now: u64) -> Map<
    u64,
    TaskProgress<K>,
> {
    if m.contains_key(id) {
        m.insert(
            id,
            TaskProgress {
                status: finished_status(success),
                finished_at: Some(now),
                progress_bits: PROGRESS_DONE_BITS,
                ..m[id]
            },
        )
    } else {
        m
    }
}

/// Whether a task is still listed at time `now`: it is running, or it
/// finished less than `FINISHED_VISIBLE_MS` before `now` (a finish time after
/// `now` counts as no time elapsed).
pub open spec fn still_visible<K>(t: TaskProgress<K>, now: u64) -> bool {
    match t.finished_at {
        None => true,
        Some(f) => f > now || now - f < FINISHED_VISIBLE_MS,
    }
}

/// The tasks still visible at `now`.
pub open spec fn retained<K>(m: Map<u64, TaskProgress<K>>, now: u64) -> Map<u64, TaskProgress<K>> {
    Map::new(|id: u64| m.contains_key(id) && still_visible(m[id], now), |id: u64| m[id])
}

/// A list holds exactly the tasks of a map, each once, in some order.
pub open spec fn lists_exactly<K>(s: Seq<TaskProgress<K>>, m: Map<u64, TaskProgress<K>>) -> bool {
    &&& distinct_ids(s)
    &&& forall|j: int| 0 <= j < s.len() ==> #[trigger] m.contains_key(s[j].task_id) && m[s[j].task_id] == s[j]
    &&& forall|id: u64| #[trigger] m.contains_key(id) ==> exists|j: int| 0 <= j < s.len() && s[j].task_id == id
}

/// A task that was started reads back as running, with no progress and the
/// text and kind of its report, whatever was listed under its id before.
pub proof fn law_start_then_lookup<K>(m: Map<u64, TaskProgress<K>>, id: u64, text: String, kind: K)
    requires
        filed_by_id(m),
    ensures
        after_start(m, id, text, kind).contains_key(id),
        after_start(m, id, text, kind)[id] == started_task(id, text, kind),
        filed_by_id(after_start(m, id, text, kind)),
{
}

/// Starting, updating or finishing a task leaves every other task as it was.
pub proof fn law_reports_keep_other_tasks<K>(
    m: Map<u64, TaskProgress<K>>,
    id: u64,
    other: u64,
    text: String,
    kind: K,
    progress_bits: u32,
    success: bool,
    now: u64,
)
    requires
        other != id,
    ensures
        after_start(m, id, text, kind).contains_key(other) == m.contains_key(other),
        after_update(m, id, progress_bits, text).contains_key(other) == m.contains_key(other),
        after_finish(m, id, success, now).contains_key(other) == m.contains_key(other),
        m.contains_key(other) ==> after_start(m, id, text, kind)[other] == m[other]
            && after_update(m, id, progress_bits, text)[other] == m[other]
            && after_finish(m, id, success, now)[other] == m[other],
{
}

/// A report about a task that is not listed changes nothing but for
/// `Started`, which lists it.
pub proof fn law_unknown_task_reports_ignored<K>(
    m: Map<u64, TaskProgress<K>>,
    id: u64,
    progress_bits: u32,
    text: String,
    success: bool,
    now: u64,
)
    requires
        !m.contains_key(id),
    ensures
        after_update(m, id, progress_bits, text) == m,
        after_finish(m, id, success, now) == m,
{
}

/// A finished task reads back with the outcome of its report, full progress
/// and its finish time, keeping its text and kind.
pub proof fn law_finish_then_lookup<K>(m: Map<u64, TaskProgress<K>>, id: u64, success: bool, now: u64)
    requires
        m.contains_key(id),
    ensures
        ({
            let t = after_finish(m, id, success, now)[id];
            &&& t.status == finished_status(success)
            &&& t.progress_bits == PROGRESS_DONE_BITS
            &&& t.finished_at == Some(now)
            &&& t.text == m[id].text
            &&& t.task_kind == m[id].task_kind
        }),
{
}

/// A task finished at time `finish` is still listed by `get_tasks` at
/// `now >= finish` exactly while less than `FINISHED_VISIBLE_MS` (three
/// seconds) have passed.
pub proof fn law_finished_task_listed_three_seconds<K>(
    m: Map<u64, TaskProgress<K>>,
    id: u64,
    success: bool,
    finish: u64,
    now: u64,
)
    requires
        m.contains_key(id),
        finish <= now,
    ensures
        retained(after_finish(m, id, success, finish), now).contains_key(id) <==> now - finish
            < FINISHED_VISIBLE_MS,
{
}

/// A running task is never dropped by `get_tasks`.
pub proof fn law_running_tasks_stay<K>(m: Map<u64, TaskProgress<K>>, now: u64, id: u64)
    requires
        m.contains_key(id),
        m[id].finished_at is None,
    ensures
        retained(m, now).contains_key(id),
        retained(m, now)[id] == m[id],
{
}

/// Asking for the tasks twice at the same time gives the same tasks.
pub proof fn law_get_tasks_idempotent<K>(m: Map<u64, TaskProgress<K>>, now: u64)
    ensures
        retained(retained(m, now), now) == retained(m, now),
{
    assert(retained(retained(m, now), now) =~= retained(m, now));
}

fn collect_ids<K>(m: &HashMap<u64, TaskProgress<K>>) -> (r: Vec<u64>)
    ensures
        r@.to_set() == m@.dom(),
        r@.no_duplicates(),
{
    let mut r: Vec<u64> = Vec::new();
    let ghost total = m.keys().remaining();
    for k in it: m.keys()
        invariant
            it.seq() == total,
            r@ == total.take(it.index() as int).map_values(|x: &u64| *x),
    {
        r.push(*k);
    }
    assert(r@ =~= total.unref());
    r
}

/// The tasks in progress and those that finished a moment ago, filed by id.
pub struct TaskManager<K: Copy> {
    tasks: HashMap<u64, TaskProgress<K>>,
}

impl<K: Copy> TaskManager<K> {
    /// Every task is filed under its own id (the type's invariant).
    #[verifier::type_invariant]
    pub closed spec fn ids_match(self) -> bool {
        filed_by_id(self.tasks@)
    }

    /// The listed tasks, by id.
    pub closed spec fn tasks(self) -> Map<u64, TaskProgress<K>> {
        self.tasks@
    }

    /// A manager with no task.
    pub fn new() -> (m: Self)
        ensures
            m.tasks() == Map::<u64, TaskProgress<K>>::empty(),
            filed_by_id(m.tasks()),
    {
        TaskManager { tasks: HashMap::new() }
    }

    /// Lists a new running task with no progress, in place of any task
    /// listed with this id.
    pub fn start_task(&mut self, task_id: u64, text: String, task_kind: K)
        ensures
            final(self).tasks() == after_start(old(self).tasks(), task_id, text, task_kind),
            filed_by_id(old(self).tasks()),
            filed_by_id(final(self).tasks()),
    {
        proof {
            use_type_invariant(&*self);
        }
        let task = TaskProgress {
            task_id,
            text,
            progress_bits: PROGRESS_ZERO_BITS,
            status: TaskStatus::Running,
            task_kind,
            finished_at: None,
        };
        let mut m: HashMap<u64, TaskProgress<K>> = HashMap::new();
        std::mem::swap(&mut m, &mut self.tasks);
        m.insert(task_id, task);
        self.tasks = m;
    }

    /// Takes a progress report: the listed task gets the new progress and
    /// text; a report for an unknown task changes nothing.
    pub fn update_task(&mut self, task_id: u64, progress_bits: u32, text: String, task_kind: K)
        ensures
            final(self).tasks() == after_update(old(self).tasks(), task_id, progress_bits, text),
            filed_by_id(old(self).tasks()),
            filed_by_id(final(self).tasks()),
    {
        proof {
            use_type_invariant(&*self);
        }
        let mut m: HashMap<u64, TaskProgress<K>> = HashMap::new();
        std::mem::swap(&mut m, &mut self.tasks);
        let updated = match m.get(&task_id) {
            Some(t) => {
                let mut u = t.duplicate();
                u.progress_bits = progress_bits;
                u.text = text;
                Some(u)
            },
            None => None,
        };
        match updated {
            Some(u) => {
                m.insert(task_id, u);
            },
            None => {},
        }
        self.tasks = m;
    }

    /// Marks the listed task finished at time `now` (milliseconds of a
    /// monotonic clock), with full progress; a report for an unknown task
    /// changes nothing.
    pub fn finish_task(&mut self, task_id: u64, success: bool, task_kind: K, now: u64)
        ensures
            final(self).tasks() == after_finish(old(self).tasks(), task_id, success, now),
            filed_by_id(old(self).tasks()),
            filed_by_id(final(self).tasks()),
    {
        proof {
            use_type_invariant(&*self);
        }
        let mut m: HashMap<u64, TaskProgress<K>> = HashMap::new();
        std::mem::swap(&mut m, &mut self.tasks);
        let finished = match m.get(&task_id) {
            Some(t) => {
                let mut u = t.duplicate();
                u.status = if success {
                    TaskStatus::FinishedSuccess
                } else {
                    TaskStatus::FinishedError
                };
                u.finished_at = Some(now);
                u.progress_bits = PROGRESS_DONE_BITS;
                Some(u)
            },
            None => None,
        };
        match finished {
            Some(u) => {
                m.insert(task_id, u);
            },
            None => {},
        }
        self.tasks = m;
    }

    /// Drops the tasks that finished `FINISHED_VISIBLE_MS` or more before
    /// `now` and returns the others, each once, in the order the map walks
    /// them.
    pub fn get_tasks(&mut self, now: u64) -> (r: Vec<TaskProgress<K>>)
        ensures
            final(self).tasks() == retained(old(self).tasks(), now),
            lists_exactly(r@, final(self).tasks()),
            filed_by_id(old(self).tasks()),
            filed_by_id(final(self).tasks()),
    {
        proof {
            use_type_invariant(&*self);
        }
        let ghost old_m = self.tasks@;
        let ids = collect_ids(&self.tasks);
        let mut m: HashMap<u64, TaskProgress<K>> = HashMap::new();
        std::mem::swap(&mut m, &mut self.tasks);
        let mut r: Vec<TaskProgress<K>> = Vec::new();
        let mut i: usize = 0;
        while i < ids.len()
            invariant
                i <= ids@.len(),
                ids@.to_set() == old_m.dom(),
                ids@.no_duplicates(),
                filed_by_id(old_m),
                m@ == Map::new(
                    |id: u64| old_m.contains_key(id) && (!ids@.take(i as int).contains(id) || still_visible(old_m[id], now)),
                    |id: u64| old_m[id],
                ),
                distinct_ids(r@),
                forall|j: int| 0 <= j < r@.len() ==> #[trigger] old_m.contains_key(r@[j].task_id)
                    && old_m[r@[j].task_id] == r@[j] && still_visible(r@[j], now),
                forall|j: int| 0 <= j < r@.len() ==> exists|k: int| 0 <= k < i && #[trigger] ids@[k] == #[trigger] r@[j].task_id,
                forall|k: int| 0 <= k < i && still_visible(old_m[#[trigger] ids@[k]], now) ==> exists|j: int| 0 <= j < r@.len() && r@[j].task_id == ids@[k],
            decreases ids@.len() - i,
        {
            let id = ids[i];
            assert(ids@.to_set().contains(id));
            assert(ids@.take(i + 1) =~= ids@.take(i as int).push(id));
            assert(!ids@.take(i as int).contains(id)) by {
                if ids@.take(i as int).contains(id) {
                    let j = choose|j: int| 0 <= j < i && ids@.take(i as int)[j] == id;
                    assert(ids@[j] == ids@[i as int]);
                }
            }
            assert(m@.contains_key(id) && m@[id] == old_m[id]);
            let visible = match m.get(&id) {
                Some(t) => match t.finished_at {
                    None => true,
                    Some(f) => f > now || now - f < FINISHED_VISIBLE_MS,
                },
                None => false,
            };
            if visible {
                let t = m.get(&id).unwrap().duplicate();
                assert(t == old_m[id] && still_visible(t, now));
                let ghost before = r@;
                r.push(t);
                proof {
                    assert forall|j: int| 0 <= j < r@.len() implies #[trigger] old_m.contains_key(r@[j].task_id)
                        && old_m[r@[j].task_id] == r@[j] && still_visible(r@[j], now) by {
                        if j < before.len() {
                            assert(r@[j] == before[j]);
                        }
                    }
                    assert forall|x: u64| old_m.contains_key(x) && (!ids@.take(i + 1).contains(x) || still_visible(old_m[x], now))
                        <==> old_m.contains_key(x) && (!ids@.take(i as int).contains(x) || still_visible(old_m[x], now)) by {
                        if x == id {
                            assert(ids@.take(i + 1).contains(x)) by { assert(ids@.take(i + 1)[i as int] == x); }
                        } else {
                            assert(ids@.take(i + 1).contains(x) == ids@.take(i as int).contains(x)) by {
                                if ids@.take(i + 1).contains(x) {
                                    let k = choose|k: int| 0 <= k < i + 1 && #[trigger] ids@.take(i + 1)[k] == x;
                                    assert(ids@.take(i as int)[k] == x);
                                }
                                if ids@.take(i as int).contains(x) {
                                    let k = choose|k: int| 0 <= k < i && #[trigger] ids@.take(i as int)[k] == x;
                                    assert(ids@.take(i + 1)[k] == x);
                                }
                            }
                        }
                    }
                    assert forall|a: int, b: int| 0 <= a < b < r@.len() implies r@[a].task_id != r@[b].task_id by {
                        if b == before.len() {
                            assert(r@[a] == before[a]);
                            let k = choose|k: int| 0 <= k < i && #[trigger] ids@[k] == before[a].task_id;
                            assert(ids@[k] != ids@[i as int]);
                        } else {
                            assert(r@[a] == before[a] && r@[b] == before[b]);
                        }
                    }
                    assert forall|j: int| 0 <= j < r@.len() implies exists|k: int| 0 <= k < i + 1 && #[trigger] ids@[k] == #[trigger] r@[j].task_id by {
                        if j == before.len() {
                            assert(ids@[i as int] == r@[j].task_id);
                        } else {
                            assert(r@[j] == before[j]);
                            let k = choose|k: int| 0 <= k < i && #[trigger] ids@[k] == before[j].task_id;
                            assert(ids@[k] == r@[j].task_id);
                        }
                    }
                    assert forall|k: int| 0 <= k < i + 1 && still_visible(old_m[#[trigger] ids@[k]], now) implies exists|j: int| 0 <= j < r@.len() && r@[j].task_id == ids@[k] by {
                        if k == i {
                            assert(r@[before.len() as int].task_id == ids@[k]);
                        } else {
                            let j = choose|j: int| 0 <= j < before.len() && before[j].task_id == ids@[k];
                            assert(r@[j] == before[j]);
                        }
                    }
                }
            } else {
                m.remove(&id);
                proof {
                    assert forall|x: u64| old_m.contains_key(x) && (!ids@.take(i + 1).contains(x) || still_visible(old_m[x], now))
                        <==> m@.contains_key(x) by {
                        if x == id {
                            assert(ids@.take(i + 1).contains(x)) by { assert(ids@.take(i + 1)[i as int] == x); }
                        } else {
                            assert(ids@.take(i + 1).contains(x) == ids@.take(i as int).contains(x)) by {
                                if ids@.take(i + 1).contains(x) {
                                    let k = choose|k: int| 0 <= k < i + 1 && #[trigger] ids@.take(i + 1)[k] == x;
                                    assert(ids@.take(i as int)[k] == x);
                                }
                                if ids@.take(i as int).contains(x) {
                                    let k = choose|k: int| 0 <= k < i && #[trigger] ids@.take(i as int)[k] == x;
                                    assert(ids@.take(i + 1)[k] == x);
                                }
                            }
                        }
                    }
                    assert(!still_visible(old_m[id], now));
                    assert forall|k: int| 0 <= k < i + 1 && still_visible(old_m[#[trigger] ids@[k]], now) implies exists|j: int| 0 <= j < r@.len() && r@[j].task_id == ids@[k] by {
                    }
                    assert forall|j: int| 0 <= j < r@.len() implies exists|k: int| 0 <= k < i + 1 && #[trigger] ids@[k] == #[trigger] r@[j].task_id by {
                        let k = choose|k: int| 0 <= k < i && #[trigger] ids@[k] == r@[j].task_id;
                        assert(ids@[k] == r@[j].task_id);
                    }
                }
            }
            assert(m@ =~= Map::new(
                |x: u64| old_m.contains_key(x) && (!ids@.take(i + 1).contains(x) || still_visible(old_m[x], now)),
                |x: u64| old_m[x],
            ));
            i = i + 1;
        }
        assert(ids@.take(i as int) =~= ids@);
        assert forall|x: u64| old_m.contains_key(x) implies ids@.contains(x) by {
            assert(ids@.to_set().contains(x));
        }
        assert(m@ =~= retained(old_m, now));
        assert forall|x: u64| #[trigger] retained(old_m, now).contains_key(x) implies exists|j: int| 0 <= j < r@.len() && r@[j].task_id == x by {
            assert(ids@.contains(x));
            let k = choose|k: int| 0 <= k < ids@.len() && ids@[k] == x;
            assert(still_visible(old_m[ids@[k]], now));
        }
        self.tasks = m;
        r
    }

    /// Applies one report: `Started` starts the task, `Progress` updates it
    /// and `Finished` finishes it at time `now`.
    pub fn process_message(&mut self, msg: TaskMessage<K>, now: u64)
        ensures
            final(self).tasks() == match msg {
                TaskMessage::Started { task_id, text, task_type } => after_start(
                    old(self).tasks(),
                    task_id,
                    text,
                    task_type,
                ),
                TaskMessage::Progress { task_id, progress_bits, text, task_type } => after_update(
                    old(self).tasks(),
                    task_id,
                    progress_bits,
                    text,
                ),
                TaskMessage::Finished { task_id, success, task_type, text } => after_finish(
                    old(self).tasks(),
                    task_id,
                    success,
                    now,
                ),
            },
            filed_by_id(old(self).tasks()),
            filed_by_id(final(self).tasks()),
    {
        proof {
            use_type_invariant(&*self);
        }
        match msg {
            TaskMessage::Started { task_id, text, task_type } => {
                self.start_task(task_id, text, task_type);
            },
            TaskMessage::Progress { task_id, progress_bits, text, task_type } => {
                self.update_task(task_id, progress_bits, text, task_type);
            },
            TaskMessage::Finished { task_id, success, task_type, text: _ } => {
                self.finish_task(task_id, success, task_type, now);
            },
        }
    }
}

} // verus!
