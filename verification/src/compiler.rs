use vstd::prelude::*;
use vstd::string::*;
use crate::json::{json_string_member, string_member};
use crate::text::{decimal, push_decimal};
use crate::update::{ComponentUpdate, UpdateType};

verus! {

/// A request to recompile one component.
#[derive(Debug, Clone)]
pub struct CompilationTask {
    pub component_id: String,
    pub source_code: String,
    pub dependencies: Vec<String>,
    pub priority: u8,
}

/// The source a task compiles for an update: its `source_code` member, or nothing.
pub open spec fn source_for_update(update: ComponentUpdate) -> Seq<char> {
    match json_string_member(update.data@, "source_code"@) {
        Some(s) => s,
        None => Seq::empty(),
    }
}

impl CompilationTask {
    /// The compilation an external update asks for, if any.
    pub fn for_update(update: &ComponentUpdate) -> (r: Option<CompilationTask>)
        ensures
            r is Some <==> update.update_type == UpdateType::SourceCodeChanged,
            r matches Some(t) ==> {
                &&& t.component_id == update.component_id
                &&& t.source_code@ == source_for_update(*update)
                &&& t.dependencies@ == update.affected_components@
                &&& t.priority == 1
            },
    {
        match update.update_type {
            UpdateType::SourceCodeChanged => {
                let source = match string_member(update.data.as_str(), "source_code") {
                    Some(s) => s,
                    None => String::new(),
                };
                Some(CompilationTask {
                    component_id: update.component_id.clone(),
                    source_code: source,
                    dependencies: update.affected_components.clone(),
                    priority: 1,
                })
            },
            _ => None,
        }
    }
}

/// The output of compiling a component: the WebAssembly magic number.
pub fn compile_component(task: &CompilationTask) -> (wasm: Vec<u8>)
    ensures
        wasm@ == seq![0x00u8, 0x61u8, 0x73u8, 0x6du8],
{
    vec![0x00, 0x61, 0x73, 0x6d]
}

/// The payload of a finished compilation: how long it took and how large the
/// module is, `{"compilation_time":<ms>,"wasm_size":<bytes>}`.
pub open spec fn compiled_payload(wasm_size: nat, compilation_time_ms: nat) -> Seq<char> {
    "{\"compilation_time\":"@ + decimal(compilation_time_ms) + ",\"wasm_size\":"@ + decimal(wasm_size)
        + "}"@
}

/// The update announcing that `task` compiled to `wasm_size` bytes in
/// `compilation_time_ms` milliseconds, sent at `timestamp` (seconds since the Unix epoch).
pub fn compilation_finished_update(
    task: CompilationTask,
    wasm_size: usize,
    compilation_time_ms: u128,
    timestamp: u64,
) -> (r: ComponentUpdate)
    ensures
        r.component_id == task.component_id,
        r.update_type == UpdateType::CompiledWasmReady,
        r.data@ == compiled_payload(wasm_size as nat, compilation_time_ms as nat),
        r.timestamp == timestamp,
        r.affected_components == task.dependencies,
{
    let mut data = String::from_str("{\"compilation_time\":");
    push_decimal(&mut data, compilation_time_ms);
    data.append(",\"wasm_size\":");
    push_decimal(&mut data, wasm_size as u128);
    data.append("}");
    assert(data@ =~= compiled_payload(wasm_size as nat, compilation_time_ms as nat));
    ComponentUpdate {
        component_id: task.component_id,
        update_type: UpdateType::CompiledWasmReady,
        data,
        timestamp,
        affected_components: task.dependencies,
    }
}

/// The queue holds its tasks ordered by non-increasing priority.
pub open spec fn priority_sorted(q: Seq<CompilationTask>) -> bool {
    forall|i: int, j: int| 0 <= i <= j < q.len() ==> q[i].priority >= q[j].priority
}

/// `k` splits `q` into the tasks whose priority is at least `p` and those below it.
pub open spec fn is_enqueue_point(q: Seq<CompilationTask>, p: u8, k: int) -> bool {
    &&& 0 <= k <= q.len()
    &&& forall|i: int| 0 <= i < k ==> q[i].priority >= p
    &&& forall|i: int| k <= i < q.len() ==> q[i].priority < p
}

/// Where a task of priority `p` lands: after every task whose priority is at least `p`.
pub open spec fn enqueue_point(q: Seq<CompilationTask>, p: u8) -> int {
    choose|k: int| is_enqueue_point(q, p, k)
}

/// The queue after a stable sort by descending priority of `q` with `task` appended.
pub open spec fn enqueued(q: Seq<CompilationTask>, task: CompilationTask) -> Seq<CompilationTask> {
    q.insert(enqueue_point(q, task.priority), task)
}

/// Priority-ordered queue of pending compilations.
pub struct HotReloadCompiler {
    compilation_queue: Vec<CompilationTask>,
}

impl View for HotReloadCompiler {
    type V = Seq<CompilationTask>;

    closed spec fn view(&self) -> Seq<CompilationTask> {
        self.compilation_queue@
    }
}

impl HotReloadCompiler {
    #[verifier::type_invariant]
    spec fn queue_sorted(&self) -> bool {
        priority_sorted(self.compilation_queue@)
    }

    pub fn new() -> (r: HotReloadCompiler)
        ensures
            r@ == Seq::<CompilationTask>::empty(),
    {
        HotReloadCompiler { compilation_queue: Vec::new() }
    }

    /// Queues `task` behind every task of equal or higher priority.
    pub fn add_task(&mut self, task: CompilationTask)
        ensures
            priority_sorted(old(self)@),
            priority_sorted(final(self)@),
            final(self)@ == enqueued(old(self)@, task),
    {
        proof { use_type_invariant(&*self); }
        let ghost q = self@;
        let p = task.priority;
        let len = self.compilation_queue.len();
        let mut k: usize = 0;
        while k < len && self.compilation_queue[k].priority >= p
            invariant
                len == self.compilation_queue@.len(),
                self@ == q,
                0 <= k <= len,
                forall|i: int| 0 <= i < k ==> q[i].priority >= p,
            decreases len - k,
        {
            k = k + 1;
        }
        proof {
            lemma_enqueue_point_unique(q, p, k as int);
        }
        let mut queue: Vec<CompilationTask> = Vec::new();
        std::mem::swap(&mut queue, &mut self.compilation_queue);
        queue.insert(k, task);
        proof {
            lemma_add_task_keeps_tasks(q, task);
        }
        self.compilation_queue = queue;
    }

    /// Takes the task at the front of the queue: one of highest priority, the
    /// earliest queued among those.
    pub fn get_next_task(&mut self) -> (r: Option<CompilationTask>)
        ensures
            priority_sorted(old(self)@),
            priority_sorted(final(self)@),
            old(self)@.len() == 0 ==> r is None && final(self)@ == old(self)@,
            old(self)@.len() > 0 ==> r == Some(old(self)@[0]) && final(self)@ == old(self)@.drop_first(),
    {
        proof { use_type_invariant(&*self); }
        if self.compilation_queue.len() == 0 {
            return None;
        }
        let mut queue: Vec<CompilationTask> = Vec::new();
        std::mem::swap(&mut queue, &mut self.compilation_queue);
        let ghost q = queue@;
        let next = queue.remove(0);
        assert(queue@ =~= q.drop_first());
        self.compilation_queue = queue;
        Some(next)
    }
}

/// In a sorted queue the enqueue point of a priority is unique.
pub proof fn lemma_enqueue_point_unique(q: Seq<CompilationTask>, p: u8, k: int)
    requires
        priority_sorted(q),
        0 <= k <= q.len(),
        forall|i: int| 0 <= i < k ==> q[i].priority >= p,
        k == q.len() || q[k].priority < p,
    ensures
        is_enqueue_point(q, p, k),
        enqueue_point(q, p) == k,
{
    assert(is_enqueue_point(q, p, k));
    let c = enqueue_point(q, p);
    assert(is_enqueue_point(q, p, c));
    if c < k {
        assert(q[c].priority < p);
        assert(q[c].priority >= p);
    }
    if c > k {
        assert(q[k].priority < p);
        assert(q[k].priority >= p);
    }
}


/// Every sorted queue has an enqueue point for every priority.
pub proof fn lemma_enqueue_point_exists(q: Seq<CompilationTask>, p: u8)
    requires
        priority_sorted(q),
    ensures
        is_enqueue_point(q, p, enqueue_point(q, p)),
    decreases q.len(),
{
    if q.len() == 0 {
        assert(is_enqueue_point(q, p, 0));
    } else {
        let r = q.drop_last();
        lemma_enqueue_point_exists(r, p);
        let k = enqueue_point(r, p);
        let n = q.len() - 1;
        assert(forall|i: int| 0 <= i < n ==> #[trigger] q[i] == r[i]);
        if k < r.len() {
            assert(q[n].priority <= q[k].priority);
            assert(is_enqueue_point(q, p, k));
        } else if q[n].priority >= p {
            assert(is_enqueue_point(q, p, q.len() as int));
        } else {
            assert(is_enqueue_point(q, p, n));
        }
    }
}

/// Adding a task to a well-ordered queue keeps it well ordered, keeps every
/// queued task, and adds exactly the new one.
pub proof fn lemma_add_task_keeps_tasks(q: Seq<CompilationTask>, task: CompilationTask)
    requires
        priority_sorted(q),
    ensures
        priority_sorted(enqueued(q, task)),
        enqueued(q, task).to_multiset() == q.to_multiset().insert(task),
        enqueued(q, task).len() == q.len() + 1,
{
    lemma_enqueue_point_exists(q, task.priority);
    let k = enqueue_point(q, task.priority);
    let r = enqueued(q, task);
    q.insert_ensures(k, task);
    vstd::seq_lib::to_multiset_insert(q, k, task);
    assert forall|i: int, j: int| 0 <= i <= j < r.len() implies r[i].priority >= r[j].priority by {
        if i < k && j > k { assert(r[j] == q[j - 1]); }
        if i > k { assert(r[i] == q[i - 1]); assert(r[j] == q[j - 1]); }
        if i == k && j > k { assert(r[j] == q[j - 1]); }
    }
}

/// The next task taken from a well-ordered queue has the highest priority of
/// all queued tasks.
pub proof fn lemma_next_task_has_highest_priority(q: Seq<CompilationTask>)
    requires
        priority_sorted(q),
        q.len() > 0,
    ensures
        forall|i: int| 0 <= i < q.len() ==> q[0].priority >= #[trigger] q[i].priority,
{
}

/// A task whose priority is higher than that of every queued task is the next
/// one taken after it is added; the rest of the queue is left as it was.
pub proof fn lemma_highest_added_task_comes_next(q: Seq<CompilationTask>, task: CompilationTask)
    requires
        priority_sorted(q),
        forall|i: int| 0 <= i < q.len() ==> #[trigger] q[i].priority < task.priority,
    ensures
        enqueued(q, task)[0] == task,
        enqueued(q, task).drop_first() == q,
{
    lemma_enqueue_point_unique(q, task.priority, 0);
    assert(enqueued(q, task).drop_first() =~= q);
}

/// Tasks of equal priority are taken in the order they were queued: a task added
/// behind queued tasks of the same or higher priority is taken after all of them.
pub proof fn lemma_equal_priorities_first_in_first_out(q: Seq<CompilationTask>, task: CompilationTask)
    requires
        priority_sorted(q),
    ensures
        forall|i: int| 0 <= i < q.len() && #[trigger] q[i].priority >= task.priority
            ==> enqueued(q, task)[i] == q[i] && i < enqueue_point(q, task.priority),
        enqueued(q, task)[enqueue_point(q, task.priority)] == task,
{
    lemma_enqueue_point_exists(q, task.priority);
    let k = enqueue_point(q, task.priority);
    q.insert_ensures(k, task);
}

} // verus!
