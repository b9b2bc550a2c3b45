//! An in-memory task store: tasks keyed by an identifier that the store
//! hands out, with completion, deletion, filtering and statistics.
use vstd::prelude::*;
use vstd::string::*;
use crate::text::{decimal, decimal_string};

verus! {

/// How urgent a task is.
#[derive(Clone, Copy, Debug, PartialEq, Eq, Structural, Hash)]
pub enum Priority {
    Low,
    Medium,
    High,
    Urgent,
}

/// Where a task stands in its life.
#[derive(Clone, Copy, Debug, PartialEq, Eq, Structural, Hash)]
pub enum Status {
    Pending,
    InProgress,
    Completed,
}

/// The area of life a task belongs to.
#[derive(Clone, Copy, Debug, PartialEq, Eq, Structural, Hash)]
pub enum Category {
    Work,
    Personal,
    Learning,
    Health,
    Finance,
}

/// Why an operation of the store was refused.
#[derive(Debug)]
pub enum TaskError {
    NotFound(u32),
    AlreadyCompleted(u32),
    InvalidInput(String),
}

/// One to-do item.
#[derive(Debug)]
pub struct Task {
    pub id: u32,
    pub title: String,
    pub description: Option<String>,
    pub priority: Priority,
    pub category: Category,
    pub status: Status,
}

pub open spec fn priority_label(p: Priority) -> Seq<char> {
    match p {
        Priority::Low => "Low"@,
        Priority::Medium => "Medium"@,
        Priority::High => "High"@,
        Priority::Urgent => "URGENT"@,
    }
}

pub open spec fn status_label(s: Status) -> Seq<char> {
    match s {
        Status::Pending => "Pending"@,
        Status::InProgress => "In Progress"@,
        Status::Completed => "Completed"@,
    }
}

pub open spec fn category_label(c: Category) -> Seq<char> {
    match c {
        Category::Work => "Work"@,
        Category::Personal => "Personal"@,
        Category::Learning => "Learning"@,
        Category::Health => "Health"@,
        Category::Finance => "Finance"@,
    }
}

impl Priority {
    /// The name shown for the priority.
    pub fn label(&self) -> (r: &'static str)
        ensures
            r@ == priority_label(*self),
    {
        match self {
            Priority::Low => "Low",
            Priority::Medium => "Medium",
            Priority::High => "High",
            Priority::Urgent => "URGENT",
        }
    }
}

impl Status {
    /// The name shown for the status.
    pub fn label(&self) -> (r: &'static str)
        ensures
            r@ == status_label(*self),
    {
        match self {
            Status::Pending => "Pending",
            Status::InProgress => "In Progress",
            Status::Completed => "Completed",
        }
    }
}

impl Category {
    /// The name shown for the category.
    pub fn label(&self) -> (r: &'static str)
        ensures
            r@ == category_label(*self),
    {
        match self {
            Category::Work => "Work",
            Category::Personal => "Personal",
            Category::Learning => "Learning",
            Category::Health => "Health",
            Category::Finance => "Finance",
        }
    }
}

/// The mathematical content of a task: strings seen as character sequences.
pub struct TaskView {
    pub id: u32,
    pub title: Seq<char>,
    pub description: Option<Seq<char>>,
    pub priority: Priority,
    pub category: Category,
    pub status: Status,
}

impl View for Task {
    type V = TaskView;

    open spec fn view(&self) -> TaskView {
        TaskView {
            id: self.id,
            title: self.title@,
            description: match self.description {
                Some(d) => Some(d@),
                None => None,
            },
            priority: self.priority,
            category: self.category,
            status: self.status,
        }
    }
}

/// A fresh task: pending and without a description.
pub open spec fn new_task(id: u32, title: Seq<char>, priority: Priority, category: Category) -> TaskView {
    TaskView { id, title, description: None, priority, category, status: Status::Pending }
}

/// The same task, marked as completed.
pub open spec fn completed(t: TaskView) -> TaskView {
    TaskView { status: Status::Completed, ..t }
}

impl Task {
    pub fn new(id: u32, title: String, priority: Priority, category: Category) -> (r: Task)
        ensures
            r@ == new_task(id, title@, priority, category),
    {
        Task { id, title, description: None, priority, category, status: Status::Pending }
    }

    /// The same task with `description` attached.
    pub fn with_description(self, description: String) -> (r: Task)
        ensures
            r@ == (TaskView { description: Some(description@), ..self@ }),
    {
        let mut t = self;
        t.description = Some(description);
        t
    }

    /// Marks the task as completed; a task that already is stays as it was.
    pub fn complete(&mut self) -> (r: Result<(), TaskError>)
        ensures
            old(self).status == Status::Completed ==> r == Err::<(), TaskError>(
                TaskError::AlreadyCompleted(old(self).id),
            ) && *final(self) == *old(self),
            old(self).status != Status::Completed ==> r == Ok::<(), TaskError>(()) && final(self)@
                == completed(old(self)@),
    {
        if self.status == Status::Completed {
            Err(TaskError::AlreadyCompleted(self.id))
        } else {
            self.status = Status::Completed;
            Ok(())
        }
    }
}

} // verus!

verus! {

/// The mathematical content of a store: its tasks in the order of their
/// identifiers, and the identifier that the next task will get.
pub struct StoreView {
    pub tasks: Seq<TaskView>,
    pub next_id: u32,
}

impl StoreView {
    /// Identifiers are positive, strictly increasing along `tasks`, and all
    /// below `next_id`; in particular no two tasks share one.
    pub open spec fn wf(self) -> bool {
        &&& 1 <= self.next_id
        &&& forall|i: int, j: int|
            0 <= i < j < self.tasks.len() ==> self.tasks[i].id < self.tasks[j].id
        &&& forall|i: int| 0 <= i < self.tasks.len() ==> 1 <= #[trigger] self.tasks[i].id < self.next_id
    }

    pub open spec fn contains(self, id: u32) -> bool {
        exists|i: int| 0 <= i < self.tasks.len() && self.tasks[i].id == id
    }

    /// Where the task with `id` stands in `tasks` (meaningful when it is there).
    pub open spec fn index_of(self, id: u32) -> int {
        choose|i: int| 0 <= i < self.tasks.len() && self.tasks[i].id == id
    }

    pub open spec fn lookup(self, id: u32) -> Option<TaskView> {
        if self.contains(id) {
            Some(self.tasks[self.index_of(id)])
        } else {
            None
        }
    }

    /// Adding a task: it gets `next_id`, which then moves on by one.
    pub open spec fn add(self, title: Seq<char>, priority: Priority, category: Category) -> (
        StoreView,
        u32,
    ) {
        (
            StoreView {
                tasks: self.tasks.push(new_task(self.next_id, title, priority, category)),
                next_id: (self.next_id + 1) as u32,
            },
            self.next_id,
        )
    }

    /// Completing a task: refused for an unknown identifier and for a task
    /// that is already completed.
    pub open spec fn complete(self, id: u32) -> (StoreView, Result<(), TaskError>) {
        match self.lookup(id) {
            None => (self, Err(TaskError::NotFound(id))),
            Some(t) => if t.status == Status::Completed {
                (self, Err(TaskError::AlreadyCompleted(id)))
            } else {
                (StoreView { tasks: self.tasks.update(self.index_of(id), completed(t)), ..self }, Ok(()))
            },
        }
    }

    /// The store without the task `id`, when there is one.
    pub open spec fn delete(self, id: u32) -> StoreView {
        if self.contains(id) {
            StoreView { tasks: self.tasks.remove(self.index_of(id)), ..self }
        } else {
            self
        }
    }
}

/// A task with an identifier is found at exactly one place.
pub(crate) proof fn lemma_index_of(s: StoreView, i: int)
    requires
        s.wf(),
        0 <= i < s.tasks.len(),
    ensures
        s.contains(s.tasks[i].id),
        s.index_of(s.tasks[i].id) == i,
        s.lookup(s.tasks[i].id) == Some(s.tasks[i]),
{
    assert(s.contains(s.tasks[i].id));
    let j = s.index_of(s.tasks[i].id);
    if j < i {
        assert(s.tasks[j].id < s.tasks[i].id);
    } else if i < j {
        assert(s.tasks[i].id < s.tasks[j].id);
    }
}

/// A property of tasks that the store can select by.
pub trait Criterion {
    spec fn selects(&self, t: TaskView) -> bool;

    fn accepts(&self, t: &Task) -> (r: bool)
        ensures
            r == self.selects(t@),
    ;
}

impl Criterion for Priority {
    open spec fn selects(&self, t: TaskView) -> bool {
        t.priority == *self
    }

    fn accepts(&self, t: &Task) -> (r: bool) {
        t.priority == *self
    }
}

impl Criterion for Category {
    open spec fn selects(&self, t: TaskView) -> bool {
        t.category == *self
    }

    fn accepts(&self, t: &Task) -> (r: bool) {
        t.category == *self
    }
}

impl Criterion for Status {
    open spec fn selects(&self, t: TaskView) -> bool {
        t.status == *self
    }

    fn accepts(&self, t: &Task) -> (r: bool) {
        t.status == *self
    }
}

pub open spec fn selector<C: Criterion>(c: C) -> spec_fn(TaskView) -> bool {
    |t: TaskView| c.selects(t)
}

/// How many of `tasks` the criterion selects.
pub open spec fn count<C: Criterion>(tasks: Seq<TaskView>, c: C) -> nat {
    tasks.filter(selector(c)).len()
}

/// Filtering a prefix one element longer.
pub(crate) proof fn lemma_filter_take_step<A>(s: Seq<A>, pred: spec_fn(A) -> bool, i: int)
    requires
        0 <= i < s.len(),
    ensures
        s.take(i + 1).filter(pred) == if pred(s[i]) {
            s.take(i).filter(pred).push(s[i])
        } else {
            s.take(i).filter(pred)
        },
        s.take(i).filter(pred).len() <= i,
{
    reveal(Seq::filter);
    assert(s.take(i + 1).drop_last() =~= s.take(i));
    s.take(i).lemma_filter_len(pred);
}

/// What a list of borrowed tasks holds.
pub open spec fn views_of(s: Seq<&Task>) -> Seq<TaskView> {
    s.map_values(|t: &Task| t@)
}

pub open spec fn status_icon(s: Status) -> Seq<char> {
    match s {
        Status::Pending => "[ ]"@,
        Status::InProgress => "[~]"@,
        Status::Completed => "[✓]"@,
    }
}

/// How a task is shown: `[ ] #1: Title [High] [Work]`, followed by an
/// indented line with the description when there is one.
pub open spec fn rendered(t: TaskView) -> Seq<char> {
    status_icon(t.status) + " #"@ + decimal(t.id as nat) + ": "@ + t.title + " ["@ + priority_label(
        t.priority,
    ) + "] ["@ + category_label(t.category) + "]"@ + match t.description {
        Some(d) => "\n      "@ + d,
        None => Seq::empty(),
    }
}

/// A one-line summary: `#1: Title (Pending)`.
pub open spec fn summarized(t: TaskView) -> Seq<char> {
    "#"@ + decimal(t.id as nat) + ": "@ + t.title + " ("@ + status_label(t.status) + ")"@
}

impl Task {
    /// The task as shown in a listing.
    pub fn render(&self) -> (r: String)
        ensures
            r@ == rendered(self@),
    {
        let icon = match self.status {
            Status::Pending => "[ ]",
            Status::InProgress => "[~]",
            Status::Completed => "[✓]",
        };
        let mut r = String::from_str(icon);
        r.append(" #");
        r.append(decimal_string(self.id).as_str());
        r.append(": ");
        r.append(self.title.as_str());
        r.append(" [");
        r.append(self.priority.label());
        r.append("] [");
        r.append(self.category.label());
        r.append("]");
        match &self.description {
            Some(d) => {
                r.append("\n      ");
                r.append(d.as_str());
            },
            None => {},
        }
        proof {
            assert(r@ =~= rendered(self@));
        }
        r
    }

    pub fn summary(&self) -> (r: String)
        ensures
            r@ == summarized(self@),
    {
        let mut r = String::from_str("#");
        r.append(decimal_string(self.id).as_str());
        r.append(": ");
        r.append(self.title.as_str());
        r.append(" (");
        r.append(self.status.label());
        r.append(")");
        proof {
            assert(r@ =~= summarized(self@));
        }
        r
    }
}

/// The message for an error: `Task #3 not found`, `Task #3 is already
/// completed`, `Invalid input: ...`.
pub open spec fn error_message(e: TaskError) -> Seq<char> {
    match e {
        TaskError::NotFound(id) => "Task #"@ + decimal(id as nat) + " not found"@,
        TaskError::AlreadyCompleted(id) => "Task #"@ + decimal(id as nat) + " is already completed"@,
        TaskError::InvalidInput(msg) => "Invalid input: "@ + msg@,
    }
}

impl TaskError {
    pub fn message(&self) -> (r: String)
        ensures
            r@ == error_message(*self),
    {
        match self {
            TaskError::NotFound(id) => {
                let mut r = String::from_str("Task #");
                r.append(decimal_string(*id).as_str());
                r.append(" not found");
                r
            },
            TaskError::AlreadyCompleted(id) => {
                let mut r = String::from_str("Task #");
                r.append(decimal_string(*id).as_str());
                r.append(" is already completed");
                r
            },
            TaskError::InvalidInput(msg) => {
                let mut r = String::from_str("Invalid input: ");
                r.append(msg.as_str());
                r
            },
        }
    }
}

/// The task store.
pub struct TaskManager {
    tasks: Vec<Task>,
    next_id: u32,
}

impl View for TaskManager {
    type V = StoreView;

    closed spec fn view(&self) -> StoreView {
        StoreView { tasks: self.tasks@.map_values(|t: Task| t@), next_id: self.next_id }
    }
}

impl TaskManager {
    /// An empty store whose first task will get identifier 1.
    pub fn new() -> (r: TaskManager)
        ensures
            r@.wf(),
            r@.tasks.len() == 0,
            r@.next_id == 1,
    {
        TaskManager { tasks: Vec::new(), next_id: 1 }
    }

    /// The identifier that the next added task will get.
    pub fn next_id(&self) -> (r: u32)
        ensures
            r == self@.next_id,
    {
        self.next_id
    }

    /// Where the task `id` stands in the store, if it is there.
    fn position(&self, id: u32) -> (r: Option<usize>)
        requires
            self@.wf(),
        ensures
            match r {
                Some(i) => self@.contains(id) && i == self@.index_of(id),
                None => !self@.contains(id),
            },
    {
        let mut i: usize = 0;
        while i < self.tasks.len()
            invariant
                self@.wf(),
                i <= self.tasks.len(),
                forall|k: int| 0 <= k < i ==> self@.tasks[k].id != id,
            decreases self.tasks.len() - i,
        {
            if self.tasks[i].id == id {
                proof {
                    lemma_index_of(self@, i as int);
                }
                return Some(i);
            }
            i += 1;
        }
        None
    }

    /// Stores a new pending task under the next identifier and returns that identifier.
    pub fn add_task(&mut self, title: String, priority: Priority, category: Category) -> (r: u32)
        requires
            old(self)@.wf(),
            old(self)@.next_id < u32::MAX,
        ensures
            final(self)@.wf(),
            (final(self)@, r) == old(self)@.add(title@, priority, category),
    {
        let id = self.next_id;
        let task = Task::new(id, title, priority, category);
        self.tasks.push(task);
        self.next_id = self.next_id + 1;
        proof {
            assert(self@.tasks =~= old(self)@.add(title@, priority, category).0.tasks);
        }
        id
    }

    pub fn get_task(&self, id: u32) -> (r: Option<&Task>)
        requires
            self@.wf(),
        ensures
            match r {
                Some(t) => self@.lookup(id) == Some(t@),
                None => self@.lookup(id) == None::<TaskView>,
            },
    {
        match self.position(id) {
            Some(i) => Some(&self.tasks[i]),
            None => None,
        }
    }

    /// Marks the task `id` as completed.
    pub fn complete_task(&mut self, id: u32) -> (r: Result<(), TaskError>)
        requires
            old(self)@.wf(),
        ensures
            final(self)@.wf(),
            (final(self)@, r) == old(self)@.complete(id),
    {
        match self.position(id) {
            Some(i) => {
                let mut task = self.tasks.remove(i);
                let r = task.complete();
                self.tasks.insert(i, task);
                proof {
                    let old_tasks = old(self).tasks@;
                    if old(self)@.tasks[i as int].status == Status::Completed {
                        assert(self.tasks@ =~= old_tasks);
                    } else {
                        assert(self@.tasks =~= old(self)@.tasks.update(
                            i as int,
                            completed(old(self)@.tasks[i as int]),
                        ));
                    }
                }
                r
            },
            None => Err(TaskError::NotFound(id)),
        }
    }

    /// Removes the task `id` and hands it back.
    pub fn delete_task(&mut self, id: u32) -> (r: Result<Task, TaskError>)
        requires
            old(self)@.wf(),
        ensures
            final(self)@.wf(),
            final(self)@ == old(self)@.delete(id),
            match r {
                Ok(t) => old(self)@.lookup(id) == Some(t@),
                Err(e) => old(self)@.lookup(id) == None::<TaskView> && e == TaskError::NotFound(id),
            },
    {
        match self.position(id) {
            Some(i) => {
                let task = self.tasks.remove(i);
                proof {
                    assert(self@.tasks =~= old(self)@.tasks.remove(i as int));
                }
                Ok(task)
            },
            None => Err(TaskError::NotFound(id)),
        }
    }

    /// Every task, in the order of their identifiers.
    pub fn list_all(&self) -> (r: Vec<&Task>)
        ensures
            views_of(r@) == self@.tasks,
    {
        let mut r: Vec<&Task> = Vec::new();
        let mut i: usize = 0;
        while i < self.tasks.len()
            invariant
                i <= self.tasks.len(),
                views_of(r@) == self@.tasks.take(i as int),
            decreases self.tasks.len() - i,
        {
            let ghost before = r@;
            r.push(&self.tasks[i]);
            proof {
                assert(views_of(before).len() == i);
                assert(before.len() == i);
                assert(r@ == before.push(&self.tasks[i as int]));
                assert forall|k: int| 0 <= k < i + 1 implies #[trigger] views_of(r@)[k] == self@.tasks.take(i + 1)[k] by {
                    if k < i {
                        assert(r@[k] == before[k]);
                        assert(views_of(before)[k] == self@.tasks.take(i as int)[k]);
                    }
                }
                assert(views_of(r@) =~= self@.tasks.take(i + 1));
            }
            i += 1;
        }
        proof {
            assert(self@.tasks.take(i as int) =~= self@.tasks);
        }
        r
    }

    /// The tasks that `criterion` selects, in the order of their identifiers.
    pub fn filter_by<C: Criterion>(&self, criterion: C) -> (r: Vec<&Task>)
        ensures
            views_of(r@) == self@.tasks.filter(selector(criterion)),
    {
        let ghost pred = selector(criterion);
        let mut r: Vec<&Task> = Vec::new();
        let mut i: usize = 0;
        while i < self.tasks.len()
            invariant
                i <= self.tasks.len(),
                pred == selector(criterion),
                views_of(r@) == self@.tasks.take(i as int).filter(pred),
            decreases self.tasks.len() - i,
        {
            let ghost before = r@;
            proof {
                lemma_filter_take_step(self@.tasks, pred, i as int);
                assert(views_of(before).len() == before.len());
            }
            if criterion.accepts(&self.tasks[i]) {
                r.push(&self.tasks[i]);
                proof {
                    assert(views_of(r@) =~= views_of(before).push(self@.tasks[i as int]));
                }
            }
            i += 1;
        }
        proof {
            assert(self@.tasks.take(i as int) =~= self@.tasks);
        }
        r
    }

    /// How many tasks the store holds.
    pub fn count(&self) -> (r: usize)
        ensures
            r == self@.tasks.len(),
    {
        self.tasks.len()
    }
}


/// How many tasks there are of each priority.
pub struct PriorityCounts {
    pub low: usize,
    pub medium: usize,
    pub high: usize,
    pub urgent: usize,
}

impl PriorityCounts {
    pub open spec fn spec_get(&self, p: Priority) -> usize {
        match p {
            Priority::Low => self.low,
            Priority::Medium => self.medium,
            Priority::High => self.high,
            Priority::Urgent => self.urgent,
        }
    }

    #[verifier::when_used_as_spec(spec_get)]
    pub fn get(&self, p: Priority) -> (r: usize)
        ensures
            r == self.spec_get(p),
    {
        match p {
            Priority::Low => self.low,
            Priority::Medium => self.medium,
            Priority::High => self.high,
            Priority::Urgent => self.urgent,
        }
    }

    fn bump(&mut self, p: Priority)
        requires
            old(self).spec_get(p) < usize::MAX,
        ensures
            forall|q: Priority|
                #[trigger] final(self).spec_get(q) == old(self).spec_get(q) + if q == p {
                    1int
                } else {
                    0int
                },
    {
        match p {
            Priority::Low => self.low = self.low + 1,
            Priority::Medium => self.medium = self.medium + 1,
            Priority::High => self.high = self.high + 1,
            Priority::Urgent => self.urgent = self.urgent + 1,
        }
    }
}

/// How many tasks there are in each category.
pub struct CategoryCounts {
    pub work: usize,
    pub personal: usize,
    pub learning: usize,
    pub health: usize,
    pub finance: usize,
}

impl CategoryCounts {
    pub open spec fn spec_get(&self, c: Category) -> usize {
        match c {
            Category::Work => self.work,
            Category::Personal => self.personal,
            Category::Learning => self.learning,
            Category::Health => self.health,
            Category::Finance => self.finance,
        }
    }

    #[verifier::when_used_as_spec(spec_get)]
    pub fn get(&self, c: Category) -> (r: usize)
        ensures
            r == self.spec_get(c),
    {
        match c {
            Category::Work => self.work,
            Category::Personal => self.personal,
            Category::Learning => self.learning,
            Category::Health => self.health,
            Category::Finance => self.finance,
        }
    }

    fn bump(&mut self, c: Category)
        requires
            old(self).spec_get(c) < usize::MAX,
        ensures
            forall|d: Category|
                #[trigger] final(self).spec_get(d) == old(self).spec_get(d) + if d == c {
                    1int
                } else {
                    0int
                },
    {
        match c {
            Category::Work => self.work = self.work + 1,
            Category::Personal => self.personal = self.personal + 1,
            Category::Learning => self.learning = self.learning + 1,
            Category::Health => self.health = self.health + 1,
            Category::Finance => self.finance = self.finance + 1,
        }
    }
}

/// Counts over the whole store, taken in one scan.
pub struct Statistics {
    pub total: usize,
    pub completed: usize,
    pub pending: usize,
    pub in_progress: usize,
    pub by_priority: PriorityCounts,
    pub by_category: CategoryCounts,
}

impl Statistics {
    /// The statistics agree with `tasks`.
    pub open spec fn describes(&self, tasks: Seq<TaskView>) -> bool {
        &&& self.total == tasks.len()
        &&& self.completed == count(tasks, Status::Completed)
        &&& self.pending == count(tasks, Status::Pending)
        &&& self.in_progress == count(tasks, Status::InProgress)
        &&& forall|p: Priority| #[trigger] self.by_priority.spec_get(p) == count(tasks, p)
        &&& forall|c: Category| #[trigger] self.by_category.spec_get(c) == count(tasks, c)
    }
}

impl TaskManager {
    pub fn statistics(&self) -> (r: Statistics)
        ensures
            r.describes(self@.tasks),
    {
        let ghost tasks = self@.tasks;
        let mut completed: usize = 0;
        let mut pending: usize = 0;
        let mut in_progress: usize = 0;
        let mut by_priority = PriorityCounts { low: 0, medium: 0, high: 0, urgent: 0 };
        let mut by_category = CategoryCounts {
            work: 0,
            personal: 0,
            learning: 0,
            health: 0,
            finance: 0,
        };
        let mut i: usize = 0;
        while i < self.tasks.len()
            invariant
                tasks == self@.tasks,
                i <= self.tasks.len(),
                completed == count(tasks.take(i as int), Status::Completed),
                pending == count(tasks.take(i as int), Status::Pending),
                in_progress == count(tasks.take(i as int), Status::InProgress),
                forall|p: Priority| #[trigger]
                    by_priority.spec_get(p) == count(tasks.take(i as int), p),
                forall|c: Category| #[trigger]
                    by_category.spec_get(c) == count(tasks.take(i as int), c),
            decreases self.tasks.len() - i,
        {
            let task = &self.tasks[i];
            proof {
                lemma_filter_take_step(tasks, selector(Status::Completed), i as int);
                lemma_filter_take_step(tasks, selector(Status::Pending), i as int);
                lemma_filter_take_step(tasks, selector(Status::InProgress), i as int);
                assert forall|p: Priority| #[trigger] count(tasks.take(i + 1), p) == count(tasks.take(i as int), p)
                    + if tasks[i as int].priority == p { 1int } else { 0int } by {
                    lemma_filter_take_step(tasks, selector(p), i as int);
                }
                assert forall|c: Category| #[trigger] count(tasks.take(i + 1), c) == count(tasks.take(i as int), c)
                    + if tasks[i as int].category == c { 1int } else { 0int } by {
                    lemma_filter_take_step(tasks, selector(c), i as int);
                }
            }
            match task.status {
                Status::Completed => completed = completed + 1,
                Status::Pending => pending = pending + 1,
                Status::InProgress => in_progress = in_progress + 1,
            }
            by_priority.bump(task.priority);
            by_category.bump(task.category);
            i += 1;
        }
        proof {
            assert(tasks.take(i as int) =~= tasks);
        }
        Statistics {
            total: self.tasks.len(),
            completed,
            pending,
            in_progress,
            by_priority,
            by_category,
        }
    }
}

} // verus!
