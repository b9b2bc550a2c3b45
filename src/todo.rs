//! A todo list: tasks with tags, completion, search by title, statistics and
//! a line-per-task text form.
use vstd::prelude::*;
use vstd::string::*;
use crate::task_manager::{Status, lemma_filter_take_step, status_label};
use crate::text::{
    contains_str, decimal, decimal_string, is_substring, join, join_strings, lower_of, lowercase,
    strings_of,
};

verus! {

/// How urgent a todo item is.
#[derive(Clone, Copy, Debug, PartialEq, Eq, Structural, Hash)]
pub enum Priority {
    Low,
    Medium,
    High,
}

pub open spec fn priority_label(p: Priority) -> Seq<char> {
    match p {
        Priority::Low => "Low"@,
        Priority::Medium => "Medium"@,
        Priority::High => "High"@,
    }
}

impl Priority {
    /// The name shown for the priority.
    pub fn label(&self) -> (r: &'static str)
        ensures
            r@ == priority_label(*self),
    {
        match self {
            Priority::Low => "Low",
            Priority::Medium => "Medium",
            Priority::High => "High",
        }
    }
}

/// Why an operation of the todo list failed.
#[derive(Debug)]
pub enum TodoError {
    TaskNotFound(u32),
    AlreadyCompleted(u32),
    /// Writing the list out failed; the text says why.
    IoError(String),
}

pub open spec fn todo_error_message(e: TodoError) -> Seq<char> {
    match e {
        TodoError::TaskNotFound(id) => "Task #"@ + decimal(id as nat) + " not found"@,
        TodoError::AlreadyCompleted(id) => "Task #"@ + decimal(id as nat) + " is already completed"@,
        TodoError::IoError(text) => "IO error: "@ + text@,
    }
}

impl TodoError {
    /// The message for the error: `Task #3 not found` or `IO error: ...`.
    pub fn message(&self) -> (r: String)
        ensures
            r@ == todo_error_message(*self),
    {
        match self {
            TodoError::TaskNotFound(id) => {
                let mut r = String::from_str("Task #");
                r.append(decimal_string(*id).as_str());
                r.append(" not found");
                r
            },
            TodoError::AlreadyCompleted(id) => {
                let mut r = String::from_str("Task #");
                r.append(decimal_string(*id).as_str());
                r.append(" is already completed");
                r
            },
            TodoError::IoError(text) => {
                let mut r = String::from_str("IO error: ");
                r.append(text.as_str());
                r
            },
        }
    }
}

/// One todo item.
#[derive(Debug)]
pub struct Task {
    pub id: u32,
    pub title: String,
    pub priority: Priority,
    pub status: Status,
    pub tags: Vec<String>,
}

pub struct TaskView {
    pub id: u32,
    pub title: Seq<char>,
    pub priority: Priority,
    pub status: Status,
    pub tags: Seq<Seq<char>>,
}

impl View for Task {
    type V = TaskView;

    open spec fn view(&self) -> TaskView {
        TaskView {
            id: self.id,
            title: self.title@,
            priority: self.priority,
            status: self.status,
            tags: strings_of(self.tags@),
        }
    }
}

impl Task {
    /// A pending task.
    pub fn new(id: u32, title: &str, priority: Priority, tags: Vec<String>) -> (r: Task)
        ensures
            r@ == (TaskView {
                id,
                title: title@,
                priority,
                status: Status::Pending,
                tags: strings_of(tags@),
            }),
    {
        Task { id, title: String::from_str(title), priority, status: Status::Pending, tags }
    }
}

pub open spec fn status_icon(s: Status) -> Seq<char> {
    match s {
        Status::Pending => "[ ]"@,
        Status::InProgress => "[~]"@,
        Status::Completed => "[x]"@,
    }
}

/// How a task is shown: `[ ] #1: Title [High] [tag, tag]`, the last part
/// only when there are tags.
pub open spec fn rendered(t: TaskView) -> Seq<char> {
    status_icon(t.status) + " #"@ + decimal(t.id as nat) + ": "@ + t.title + " ["@ + priority_label(
        t.priority,
    ) + "]"@ + if t.tags.len() == 0 {
        Seq::empty()
    } else {
        " ["@ + join(t.tags, ", "@) + "]"@
    }
}

/// How a task is saved: `id|title|priority|status|tags`, the tags joined by commas.
pub open spec fn saved_line(t: TaskView) -> Seq<char> {
    decimal(t.id as nat) + "|"@ + t.title + "|"@ + priority_label(t.priority) + "|"@ + status_label(
        t.status,
    ) + "|"@ + join(t.tags, ","@)
}

impl Task {
    /// The task as shown in a listing.
    pub fn render(&self) -> (r: String)
        ensures
            r@ == rendered(self@),
    {
        let icon = match self.status {
            Status::Pending => "[ ]",
            Status::InProgress => "[~]",
            Status::Completed => "[x]",
        };
        let mut r = String::from_str(icon);
        r.append(" #");
        r.append(decimal_string(self.id).as_str());
        r.append(": ");
        r.append(self.title.as_str());
        r.append(" [");
        r.append(self.priority.label());
        r.append("]");
        if self.tags.len() > 0 {
            r.append(" [");
            r.append(join_strings(&self.tags, ", ").as_str());
            r.append("]");
        }
        proof {
            assert(r@ =~= rendered(self@));
        }
        r
    }

    /// The task as one line of the saved form.
    pub fn saved_line(&self) -> (r: String)
        ensures
            r@ == saved_line(self@),
    {
        let mut r = decimal_string(self.id);
        r.append("|");
        r.append(self.title.as_str());
        r.append("|");
        r.append(self.priority.label());
        r.append("|");
        r.append(self.status.label());
        r.append("|");
        r.append(join_strings(&self.tags, ",").as_str());
        proof {
            assert(r@ =~= saved_line(self@));
        }
        r
    }
}

pub open spec fn saved_form(tasks: Seq<TaskView>) -> Seq<Seq<char>> {
    tasks.map_values(|t: TaskView| saved_line(t))
}

/// The tags of a task added with `tag`: none for an empty tag, else that one.
pub open spec fn tags_from(tag: Seq<char>) -> Seq<Seq<char>> {
    if tag.len() == 0 {
        Seq::empty()
    } else {
        seq![tag]
    }
}

/// The mathematical content of a todo list: its tasks in the order of their
/// identifiers, and the identifier that the next task will get.
pub struct TodoView {
    pub tasks: Seq<TaskView>,
    pub next_id: u32,
}

impl TodoView {
    /// Identifiers are positive, strictly increasing along `tasks`, and all
    /// below `next_id`.
    pub open spec fn wf(self) -> bool {
        &&& 1 <= self.next_id
        &&& forall|i: int, j: int|
            0 <= i < j < self.tasks.len() ==> self.tasks[i].id < self.tasks[j].id
        &&& forall|i: int| 0 <= i < self.tasks.len() ==> 1 <= #[trigger] self.tasks[i].id < self.next_id
    }

    pub open spec fn contains(self, id: u32) -> bool {
        exists|i: int| 0 <= i < self.tasks.len() && self.tasks[i].id == id
    }

    pub open spec fn index_of(self, id: u32) -> int {
        choose|i: int| 0 <= i < self.tasks.len() && self.tasks[i].id == id
    }

    /// Adding a task under `next_id`.
    pub open spec fn add(self, title: Seq<char>, priority: Priority, tag: Seq<char>) -> (TodoView, u32) {
        (
            TodoView {
                tasks: self.tasks.push(
                    TaskView {
                        id: self.next_id,
                        title,
                        priority,
                        status: Status::Pending,
                        tags: tags_from(tag),
                    },
                ),
                next_id: (self.next_id + 1) as u32,
            },
            self.next_id,
        )
    }

    /// The task `id` is there and already completed.
    pub open spec fn is_completed(self, id: u32) -> bool {
        self.contains(id) && self.tasks[self.index_of(id)].status == Status::Completed
    }

    /// The list with task `id` marked completed.
    pub open spec fn complete(self, id: u32) -> TodoView {
        let t = self.tasks[self.index_of(id)];
        TodoView {
            tasks: self.tasks.update(self.index_of(id), TaskView { status: Status::Completed, ..t }),
            ..self
        }
    }
}

proof fn lemma_index_of(s: TodoView, i: int)
    requires
        s.wf(),
        0 <= i < s.tasks.len(),
    ensures
        s.contains(s.tasks[i].id),
        s.index_of(s.tasks[i].id) == i,
{
    assert(s.contains(s.tasks[i].id));
    let j = s.index_of(s.tasks[i].id);
    if j < i {
        assert(s.tasks[j].id < s.tasks[i].id);
    } else if i < j {
        assert(s.tasks[i].id < s.tasks[j].id);
    }
}

/// Completing a task that is not yet completed leaves it completed, so a
/// second completion of the same identifier is refused.
pub proof fn lemma_complete_then_completed(s: TodoView, id: u32)
    requires
        s.wf(),
        s.contains(id),
        !s.is_completed(id),
    ensures
        s.complete(id).wf(),
        s.complete(id).is_completed(id),
{
    let i = s.index_of(id);
    let s1 = s.complete(id);
    assert forall|k: int| 0 <= k < s1.tasks.len() implies #[trigger] s1.tasks[k].id
        == s.tasks[k].id by {}
    lemma_index_of(s1, i);
}

pub open spec fn views_of(s: Seq<&Task>) -> Seq<TaskView> {
    s.map_values(|t: &Task| t@)
}

pub open spec fn with_status(status: Status) -> spec_fn(TaskView) -> bool {
    |t: TaskView| t.status == status
}

/// The title matches a query when, both lower-cased, the query occurs in it.
pub open spec fn title_matches(query: Seq<char>) -> spec_fn(TaskView) -> bool {
    |t: TaskView| is_substring(lower_of(query), lower_of(t.title))
}

/// The todo list.
pub struct TodoApp {
    tasks: Vec<Task>,
    next_id: u32,
}

impl View for TodoApp {
    type V = TodoView;

    closed spec fn view(&self) -> TodoView {
        TodoView { tasks: self.tasks@.map_values(|t: Task| t@), next_id: self.next_id }
    }
}

impl TodoApp {
    /// An empty list whose first task will get identifier 1.
    pub fn new() -> (r: TodoApp)
        ensures
            r@.wf(),
            r@.tasks.len() == 0,
            r@.next_id == 1,
    {
        TodoApp { tasks: Vec::new(), next_id: 1 }
    }

    /// The identifier that the next added task will get.
    pub fn next_id(&self) -> (r: u32)
        ensures
            r == self@.next_id,
    {
        self.next_id
    }

    /// Adds a pending task, tagged with `tag` unless it is empty, and returns
    /// its identifier.
    pub fn add_task(&mut self, title: &str, priority: Priority, tag: &str) -> (r: u32)
        requires
            old(self)@.wf(),
            old(self)@.next_id < u32::MAX,
        ensures
            final(self)@.wf(),
            (final(self)@, r) == old(self)@.add(title@, priority, tag@),
    {
        let mut tags: Vec<String> = Vec::new();
        if !tag.is_empty() {
            tags.push(String::from_str(tag));
        }
        proof {
            assert(strings_of(tags@) =~= tags_from(tag@));
        }
        let task = Task::new(self.next_id, title, priority, tags);
        self.tasks.push(task);
        self.next_id = self.next_id + 1;
        proof {
            assert(self@.tasks =~= old(self)@.add(title@, priority, tag@).0.tasks);
        }
        self.next_id - 1
    }

    /// Marks the task `id` as completed; refused for an unknown identifier and
    /// for a task that is already completed, leaving the list as it was.
    pub fn complete_task(&mut self, id: u32) -> (r: Result<(), TodoError>)
        requires
            old(self)@.wf(),
        ensures
            final(self)@.wf(),
            match r {
                Ok(()) => old(self)@.contains(id) && !old(self)@.is_completed(id) && final(self)@
                    == old(self)@.complete(id),
                Err(e) => final(self)@ == old(self)@ && if old(self)@.contains(id) {
                    old(self)@.is_completed(id) && e == TodoError::AlreadyCompleted(id)
                } else {
                    e == TodoError::TaskNotFound(id)
                },
            },
    {
        let mut i: usize = 0;
        while i < self.tasks.len()
            invariant
                self@ == old(self)@,
                self@.wf(),
                i <= self.tasks.len(),
                forall|k: int| 0 <= k < i ==> self@.tasks[k].id != id,
            decreases self.tasks.len() - i,
        {
            if self.tasks[i].id == id {
                proof {
                    lemma_index_of(self@, i as int);
                }
                if self.tasks[i].status == Status::Completed {
                    return Err(TodoError::AlreadyCompleted(id));
                }
                let mut task = self.tasks.remove(i);
                task.status = Status::Completed;
                self.tasks.insert(i, task);
                proof {
                    assert(self@.tasks =~= old(self)@.complete(id).tasks);
                    assert forall|k: int| 0 <= k < self@.tasks.len() implies #[trigger] self@.tasks[k].id
                        == old(self)@.tasks[k].id by {}
                }
                return Ok(());
            }
            i += 1;
        }
        Err(TodoError::TaskNotFound(id))
    }

    /// Every task, in the order of their identifiers.
    pub fn list_all(&self) -> (r: Vec<&Task>)
        ensures
            views_of(r@) == self@.tasks,
    {
        let mut r: Vec<&Task> = Vec::new();
        let mut i: usize = 0;
        while i < self.tasks.len()
            invariant
                i <= self.tasks.len(),
                views_of(r@) == self@.tasks.take(i as int),
            decreases self.tasks.len() - i,
        {
            let ghost before = r@;
            proof {
                assert(views_of(before).len() == before.len());
            }
            r.push(&self.tasks[i]);
            proof {
                assert(views_of(r@) =~= views_of(before).push(self@.tasks[i as int]));
                assert(self@.tasks.take(i + 1) =~= self@.tasks.take(i as int).push(self@.tasks[i as int]));
            }
            i += 1;
        }
        proof {
            assert(self@.tasks.take(i as int) =~= self@.tasks);
        }
        r
    }

    /// The tasks with the given status, in the order of their identifiers.
    pub fn list_by_status(&self, status: Status) -> (r: Vec<&Task>)
        ensures
            views_of(r@) == self@.tasks.filter(with_status(status)),
    {
        let ghost pred = with_status(status);
        let mut r: Vec<&Task> = Vec::new();
        let mut i: usize = 0;
        while i < self.tasks.len()
            invariant
                i <= self.tasks.len(),
                pred == with_status(status),
                views_of(r@) == self@.tasks.take(i as int).filter(pred),
            decreases self.tasks.len() - i,
        {
            let ghost before = r@;
            proof {
                lemma_filter_take_step(self@.tasks, pred, i as int);
                assert(views_of(before).len() == before.len());
            }
            if self.tasks[i].status == status {
                r.push(&self.tasks[i]);
                proof {
                    assert(views_of(r@) =~= views_of(before).push(self@.tasks[i as int]));
                }
            }
            i += 1;
        }
        proof {
            assert(self@.tasks.take(i as int) =~= self@.tasks);
        }
        r
    }

    /// The tasks whose title holds `query`, ignoring case, in the order of
    /// their identifiers.
    pub fn search(&self, query: &str) -> (r: Vec<&Task>)
        ensures
            views_of(r@) == self@.tasks.filter(title_matches(query@)),
    {
        let q = lowercase(query);
        let ghost pred = title_matches(query@);
        let mut r: Vec<&Task> = Vec::new();
        let mut i: usize = 0;
        while i < self.tasks.len()
            invariant
                i <= self.tasks.len(),
                q@ == lower_of(query@),
                pred == title_matches(query@),
                views_of(r@) == self@.tasks.take(i as int).filter(pred),
            decreases self.tasks.len() - i,
        {
            let ghost before = r@;
            proof {
                lemma_filter_take_step(self@.tasks, pred, i as int);
                assert(views_of(before).len() == before.len());
            }
            let title = lowercase(self.tasks[i].title.as_str());
            if contains_str(title.as_str(), q.as_str()) {
                r.push(&self.tasks[i]);
                proof {
                    assert(views_of(r@) =~= views_of(before).push(self@.tasks[i as int]));
                }
            }
            i += 1;
        }
        proof {
            assert(self@.tasks.take(i as int) =~= self@.tasks);
        }
        r
    }

    /// Totals over the list; every task that is not completed counts as pending.
    pub fn stats(&self) -> (r: TodoStats)
        ensures
            r.total == self@.tasks.len(),
            r.completed == self@.tasks.filter(with_status(Status::Completed)).len(),
            r.pending == r.total - r.completed,
    {
        let ghost pred = with_status(Status::Completed);
        let mut completed: usize = 0;
        let mut i: usize = 0;
        while i < self.tasks.len()
            invariant
                i <= self.tasks.len(),
                pred == with_status(Status::Completed),
                completed == self@.tasks.take(i as int).filter(pred).len(),
            decreases self.tasks.len() - i,
        {
            proof {
                lemma_filter_take_step(self@.tasks, pred, i as int);
            }
            if self.tasks[i].status == Status::Completed {
                completed = completed + 1;
            }
            i += 1;
        }
        proof {
            assert(self@.tasks.take(i as int) =~= self@.tasks);
            self@.tasks.lemma_filter_len(pred);
        }
        TodoStats { total: self.tasks.len(), completed, pending: self.tasks.len() - completed }
    }

    /// The saved form of the list: one line per task, in the order of their
    /// identifiers.
    pub fn saved_lines(&self) -> (r: Vec<String>)
        ensures
            strings_of(r@) == saved_form(self@.tasks),
    {
        let mut r: Vec<String> = Vec::new();
        let mut i: usize = 0;
        while i < self.tasks.len()
            invariant
                i <= self.tasks.len(),
                strings_of(r@) == saved_form(self@.tasks.take(i as int)),
            decreases self.tasks.len() - i,
        {
            let ghost before = r@;
            let line = self.tasks[i].saved_line();
            r.push(line);
            proof {
                assert(strings_of(before).len() == before.len());
                assert(strings_of(r@) =~= strings_of(before).push(saved_line(self@.tasks[i as int])));
                assert(strings_of(r@) =~= saved_form(self@.tasks.take(i + 1)));
            }
            i += 1;
        }
        proof {
            assert(self@.tasks.take(i as int) =~= self@.tasks);
        }
        r
    }
}

/// Totals over a todo list.
pub struct TodoStats {
    pub total: usize,
    pub completed: usize,
    pub pending: usize,
}

} // verus!
