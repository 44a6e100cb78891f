//! Plans: todo items and the snapshots that carry them.

use vstd::prelude::*;
use crate::clock::Timestamp;
use crate::dict::Dictionary;
use crate::json::{JsonModel, JsonValue};

verus! {

/// How far a step of a plan has come.
#[derive(Clone, Copy, Debug, PartialEq, Eq, Structural)]
pub enum StepStatus {
    Pending,
    InProgress,
    Completed,
}

/// The status of a todo item is the status of a step.
pub type TodoStatus = StepStatus;

/// One step of a plan as the engine states it.
#[derive(Debug, PartialEq, Eq)]
pub struct PlanItemArg {
    pub step: String,
    pub status: StepStatus,
}

impl Clone for PlanItemArg {
    fn clone(&self) -> (r: PlanItemArg)
        ensures
            r == *self,
    {
        PlanItemArg { step: self.step.clone(), status: self.status }
    }
}

impl From<TodoItem> for PlanItemArg {
    /// The step of a plan that the item stands for.
    fn from(todo: TodoItem) -> (r: PlanItemArg) {
        PlanItemArg { step: todo.content, status: todo.status }
    }
}

impl vstd::std_specs::convert::FromSpecImpl<TodoItem> for PlanItemArg {
    open spec fn obeys_from_spec() -> bool {
        true
    }

    open spec fn from_spec(todo: TodoItem) -> PlanItemArg {
        PlanItemArg { step: todo.content, status: todo.status }
    }
}

/// A whole plan as the engine states it.
#[derive(Debug, PartialEq, Eq)]
pub struct UpdatePlanArgs {
    pub explanation: Option<String>,
    pub plan: Vec<PlanItemArg>,
}

/// One task of a plan.
#[derive(Debug)]
pub struct TodoItem {
    /// The item's identifier, the 128 bits of a UUID.
    pub id: u128,
    /// What is to be done.
    pub content: String,
    pub status: StepStatus,
    /// From 1 to 5, 5 being the most urgent.
    pub priority: Option<u8>,
    pub tags: Vec<String>,
    pub created_at: Timestamp,
    pub updated_at: Timestamp,
    pub due_date: Option<Timestamp>,
    /// The estimated effort in hours, as the bits of a single-precision number.
    pub estimated_hours: Option<u32>,
    pub metadata: Dictionary<JsonValue>,
}

/// The lowest priority.
pub const MIN_PRIORITY: u8 = 1;

/// The highest priority.
pub const MAX_PRIORITY: u8 = 5;

/// `priority` brought into the range of priorities.
pub open spec fn clamped_priority(priority: u8) -> u8 {
    if priority < MIN_PRIORITY {
        MIN_PRIORITY
    } else if priority > MAX_PRIORITY {
        MAX_PRIORITY
    } else {
        priority
    }
}

impl TodoItem {
    /// Whether the item is as a constructor leaves it: the given content and
    /// status, and nothing else set.
    pub open spec fn is_fresh(self, content: Seq<char>, status: StepStatus) -> bool {
        &&& self.content@ == content
        &&& self.status == status
        &&& self.priority is None
        &&& self.tags@.len() == 0
        &&& self.created_at == self.updated_at
        &&& self.due_date is None
        &&& self.estimated_hours is None
        &&& self.metadata@ == Map::<Seq<char>, JsonModel>::empty()
    }

    /// Whether `self` and `other` agree on all but the status and the time of
    /// the last update.
    pub open spec fn same_task(self, other: TodoItem) -> bool {
        &&& self.id == other.id
        &&& self.content == other.content
        &&& self.priority == other.priority
        &&& self.tags == other.tags
        &&& self.created_at == other.created_at
        &&& self.due_date == other.due_date
        &&& self.estimated_hours == other.estimated_hours
        &&& self.metadata == other.metadata
    }

    /// Whether the item counts as overdue at the instant `now`: it has a due
    /// date, `now` is past it, and the item is not completed.
    pub open spec fn overdue_at(self, now: Timestamp) -> bool {
        match self.due_date {
            Some(due) => now.later_than(due) && self.status != StepStatus::Completed,
            None => false,
        }
    }

    /// A pending item with a new identifier, created now.
    pub fn new(content: &str) -> (r: TodoItem)
        ensures
            r.is_fresh(content@, StepStatus::Pending),
    {
        let now = crate::clock::now();
        TodoItem {
            id: crate::ident::fresh(),
            content: content.to_string(),
            status: StepStatus::Pending,
            priority: None,
            tags: Vec::new(),
            created_at: now,
            updated_at: now,
            due_date: None,
            estimated_hours: None,
            metadata: Dictionary::new(),
        }
    }

    /// Sets the priority, brought into the range from 1 to 5.
    pub fn with_priority(self, priority: u8) -> (r: TodoItem)
        ensures
            r.priority == Some(clamped_priority(priority)),
            r.same_task(TodoItem { priority: r.priority, ..self }),
            r.status == self.status,
    {
        let clamped = if priority < MIN_PRIORITY {
            MIN_PRIORITY
        } else if priority > MAX_PRIORITY {
            MAX_PRIORITY
        } else {
            priority
        };
        let mut item = self;
        item.priority = Some(clamped);
        item.updated_at = crate::clock::now();
        item
    }

    /// Adds `tags` behind the tags that the item has.
    pub fn with_tags(self, tags: Vec<String>) -> (r: TodoItem)
        ensures
            r.tags@ == self.tags@ + tags@,
            r.same_task(TodoItem { tags: r.tags, ..self }),
            r.status == self.status,
    {
        let mut item = self;
        let mut more = tags;
        let mut all = item.tags;
        all.append(&mut more);
        item.tags = all;
        item.updated_at = crate::clock::now();
        item
    }

    /// Sets the due date.
    pub fn with_due_date(self, due_date: Timestamp) -> (r: TodoItem)
        ensures
            r.due_date == Some(due_date),
            r.same_task(TodoItem { due_date: r.due_date, ..self }),
            r.status == self.status,
    {
        let mut item = self;
        item.due_date = Some(due_date);
        item.updated_at = crate::clock::now();
        item
    }

    /// Sets the status.
    pub fn update_status(&mut self, status: StepStatus)
        ensures
            final(self).status == status,
            final(self).same_task(*old(self)),
    {
        self.status = status;
        self.updated_at = crate::clock::now();
    }

    /// Marks the item as completed.
    pub fn complete(&mut self)
        ensures
            final(self).status == StepStatus::Completed,
            final(self).same_task(*old(self)),
    {
        self.update_status(StepStatus::Completed);
    }

    /// Marks the item as in progress.
    pub fn start(&mut self)
        ensures
            final(self).status == StepStatus::InProgress,
            final(self).same_task(*old(self)),
    {
        self.update_status(StepStatus::InProgress);
    }

    /// Puts the item back to pending.
    pub fn reset(&mut self)
        ensures
            final(self).status == StepStatus::Pending,
            final(self).same_task(*old(self)),
    {
        self.update_status(StepStatus::Pending);
    }

    /// Whether the item is overdue at the instant `now`.
    pub fn is_overdue_at(&self, now: &Timestamp) -> (r: bool)
        ensures
            r == self.overdue_at(*now),
    {
        match &self.due_date {
            Some(due) => now.is_after(due) && !matches!(self.status, StepStatus::Completed),
            None => false,
        }
    }

    /// Whether the item is overdue by the system clock: whether it is
    /// overdue at the instant that the clock shows, which is not before 1970.
    /// So an item without a due date, and a completed one, is never overdue,
    /// and an item that is not completed and was due before 1970 always is.
    pub fn is_overdue(&self) -> (r: bool)
        ensures
            exists|now: Timestamp| now.secs >= 0 && r == #[trigger] self.overdue_at(now),
            (self.due_date is None || self.status == StepStatus::Completed) ==> !r,
            (self.due_date matches Some(due) && due.secs < 0 && self.status
                != StepStatus::Completed) ==> r,
    {
        let now = crate::clock::now();
        self.is_overdue_at(&now)
    }

    /// Stores `value` under `key` in the item's metadata.
    pub fn add_metadata(&mut self, key: String, value: JsonValue)
        ensures
            final(self).metadata@ == old(self).metadata@.insert(key@, value@),
            final(self).status == old(self).status,
            final(self).same_task(TodoItem { metadata: final(self).metadata, ..*old(self) }),
    {
        self.metadata.insert(key, value);
        self.updated_at = crate::clock::now();
    }

    /// The metadata stored under `key`, if there is any.
    pub fn get_metadata(&self, key: &String) -> (r: Option<&JsonValue>)
        ensures
            match r {
                Some(v) => self.metadata@.contains_key(key@) && self.metadata@[key@] == v@,
                None => !self.metadata@.contains_key(key@),
            },
    {
        self.metadata.get(key)
    }

    /// The step of a plan that the item stands for.
    pub fn to_plan_item_arg(&self) -> (r: PlanItemArg)
        ensures
            r.step == self.content,
            r.status == self.status,
    {
        PlanItemArg { step: self.content.clone(), status: self.status }
    }

    /// An item for a step of a plan, with a new identifier, created now.
    pub fn from_plan_item_arg(plan_item: PlanItemArg) -> (r: TodoItem)
        ensures
            r.is_fresh(plan_item.step@, plan_item.status),
            r.content == plan_item.step,
    {
        let now = crate::clock::now();
        TodoItem {
            id: crate::ident::fresh(),
            content: plan_item.step,
            status: plan_item.status,
            priority: None,
            tags: Vec::new(),
            created_at: now,
            updated_at: now,
            due_date: None,
            estimated_hours: None,
            metadata: Dictionary::new(),
        }
    }
}

/// Names and notes that go with a plan.
#[derive(Debug)]
pub struct PlanMetadata {
    pub name: Option<String>,
    pub description: Option<String>,
    pub version: Option<u32>,
    pub created_by: Option<String>,
    pub tags: Vec<String>,
    pub custom: Dictionary<JsonValue>,
}

impl PlanMetadata {
    /// Whether nothing is set.
    pub open spec fn is_blank(self) -> bool {
        &&& self.name is None
        &&& self.description is None
        &&& self.version is None
        &&& self.created_by is None
        &&& self.tags@.len() == 0
        &&& self.custom@ == Map::<Seq<char>, JsonModel>::empty()
    }

    /// Metadata with nothing set.
    pub fn new() -> (r: PlanMetadata)
        ensures
            r.is_blank(),
    {
        PlanMetadata {
            name: None,
            description: None,
            version: None,
            created_by: None,
            tags: Vec::new(),
            custom: Dictionary::new(),
        }
    }

    /// Sets the name.
    pub fn with_name(self, name: &str) -> (r: PlanMetadata)
        ensures
            r.name matches Some(n) && n@ == name@,
            r == (PlanMetadata { name: r.name, ..self }),
    {
        let mut m = self;
        m.name = Some(name.to_string());
        m
    }

    /// Sets the description.
    pub fn with_description(self, description: &str) -> (r: PlanMetadata)
        ensures
            r.description matches Some(d) && d@ == description@,
            r == (PlanMetadata { description: r.description, ..self }),
    {
        let mut m = self;
        m.description = Some(description.to_string());
        m
    }

    /// Sets the version.
    pub fn with_version(self, version: u32) -> (r: PlanMetadata)
        ensures
            r == (PlanMetadata { version: Some(version), ..self }),
    {
        let mut m = self;
        m.version = Some(version);
        m
    }

    /// Sets the author.
    pub fn with_created_by(self, created_by: &str) -> (r: PlanMetadata)
        ensures
            r.created_by matches Some(c) && c@ == created_by@,
            r == (PlanMetadata { created_by: r.created_by, ..self }),
    {
        let mut m = self;
        m.created_by = Some(created_by.to_string());
        m
    }

    /// Adds `tags` behind the tags that are there.
    pub fn with_tags(self, tags: Vec<String>) -> (r: PlanMetadata)
        ensures
            r.tags@ == self.tags@ + tags@,
            r == (PlanMetadata { tags: r.tags, ..self }),
    {
        let mut m = self;
        let mut more = tags;
        let mut all = m.tags;
        all.append(&mut more);
        m.tags = all;
        m
    }

    /// Stores `value` under `key` in the custom entries.
    pub fn with_custom(self, key: String, value: JsonValue) -> (r: PlanMetadata)
        ensures
            r.custom@ == self.custom@.insert(key@, value@),
            r == (PlanMetadata { custom: r.custom, ..self }),
    {
        let mut m = self;
        m.custom.insert(key, value);
        m
    }
}

impl Default for PlanMetadata {
    fn default() -> (r: PlanMetadata)
        ensures
            r.is_blank(),
    {
        PlanMetadata::new()
    }
}

/// The items of `todos` that have the status `status`, in their order.
pub open spec fn todos_with_status(todos: Seq<TodoItem>, status: StepStatus) -> Seq<TodoItem>
    decreases todos.len(),
{
    if todos.len() == 0 {
        Seq::empty()
    } else if todos.last().status == status {
        todos_with_status(todos.drop_last(), status).push(todos.last())
    } else {
        todos_with_status(todos.drop_last(), status)
    }
}

/// No more items have a given status than there are items.
pub proof fn lemma_todos_with_status_len(todos: Seq<TodoItem>, status: StepStatus)
    ensures
        todos_with_status(todos, status).len() <= todos.len(),
    decreases todos.len(),
{
    if todos.len() > 0 {
        lemma_todos_with_status_len(todos.drop_last(), status);
    }
}

/// A snapshot of a plan. Each snapshot replaces the one before it.
#[derive(Debug)]
pub struct PlanMessage {
    pub todos: Vec<TodoItem>,
    pub metadata: Option<PlanMetadata>,
    /// When the snapshot was made.
    pub timestamp: Timestamp,
}

impl PlanMessage {
    /// How many items are completed.
    pub open spec fn completed(self) -> nat {
        todos_with_status(self.todos@, StepStatus::Completed).len()
    }

    /// The completed share of the plan as a fraction: the completed items over
    /// all items, and one over one for a plan without items.
    pub open spec fn completion(self) -> (nat, nat) {
        if self.todos@.len() == 0 {
            (1, 1)
        } else {
            (self.completed(), self.todos@.len())
        }
    }

    /// Whether the snapshot is the plan that the engine states in `args`: an
    /// item for each step, in order, with the step's text and status and
    /// nothing else set, and the explanation as the only metadata.
    pub open spec fn reflects(self, args: UpdatePlanArgs) -> bool {
        &&& self.todos@.len() == args.plan@.len()
        &&& forall|i: int|
            0 <= i < args.plan@.len() ==> (#[trigger] self.todos@[i]).is_fresh(
                args.plan@[i].step@,
                args.plan@[i].status,
            )
        &&& self.metadata matches Some(m) && m.description == args.explanation && (PlanMetadata {
            description: None,
            ..m
        }).is_blank()
    }

    /// A snapshot of `todos` without metadata, made now.
    pub fn new(todos: Vec<TodoItem>) -> (r: PlanMessage)
        ensures
            r.todos == todos,
            r.metadata is None,
    {
        PlanMessage { todos, metadata: None, timestamp: crate::clock::now() }
    }

    /// A snapshot of `todos` with `metadata`, made now.
    pub fn with_metadata(todos: Vec<TodoItem>, metadata: PlanMetadata) -> (r: PlanMessage)
        ensures
            r.todos == todos,
            r.metadata == Some(metadata),
    {
        PlanMessage { todos, metadata: Some(metadata), timestamp: crate::clock::now() }
    }

    /// The plan as the engine states one: a step for each item, in order.
    pub fn to_update_plan_args(&self, explanation: Option<String>) -> (r: UpdatePlanArgs)
        ensures
            r.explanation == explanation,
            r.plan@.len() == self.todos@.len(),
            forall|i: int|
                0 <= i < self.todos@.len() ==> (#[trigger] r.plan@[i]).step == self.todos@[i].content
                    && r.plan@[i].status == self.todos@[i].status,
    {
        let mut plan: Vec<PlanItemArg> = Vec::new();
        let mut i: usize = 0;
        while i < self.todos.len()
            invariant
                i <= self.todos@.len(),
                plan@.len() == i,
                forall|k: int|
                    0 <= k < i ==> (#[trigger] plan@[k]).step == self.todos@[k].content
                        && plan@[k].status == self.todos@[k].status,
            decreases self.todos@.len() - i,
        {
            plan.push(self.todos[i].to_plan_item_arg());
            i = i + 1;
        }
        UpdatePlanArgs { explanation, plan }
    }

    /// A snapshot of the plan that the engine states: a new item for each
    /// step, in order, and the explanation as the description.
    pub fn from_update_plan_args(args: UpdatePlanArgs) -> (r: PlanMessage)
        ensures
            r.reflects(args),
    {
        let mut todos: Vec<TodoItem> = Vec::new();
        let mut i: usize = 0;
        while i < args.plan.len()
            invariant
                i <= args.plan@.len(),
                todos@.len() == i,
                forall|k: int|
                    0 <= k < i ==> (#[trigger] todos@[k]).is_fresh(
                        args.plan@[k].step@,
                        args.plan@[k].status,
                    ),
            decreases args.plan@.len() - i,
        {
            todos.push(TodoItem::from_plan_item_arg(args.plan[i].clone()));
            i = i + 1;
        }
        let mut metadata = PlanMetadata::new();
        metadata.description = args.explanation;
        PlanMessage { todos, metadata: Some(metadata), timestamp: crate::clock::now() }
    }

    fn select(&self, status: StepStatus) -> (r: Vec<&TodoItem>)
        ensures
            r@.len() == todos_with_status(self.todos@, status).len(),
            forall|i: int|
                0 <= i < r@.len() ==> *(#[trigger] r@[i]) == todos_with_status(
                    self.todos@,
                    status,
                )[i],
    {
        let mut out: Vec<&TodoItem> = Vec::new();
        let mut i: usize = 0;
        while i < self.todos.len()
            invariant
                i <= self.todos@.len(),
                out@.len() == todos_with_status(self.todos@.take(i as int), status).len(),
                forall|k: int|
                    0 <= k < out@.len() ==> *(#[trigger] out@[k]) == todos_with_status(
                        self.todos@.take(i as int),
                        status,
                    )[k],
            decreases self.todos@.len() - i,
        {
            proof {
                assert(self.todos@.take(i + 1).drop_last() =~= self.todos@.take(i as int));
            }
            if self.todos[i].status == status {
                out.push(&self.todos[i]);
            }
            i = i + 1;
        }
        proof {
            assert(self.todos@.take(i as int) =~= self.todos@);
        }
        out
    }

    /// The completed items, in order.
    pub fn completed_todos(&self) -> (r: Vec<&TodoItem>)
        ensures
            r@.len() == todos_with_status(self.todos@, StepStatus::Completed).len(),
            forall|i: int|
                0 <= i < r@.len() ==> *(#[trigger] r@[i]) == todos_with_status(
                    self.todos@,
                    StepStatus::Completed,
                )[i],
    {
        self.select(StepStatus::Completed)
    }

    /// The pending items, in order.
    pub fn pending_todos(&self) -> (r: Vec<&TodoItem>)
        ensures
            r@.len() == todos_with_status(self.todos@, StepStatus::Pending).len(),
            forall|i: int|
                0 <= i < r@.len() ==> *(#[trigger] r@[i]) == todos_with_status(
                    self.todos@,
                    StepStatus::Pending,
                )[i],
    {
        self.select(StepStatus::Pending)
    }

    /// The items in progress, in order.
    pub fn in_progress_todos(&self) -> (r: Vec<&TodoItem>)
        ensures
            r@.len() == todos_with_status(self.todos@, StepStatus::InProgress).len(),
            forall|i: int|
                0 <= i < r@.len() ==> *(#[trigger] r@[i]) == todos_with_status(
                    self.todos@,
                    StepStatus::InProgress,
                )[i],
    {
        self.select(StepStatus::InProgress)
    }

    /// The completed share of the plan as a fraction, numerator first. A plan
    /// without items is complete: one over one.
    pub fn completion_fraction(&self) -> (r: (usize, usize))
        ensures
            r.0 == self.completion().0,
            r.1 == self.completion().1,
            r.0 <= r.1,
            r.1 > 0,
    {
        proof {
            lemma_todos_with_status_len(self.todos@, StepStatus::Completed);
        }
        if self.todos.len() == 0 {
            (1, 1)
        } else {
            (self.completed_todos().len(), self.todos.len())
        }
    }
}

} // verus!
