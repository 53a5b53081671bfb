//! Task creation: request validation, the ownership checks on related
//! records, and the sequence of reads and writes that creates a task.

use crate::error::TaskError;
use crate::password::utf8_len;
use crate::text::{opt_text, trim, trimmed};
use std::collections::HashSet;
use vstd::prelude::*;

verus! {

broadcast use vstd::std_specs::hash::group_hash_axioms;

/// The longest task name, in UTF-8 bytes.
pub const MAX_TASK_NAME_LENGTH: usize = 255;

/// How urgent a task is.
#[derive(Debug, Clone, Copy, PartialEq, Eq)]
pub enum TaskPriority {
    NoPriority,
    Low,
    Medium,
    High,
    Urgent,
}

/// The priority a task gets: the requested one, or `NoPriority` when unset.
pub open spec fn effective_priority(p: Option<TaskPriority>) -> TaskPriority {
    match p {
        Some(q) => q,
        None => TaskPriority::NoPriority,
    }
}

/// The project fields the task checks read.
#[derive(Debug, Clone, Copy, PartialEq, Eq)]
pub struct ProjectRecord {
    pub id: i64,
    pub owner_id: i64,
    pub archived: bool,
}

/// The task fields the task checks read.
#[derive(Debug, Clone, Copy, PartialEq, Eq)]
pub struct TaskRecord {
    pub id: i64,
    pub owner_id: i64,
    pub project_id: Option<i64>,
}

/// The tag fields the task checks read.
#[derive(Debug, Clone, Copy, PartialEq, Eq)]
pub struct TagRecord {
    pub id: i64,
    pub owner_id: i64,
}

/// A project may receive tasks of `owner` when it is theirs and not archived.
pub open spec fn project_usable(p: Option<ProjectRecord>, owner_id: i64) -> bool {
    p matches Some(q) && q.owner_id == owner_id && !q.archived
}

/// A task is visible to `owner` when it is theirs.
pub open spec fn task_owned(t: Option<TaskRecord>, owner_id: i64) -> bool {
    t matches Some(q) && q.owner_id == owner_id
}

/// A tag may be used by `owner` when it is theirs.
pub open spec fn tag_owned(t: Option<TagRecord>, owner_id: i64) -> bool {
    t matches Some(q) && q.owner_id == owner_id
}

/// Checks that a looked-up project exists, belongs to `owner_id` and is active.
pub fn validate_active_project(project: Option<ProjectRecord>, owner_id: i64) -> (r: Result<
    (),
    TaskError,
>)
    ensures
        r is Ok <==> project_usable(project, owner_id),
        r matches Err(e) ==> e == TaskError::RelatedResourceNotFound,
{
    match project {
        Some(p) => {
            if p.owner_id == owner_id && !p.archived {
                Ok(())
            } else {
                Err(TaskError::RelatedResourceNotFound)
            }
        },
        None => Err(TaskError::RelatedResourceNotFound),
    }
}

/// The looked-up task, if it exists and belongs to `owner_id`.
pub fn get_owned_task(task: Option<TaskRecord>, owner_id: i64) -> (r: Result<TaskRecord, TaskError>)
    ensures
        r is Ok <==> task_owned(task, owner_id),
        r matches Ok(t) ==> task == Some(t),
        r matches Err(e) ==> e == TaskError::RelatedResourceNotFound,
{
    match task {
        Some(t) => {
            if t.owner_id == owner_id {
                Ok(t)
            } else {
                Err(TaskError::RelatedResourceNotFound)
            }
        },
        None => Err(TaskError::RelatedResourceNotFound),
    }
}

/// Checks that a looked-up tag exists and belongs to `owner_id`.
pub fn validate_owned_tag(tag: Option<TagRecord>, owner_id: i64) -> (r: Result<(), TaskError>)
    ensures
        r is Ok <==> tag_owned(tag, owner_id),
        r matches Err(e) ==> e == TaskError::RelatedResourceNotFound,
{
    match tag {
        Some(t) => {
            if t.owner_id == owner_id {
                Ok(())
            } else {
                Err(TaskError::RelatedResourceNotFound)
            }
        },
        None => Err(TaskError::RelatedResourceNotFound),
    }
}

/// A task name is acceptable once trimmed when it is non-empty and at most
/// `MAX_TASK_NAME_LENGTH` bytes long.
pub open spec fn name_acceptable(name: Seq<char>) -> bool {
    let t = trimmed(name);
    t.len() > 0 && utf8_len(t) <= MAX_TASK_NAME_LENGTH
}

/// Tag ids are acceptable when all are positive and none repeats.
pub open spec fn tag_ids_acceptable(ids: Seq<i64>) -> bool {
    &&& forall|i: int| 0 <= i < ids.len() ==> #[trigger] ids[i] > 0
    &&& forall|i: int, j: int| 0 <= i < j < ids.len() ==> ids[i] != ids[j]
}

/// Checks that every tag id is positive and appears once.
pub fn validate_tag_ids(ids: &Vec<i64>) -> (r: bool)
    ensures
        r == tag_ids_acceptable(ids@),
{
    let mut seen: HashSet<i64> = HashSet::new();
    let mut i: usize = 0;
    while i < ids.len()
        invariant
            i <= ids.len(),
            seen@ == ids@.subrange(0, i as int).to_set(),
            tag_ids_acceptable(ids@.subrange(0, i as int)),
        decreases ids.len() - i,
    {
        let id = ids[i];
        proof {
            assert(ids@.subrange(0, i as int).to_set().contains(id) <==> exists|k: int|
                0 <= k < i && ids@[k] == id) by {
                if ids@.subrange(0, i as int).to_set().contains(id) {
                    let k = ids@.subrange(0, i as int).index_of(id);
                    assert(ids@.subrange(0, i as int)[k] == id);
                }
                if exists|k: int| 0 <= k < i && ids@[k] == id {
                    let k = choose|k: int| 0 <= k < i && ids@[k] == id;
                    assert(ids@.subrange(0, i as int)[k] == id);
                }
            }
        }
        if id <= 0 {
            proof {
                assert(ids@[i as int] <= 0);
            }
            return false;
        }
        let fresh = seen.insert(id);
        if !fresh {
            proof {
                let k = choose|k: int| 0 <= k < i && ids@[k] == id;
                assert(ids@[k] == ids@[i as int]);
            }
            return false;
        }
        proof {
            assert(ids@.subrange(0, i + 1) =~= ids@.subrange(0, i as int).push(id));
            ids@.subrange(0, i as int).lemma_push_to_set_commute(id);
            assert(ids@.subrange(0, i as int).push(id).to_set() =~= ids@.subrange(
                0,
                i as int,
            ).to_set().insert(id));
            let next = ids@.subrange(0, i + 1);
            assert forall|a: int, b: int| 0 <= a < b < i + 1 implies #[trigger] next[a]
                != #[trigger] next[b] by {
                if b < i {
                    assert(ids@.subrange(0, i as int)[a] == ids@.subrange(0, i + 1)[a]);
                    assert(ids@.subrange(0, i as int)[b] == ids@.subrange(0, i + 1)[b]);
                } else {
                    assert(ids@.subrange(0, i + 1)[a] == ids@[a]);
                }
            }
        }
        i = i + 1;
    }
    proof {
        assert(ids@.subrange(0, i as int) =~= ids@);
    }
    true
}

/// The trimmed name of a new task, if the name is acceptable.
pub fn validated_task_name(name: &str) -> (r: Result<String, TaskError>)
    ensures
        r is Ok <==> name_acceptable(name@),
        r matches Ok(n) ==> n@ == trimmed(name@),
        r matches Err(e) ==> e == TaskError::BadRequest,
{
    let t = trim(name);
    if t.unicode_len() == 0 || t.as_bytes().len() > MAX_TASK_NAME_LENGTH {
        return Err(TaskError::BadRequest);
    }
    Ok(t.to_owned())
}

/// A request to create a task, as the endpoint receives it.
#[derive(Debug)]
pub struct TaskDraft {
    pub name: String,
    pub description: Option<String>,
    /// Due time, in seconds since the Unix epoch.
    pub due_at: Option<i64>,
    pub priority: Option<TaskPriority>,
    pub project_id: Option<i64>,
    pub parent_id: Option<i64>,
    pub tag_ids: Vec<i64>,
}

/// Where a task creation stands.
#[derive(Debug, Clone, Copy, PartialEq, Eq)]
pub enum Phase {
    /// Waiting for the requested project.
    AwaitProject,
    /// Waiting for the requested parent task.
    AwaitParent,
    /// Waiting for the tag at this index of the request.
    AwaitTag(usize),
    /// Waiting for the id of the inserted task.
    AwaitInsert,
    /// Waiting for the link to the tag at this index to be stored.
    AwaitLink(usize),
    /// Every write is issued; only the commit remains.
    Finished,
}

/// The task row to insert.
#[derive(Debug)]
pub struct NewTask {
    pub name: String,
    pub description: Option<String>,
    pub due_at: Option<i64>,
    pub completed_at: Option<i64>,
    pub priority: TaskPriority,
    pub owner_id: i64,
    pub project_id: Option<i64>,
    pub parent_id: Option<i64>,
    pub created_at: i64,
    pub updated_at: i64,
}

/// The task a finished creation made, as returned to the client.
#[derive(Debug)]
pub struct CreatedTask {
    pub id: i64,
    pub name: String,
    pub description: Option<String>,
    pub due_at: Option<i64>,
    pub completed_at: Option<i64>,
    pub priority: TaskPriority,
    pub owner_id: i64,
    pub project_id: Option<i64>,
    pub parent_id: Option<i64>,
    pub tag_ids: Vec<i64>,
    pub created_at: i64,
    pub updated_at: i64,
}

/// What the caller must do next.
#[derive(Debug)]
pub enum CreationStep {
    /// Look up the project with this id and report it.
    LoadProject(i64),
    /// Look up the task with this id and report it.
    LoadParent(i64),
    /// Look up the tag with this id and report it.
    LoadTag(i64),
    /// Insert the new row and report the id it received.
    Insert(NewTask),
    /// Store the link between the new task and a tag.
    Link { task_id: i64, tag_id: i64 },
    /// Commit the transaction; the task is created.
    Commit,
}

/// The kind of a step, with its ids.
pub enum StepKind {
    LoadProject(i64),
    LoadParent(i64),
    LoadTag(i64),
    Insert,
    Link(i64, i64),
    Commit,
}

/// The kind of `step`.
pub open spec fn step_kind(step: CreationStep) -> StepKind {
    match step {
        CreationStep::LoadProject(id) => StepKind::LoadProject(id),
        CreationStep::LoadParent(id) => StepKind::LoadParent(id),
        CreationStep::LoadTag(id) => StepKind::LoadTag(id),
        CreationStep::Insert(_) => StepKind::Insert,
        CreationStep::Link { task_id, tag_id } => StepKind::Link(task_id, tag_id),
        CreationStep::Commit => StepKind::Commit,
    }
}

/// What the caller reports back.
#[derive(Debug, Clone, Copy, PartialEq, Eq)]
pub enum CreationEvent {
    /// The project looked up, if it exists.
    Project(Option<ProjectRecord>),
    /// The task looked up, if it exists.
    Parent(Option<TaskRecord>),
    /// The tag looked up, if it exists.
    Tag(Option<TagRecord>),
    /// The id of the inserted task.
    Inserted(i64),
    /// The last link was stored.
    Linked,
}

/// The abstract state of a task creation.
pub struct CreationState {
    pub owner_id: i64,
    pub name: Seq<char>,
    pub description: Option<Seq<char>>,
    pub due_at: Option<i64>,
    /// When the creation started, in seconds since the Unix epoch.
    pub now: i64,
    pub priority: TaskPriority,
    pub project_id: Option<i64>,
    pub parent_id: Option<i64>,
    pub tag_ids: Seq<i64>,
    pub task_id: i64,
    pub phase: Phase,
}

/// The state of creating a task: the validated request and the progress of
/// its checks and writes.
pub struct TaskCreation {
    owner_id: i64,
    name: String,
    description: Option<String>,
    due_at: Option<i64>,
    now: i64,
    priority: TaskPriority,
    project_id: Option<i64>,
    parent_id: Option<i64>,
    tag_ids: Vec<i64>,
    task_id: i64,
    phase: Phase,
}

impl View for TaskCreation {
    type V = CreationState;

    closed spec fn view(&self) -> CreationState {
        CreationState {
            owner_id: self.owner_id,
            name: self.name@,
            description: opt_text(self.description),
            due_at: self.due_at,
            now: self.now,
            priority: self.priority,
            project_id: self.project_id,
            parent_id: self.parent_id,
            tag_ids: self.tag_ids@,
            task_id: self.task_id,
            phase: self.phase,
        }
    }
}

/// The state `s` in phase `p`.
pub open spec fn with_phase(s: CreationState, p: Phase) -> CreationState {
    CreationState { phase: p, ..s }
}

/// The checks on tags from index `i` on, then the insert.
pub open spec fn tags_from(s: CreationState, i: int) -> (Phase, StepKind) {
    if 0 <= i < s.tag_ids.len() {
        (Phase::AwaitTag(i as usize), StepKind::LoadTag(s.tag_ids[i]))
    } else {
        (Phase::AwaitInsert, StepKind::Insert)
    }
}

/// What follows the project check: the parent check, if a parent is named.
pub open spec fn after_project(s: CreationState) -> (Phase, StepKind) {
    match s.parent_id {
        Some(id) => (Phase::AwaitParent, StepKind::LoadParent(id)),
        None => tags_from(s, 0),
    }
}

/// The first step: the project check, if a project is named.
pub open spec fn first_step(s: CreationState) -> (Phase, StepKind) {
    match s.project_id {
        Some(id) => (Phase::AwaitProject, StepKind::LoadProject(id)),
        None => after_project(s),
    }
}

/// The links from tag index `i` on, then the commit.
pub open spec fn links_from(s: CreationState, i: int) -> (Phase, StepKind) {
    if 0 <= i < s.tag_ids.len() {
        (Phase::AwaitLink(i as usize), StepKind::Link(s.task_id, s.tag_ids[i]))
    } else {
        (Phase::Finished, StepKind::Commit)
    }
}

/// The state `s` moved on to `(phase, step)`.
pub open spec fn advance(s: CreationState, t: (Phase, StepKind)) -> Result<
    (CreationState, StepKind),
    TaskError,
> {
    Ok((with_phase(s, t.0), t.1))
}

/// Whether `e` is the report the phase of `s` waits for.
pub open spec fn expects(s: CreationState, e: CreationEvent) -> bool {
    match (s.phase, e) {
        (Phase::AwaitProject, CreationEvent::Project(_)) => true,
        (Phase::AwaitParent, CreationEvent::Parent(_)) => true,
        (Phase::AwaitTag(_), CreationEvent::Tag(_)) => true,
        (Phase::AwaitInsert, CreationEvent::Inserted(_)) => true,
        (Phase::AwaitLink(_), CreationEvent::Linked) => true,
        _ => false,
    }
}

/// The next state and step after report `e`, or the error that ends the creation.
pub open spec fn next(s: CreationState, e: CreationEvent) -> Result<
    (CreationState, StepKind),
    TaskError,
> {
    match (s.phase, e) {
        (Phase::AwaitProject, CreationEvent::Project(p)) => if project_usable(p, s.owner_id) {
            advance(s, after_project(s))
        } else {
            Err(TaskError::RelatedResourceNotFound)
        },
        (Phase::AwaitParent, CreationEvent::Parent(t)) => if !task_owned(t, s.owner_id) {
            Err(TaskError::RelatedResourceNotFound)
        } else if t.unwrap().project_id != s.project_id {
            Err(TaskError::BadRequest)
        } else {
            advance(s, tags_from(s, 0))
        },
        (Phase::AwaitTag(i), CreationEvent::Tag(t)) => if tag_owned(t, s.owner_id) {
            advance(s, tags_from(s, i + 1))
        } else {
            Err(TaskError::RelatedResourceNotFound)
        },
        (Phase::AwaitInsert, CreationEvent::Inserted(id)) => {
            let s2 = CreationState { task_id: id, ..s };
            advance(s2, links_from(s2, 0))
        },
        (Phase::AwaitLink(i), CreationEvent::Linked) => advance(s, links_from(s, i + 1)),
        _ => Err(TaskError::BadRequest),
    }
}

/// The consistency of a creation state: a phase names only present ids and
/// indexes inside the tag list.
pub open spec fn well_formed(s: CreationState) -> bool {
    &&& s.tag_ids.len() <= usize::MAX
    &&& match s.phase {
        Phase::AwaitProject => s.project_id is Some,
        Phase::AwaitParent => s.parent_id is Some,
        Phase::AwaitTag(i) => i < s.tag_ids.len(),
        Phase::AwaitLink(i) => i < s.tag_ids.len(),
        _ => true,
    }
}

/// `t` is the task row a creation in state `s` inserts.
pub open spec fn is_new_task_of(t: NewTask, s: CreationState) -> bool {
    &&& t.name@ == s.name
    &&& opt_text(t.description) == s.description
    &&& t.due_at == s.due_at
    &&& t.completed_at is None
    &&& t.created_at == s.now
    &&& t.updated_at == s.now
    &&& t.priority == s.priority
    &&& t.owner_id == s.owner_id
    &&& t.project_id == s.project_id
    &&& t.parent_id == s.parent_id
}

/// `t` is the task a finished creation in state `s` made.
pub open spec fn is_created_task_of(t: CreatedTask, s: CreationState) -> bool {
    &&& t.id == s.task_id
    &&& t.name@ == s.name
    &&& opt_text(t.description) == s.description
    &&& t.due_at == s.due_at
    &&& t.completed_at is None
    &&& t.priority == s.priority
    &&& t.owner_id == s.owner_id
    &&& t.project_id == s.project_id
    &&& t.parent_id == s.parent_id
    &&& t.tag_ids@ == s.tag_ids
    &&& t.created_at == s.now
    &&& t.updated_at == s.now
}

/// `s` is the state a creation of `draft` for `owner_id` starts in.
pub open spec fn starts(s: CreationState, draft: TaskDraft, owner_id: i64, now: i64) -> bool {
    &&& s.owner_id == owner_id
    &&& s.name == trimmed(draft.name@)
    &&& s.description == opt_text(draft.description)
    &&& s.due_at == draft.due_at
    &&& s.now == now
    &&& s.priority == effective_priority(draft.priority)
    &&& s.project_id == draft.project_id
    &&& s.parent_id == draft.parent_id
    &&& s.tag_ids == draft.tag_ids@
    &&& s.phase == first_step(s).0
}

impl TaskCreation {
    #[verifier::type_invariant]
    spec fn consistent(self) -> bool {
        well_formed(self@)
    }

    fn copy_description(&self) -> (r: Option<String>)
        ensures
            opt_text(r) == opt_text(self.description),
    {
        match &self.description {
            Some(d) => Some(d.clone()),
            None => None,
        }
    }

    /// The step for a state entering `(phase, kind)`.
    fn make_step(&self, kind_tag: u8, id: i64) -> (r: CreationStep)
        requires
            kind_tag <= 5,
        ensures
            kind_tag == 0 ==> r == CreationStep::LoadProject(id),
            kind_tag == 1 ==> r == CreationStep::LoadParent(id),
            kind_tag == 2 ==> r == CreationStep::LoadTag(id),
            kind_tag == 3 ==> (r matches CreationStep::Insert(t) && is_new_task_of(t, self@)),
            kind_tag == 4 ==> r == (CreationStep::Link { task_id: self.task_id, tag_id: id }),
            kind_tag == 5 ==> r == CreationStep::Commit,
    {
        if kind_tag == 0 {
            CreationStep::LoadProject(id)
        } else if kind_tag == 1 {
            CreationStep::LoadParent(id)
        } else if kind_tag == 2 {
            CreationStep::LoadTag(id)
        } else if kind_tag == 3 {
            CreationStep::Insert(
                NewTask {
                    name: self.name.clone(),
                    description: self.copy_description(),
                    due_at: self.due_at,
                    completed_at: None,
                    priority: self.priority,
                    owner_id: self.owner_id,
                    project_id: self.project_id,
                    parent_id: self.parent_id,
                    created_at: self.now,
                    updated_at: self.now,
                },
            )
        } else if kind_tag == 4 {
            CreationStep::Link { task_id: self.task_id, tag_id: id }
        } else {
            CreationStep::Commit
        }
    }

    /// Moves to the tag checks from index `i` on.
    fn enter_tags(&mut self, i: usize) -> (r: CreationStep)
        requires
            i <= old(self).tag_ids.len(),
        ensures
            final(self)@ == with_phase(old(self)@, tags_from(old(self)@, i as int).0),
            step_kind(r) == tags_from(old(self)@, i as int).1,
            r matches CreationStep::Insert(t) ==> is_new_task_of(t, final(self)@),
    {
        if i < self.tag_ids.len() {
            self.phase = Phase::AwaitTag(i);
            self.make_step(2, self.tag_ids[i])
        } else {
            self.phase = Phase::AwaitInsert;
            self.make_step(3, 0)
        }
    }

    /// Moves to the links from index `i` on.
    fn enter_links(&mut self, i: usize) -> (r: CreationStep)
        requires
            i <= old(self).tag_ids.len(),
        ensures
            final(self)@ == with_phase(old(self)@, links_from(old(self)@, i as int).0),
            step_kind(r) == links_from(old(self)@, i as int).1,
    {
        if i < self.tag_ids.len() {
            self.phase = Phase::AwaitLink(i);
            self.make_step(4, self.tag_ids[i])
        } else {
            self.phase = Phase::Finished;
            self.make_step(5, 0)
        }
    }

    /// Moves past the project check.
    fn enter_after_project(&mut self) -> (r: CreationStep)
        ensures
            final(self)@ == with_phase(old(self)@, after_project(old(self)@).0),
            step_kind(r) == after_project(old(self)@).1,
            r matches CreationStep::Insert(t) ==> is_new_task_of(t, final(self)@),
    {
        proof {
            use_type_invariant(&*self);
        }
        match self.parent_id {
            Some(id) => {
                self.phase = Phase::AwaitParent;
                self.make_step(1, id)
            },
            None => self.enter_tags(0),
        }
    }

    /// Validates a request and starts creating the task it describes for
    /// `owner_id`. The trimmed name must be non-empty and at most
    /// `MAX_TASK_NAME_LENGTH` bytes, and the tag ids positive and distinct.
    pub fn start(draft: TaskDraft, owner_id: i64, now: i64) -> (r: Result<
        (TaskCreation, CreationStep),
        TaskError,
    >)
        ensures
            r is Ok <==> name_acceptable(draft.name@) && tag_ids_acceptable(draft.tag_ids@),
            r matches Err(e) ==> e == TaskError::BadRequest,
            r matches Ok((c, step)) ==> {
                &&& starts(c@, draft, owner_id, now)
                &&& well_formed(c@)
                &&& step_kind(step) == first_step(c@).1
                &&& (step matches CreationStep::Insert(t) ==> is_new_task_of(t, c@))
            },
    {
        let ghost d = draft;
        let name = validated_task_name(draft.name.as_str())?;
        if !validate_tag_ids(&draft.tag_ids) {
            return Err(TaskError::BadRequest);
        }
        let priority = match draft.priority {
            Some(p) => p,
            None => TaskPriority::NoPriority,
        };
        let tag_count = draft.tag_ids.len();
        assert(draft.tag_ids@.len() == tag_count);
        let mut c = TaskCreation {
            owner_id,
            name,
            description: draft.description,
            due_at: draft.due_at,
            now,
            priority,
            project_id: draft.project_id,
            parent_id: draft.parent_id,
            tag_ids: draft.tag_ids,
            task_id: 0,
            phase: Phase::Finished,
        };
        let step = match c.project_id {
            Some(id) => {
                c.phase = Phase::AwaitProject;
                c.make_step(0, id)
            },
            None => c.enter_after_project(),
        };
        Ok((c, step))
    }

    /// The task this creation made, once every write is issued; `None`
    /// while checks or writes remain.
    pub fn finish(&self) -> (r: Option<CreatedTask>)
        ensures
            r is Some <==> self@.phase == Phase::Finished,
            r matches Some(t) ==> is_created_task_of(t, self@),
    {
        match self.phase {
            Phase::Finished => Some(
                CreatedTask {
                    id: self.task_id,
                    name: self.name.clone(),
                    description: self.copy_description(),
                    due_at: self.due_at,
                    completed_at: None,
                    priority: self.priority,
                    owner_id: self.owner_id,
                    project_id: self.project_id,
                    parent_id: self.parent_id,
                    tag_ids: self.tag_ids.clone(),
                    created_at: self.now,
                    updated_at: self.now,
                },
            ),
            _ => None,
        }
    }

    /// The ids of the tags the task is linked to.
    pub fn tag_ids(&self) -> (r: &Vec<i64>)
        ensures
            r@ == self@.tag_ids,
    {
        &self.tag_ids
    }

    /// Takes the report the current step asked for and gives the next step,
    /// or the error that ends the creation: a missing or foreign project,
    /// parent or tag, an archived project, or a parent in another project.
    /// A report that is not the one the current step asked for is refused as
    /// a bad request.
    pub fn step(&mut self, event: CreationEvent) -> (r: Result<CreationStep, TaskError>)
        ensures
            well_formed(old(self)@),
            !expects(old(self)@, event) ==> r == Err::<CreationStep, TaskError>(
                TaskError::BadRequest,
            ),
            match next(old(self)@, event) {
                Ok((s, k)) => {
                    &&& r matches Ok(step) && step_kind(step) == k
                    &&& final(self)@ == s
                    &&& well_formed(s)
                    &&& (r matches Ok(CreationStep::Insert(t)) ==> is_new_task_of(t, s))
                },
                Err(e) => r == Err::<CreationStep, TaskError>(e),
            },
    {
        proof {
            use_type_invariant(&*self);
        }
        match (self.phase, event) {
            (Phase::AwaitProject, CreationEvent::Project(p)) => {
                validate_active_project(p, self.owner_id)?;
                Ok(self.enter_after_project())
            },
            (Phase::AwaitParent, CreationEvent::Parent(t)) => {
                let parent = get_owned_task(t, self.owner_id)?;
                if parent.project_id != self.project_id {
                    return Err(TaskError::BadRequest);
                }
                Ok(self.enter_tags(0))
            },
            (Phase::AwaitTag(i), CreationEvent::Tag(t)) => {
                validate_owned_tag(t, self.owner_id)?;
                assert(self.phase == Phase::AwaitTag(i));
                assert(i < self.tag_ids.len());
                Ok(self.enter_tags(i + 1))
            },
            (Phase::AwaitInsert, CreationEvent::Inserted(id)) => {
                self.task_id = id;
                Ok(self.enter_links(0))
            },
            (Phase::AwaitLink(i), CreationEvent::Linked) => {
                assert(self.phase == Phase::AwaitLink(i));
                assert(i < self.tag_ids.len());
                Ok(self.enter_links(i + 1))
            },
            _ => Err(TaskError::BadRequest),
        }
    }
}

/// What the database holds, as far as the creation checks read it.
pub struct World {
    pub projects: spec_fn(i64) -> Option<ProjectRecord>,
    pub tasks: spec_fn(i64) -> Option<TaskRecord>,
    pub tags: spec_fn(i64) -> Option<TagRecord>,
}

/// The report `w` gives for the lookup the state `s` waits for.
pub open spec fn answer(s: CreationState, w: World) -> CreationEvent {
    match s.phase {
        Phase::AwaitProject => CreationEvent::Project((w.projects)(s.project_id.unwrap())),
        Phase::AwaitParent => CreationEvent::Parent((w.tasks)(s.parent_id.unwrap())),
        Phase::AwaitTag(i) => CreationEvent::Tag((w.tags)(s.tag_ids[i as int])),
        _ => CreationEvent::Linked,
    }
}

/// Whether a phase is one of the lookups before the insert.
pub open spec fn is_checking(p: Phase) -> bool {
    match p {
        Phase::AwaitProject | Phase::AwaitParent | Phase::AwaitTag(_) => true,
        _ => false,
    }
}

/// How many lookups at most remain before the insert.
pub open spec fn checks_left(s: CreationState) -> nat {
    match s.phase {
        Phase::AwaitProject => s.tag_ids.len() + 2,
        Phase::AwaitParent => s.tag_ids.len() + 1,
        Phase::AwaitTag(i) => if i < s.tag_ids.len() {
            (s.tag_ids.len() - i) as nat
        } else {
            0
        },
        _ => 0,
    }
}

/// Answers the lookups of `s` from `w` until the insert is reached or a check fails.
pub open spec fn run_checks(s: CreationState, w: World) -> Result<CreationState, TaskError>
    decreases checks_left(s),
{
    if !is_checking(s.phase) {
        Ok(s)
    } else {
        match next(s, answer(s, w)) {
            Ok(t) => if checks_left(t.0) < checks_left(s) {
                run_checks(t.0, w)
            } else {
                Ok(t.0)
            },
            Err(e) => Err(e),
        }
    }
}

/// Some requested tag is not the owner's in `w`, from index `i` on.
pub open spec fn foreign_tag_from(s: CreationState, w: World, i: int) -> bool {
    exists|j: int| i <= j < s.tag_ids.len() && !tag_owned((w.tags)(s.tag_ids[j]), s.owner_id)
}

/// The outcome of the checks of a creation against `w`: the first failing
/// check in the order project, parent, tags, or success.
pub open spec fn checks_outcome(s: CreationState, w: World) -> Result<(), TaskError> {
    if s.project_id is Some && !project_usable((w.projects)(s.project_id.unwrap()), s.owner_id) {
        Err(TaskError::RelatedResourceNotFound)
    } else if s.parent_id is Some && !task_owned((w.tasks)(s.parent_id.unwrap()), s.owner_id) {
        Err(TaskError::RelatedResourceNotFound)
    } else if s.parent_id is Some && (w.tasks)(s.parent_id.unwrap()).unwrap().project_id
        != s.project_id {
        Err(TaskError::BadRequest)
    } else if foreign_tag_from(s, w, 0) {
        Err(TaskError::RelatedResourceNotFound)
    } else {
        Ok(())
    }
}

proof fn lemma_tag_checks(s: CreationState, w: World, i: int)
    requires
        0 <= i <= s.tag_ids.len(),
        s.tag_ids.len() <= usize::MAX,
    ensures
        run_checks(with_phase(s, tags_from(s, i).0), w) == (if foreign_tag_from(s, w, i) {
            Err::<CreationState, TaskError>(TaskError::RelatedResourceNotFound)
        } else {
            Ok::<CreationState, TaskError>(with_phase(s, Phase::AwaitInsert))
        }),
    decreases s.tag_ids.len() - i,
{
    let s1 = with_phase(s, tags_from(s, i).0);
    if i < s.tag_ids.len() {
        assert(s1.phase == Phase::AwaitTag(i as usize));
        assert(answer(s1, w) == CreationEvent::Tag((w.tags)(s.tag_ids[i])));
        if tag_owned((w.tags)(s.tag_ids[i]), s.owner_id) {
            lemma_tag_checks(s, w, i + 1);
            let s2 = with_phase(s1, tags_from(s1, i + 1).0);
            assert(s2 == with_phase(s, tags_from(s, i + 1).0));
            assert(checks_left(s2) < checks_left(s1));
            if foreign_tag_from(s, w, i + 1) {
                let j = choose|j: int|
                    i + 1 <= j < s.tag_ids.len() && !tag_owned((w.tags)(s.tag_ids[j]), s.owner_id);
                assert(i <= j < s.tag_ids.len());
            }
            if foreign_tag_from(s, w, i) {
                let j = choose|j: int|
                    i <= j < s.tag_ids.len() && !tag_owned((w.tags)(s.tag_ids[j]), s.owner_id);
                assert(j != i);
                assert(foreign_tag_from(s, w, i + 1));
            }
        } else {
            assert(foreign_tag_from(s, w, i));
        }
    } else {
        assert(s1 == with_phase(s, Phase::AwaitInsert));
        assert(!foreign_tag_from(s, w, i));
    }
}

/// The lookups of a creation decide it as the checks say: starting from any
/// state a creation starts in and answering every lookup from the same
/// database, the insert is reached exactly when the project (if named) is the
/// owner's and not archived, the parent (if named) is the owner's task in the
/// same project, and every tag is the owner's; otherwise the first failing
/// check, in that order, gives the error.
pub proof fn law_checks_decide_creation(s: CreationState, w: World)
    requires
        well_formed(s),
        s.phase == first_step(s).0,
    ensures
        run_checks(s, w) == match checks_outcome(s, w) {
            Ok(_) => Ok::<CreationState, TaskError>(with_phase(s, Phase::AwaitInsert)),
            Err(e) => Err::<CreationState, TaskError>(e),
        },
{
    lemma_tag_checks(s, w, 0);
    let sp = with_phase(s, after_project(s).0);
    match s.parent_id {
        Some(pid) => {
            assert(sp.phase == Phase::AwaitParent);
            let sq = with_phase(sp, tags_from(sp, 0).0);
            assert(sq == with_phase(s, tags_from(s, 0).0));
            assert(checks_left(sq) < checks_left(sp));
            assert(run_checks(sp, w) == if !task_owned((w.tasks)(pid), s.owner_id) {
                Err::<CreationState, TaskError>(TaskError::RelatedResourceNotFound)
            } else if (w.tasks)(pid).unwrap().project_id != s.project_id {
                Err::<CreationState, TaskError>(TaskError::BadRequest)
            } else {
                run_checks(sq, w)
            });
        },
        None => {
            assert(sp == with_phase(s, tags_from(s, 0).0));
        },
    }
    match s.project_id {
        Some(id) => {
            assert(s.phase == Phase::AwaitProject);
            let s2 = with_phase(s, after_project(s).0);
            assert(checks_left(s2) < checks_left(s));
        },
        None => {
            assert(s == sp);
        },
    }
}

/// How many links at most remain before the commit.
pub open spec fn links_left(s: CreationState) -> nat {
    match s.phase {
        Phase::AwaitLink(i) => if i < s.tag_ids.len() {
            (s.tag_ids.len() - i) as nat
        } else {
            0
        },
        _ => 0,
    }
}

/// The steps a creation in `s` asks for when every link is reported stored.
pub open spec fn run_links(s: CreationState) -> Seq<StepKind>
    decreases links_left(s),
{
    match s.phase {
        Phase::AwaitLink(_) => match next(s, CreationEvent::Linked) {
            Ok(t) => if links_left(t.0) < links_left(s) {
                seq![t.1] + run_links(t.0)
            } else {
                seq![t.1]
            },
            Err(_) => Seq::empty(),
        },
        _ => Seq::empty(),
    }
}

/// One link from the new task `task_id` to each tag of `tags`, in order,
/// then the commit.
pub open spec fn links_then_commit(task_id: i64, tags: Seq<i64>) -> Seq<StepKind> {
    tags.map_values(|t: i64| StepKind::Link(task_id, t)).push(StepKind::Commit)
}

proof fn lemma_links_from(s: CreationState, i: int)
    requires
        0 <= i <= s.tag_ids.len(),
        s.tag_ids.len() <= usize::MAX,
    ensures
        seq![links_from(s, i).1] + run_links(with_phase(s, links_from(s, i).0))
            == links_then_commit(s.task_id, s.tag_ids.subrange(i, s.tag_ids.len() as int)),
    decreases s.tag_ids.len() - i,
{
    let rest = s.tag_ids.subrange(i, s.tag_ids.len() as int);
    let si = with_phase(s, links_from(s, i).0);
    if i < s.tag_ids.len() {
        lemma_links_from(s, i + 1);
        let sj = with_phase(si, links_from(si, i + 1).0);
        assert(sj == with_phase(s, links_from(s, i + 1).0));
        assert(links_left(sj) < links_left(si));
        assert(run_links(si) == seq![links_from(s, i + 1).1] + run_links(sj));
        let tail = s.tag_ids.subrange(i + 1, s.tag_ids.len() as int);
        assert(rest =~= seq![s.tag_ids[i]] + tail);
        assert(links_then_commit(s.task_id, rest) =~= seq![StepKind::Link(s.task_id, s.tag_ids[i])]
            + links_then_commit(s.task_id, tail));
    } else {
        assert(rest =~= Seq::<i64>::empty());
        assert(links_then_commit(s.task_id, rest) =~= seq![StepKind::Commit]);
        assert(run_links(si) =~= Seq::<StepKind>::empty());
    }
}

/// Once the task row is inserted with id `task_id`, the creation asks to link
/// it to every requested tag exactly once, in the order of the request, and
/// then to commit.
pub proof fn law_inserted_task_links_every_tag(s: CreationState, task_id: i64)
    requires
        well_formed(s),
        s.phase == Phase::AwaitInsert,
    ensures
        next(s, CreationEvent::Inserted(task_id)) matches Ok(t) && seq![t.1] + run_links(t.0)
            == links_then_commit(task_id, s.tag_ids),
{
    let s2 = CreationState { task_id, ..s };
    lemma_links_from(s2, 0);
    assert(s2.tag_ids.subrange(0, s2.tag_ids.len() as int) =~= s.tag_ids);
}

/// `a` and `b` hold the same request: they differ at most in the progress
/// made (the phase) and in the id the inserted row received.
pub open spec fn same_request(a: CreationState, b: CreationState) -> bool {
    &&& a.owner_id == b.owner_id
    &&& a.name == b.name
    &&& a.description == b.description
    &&& a.due_at == b.due_at
    &&& a.now == b.now
    &&& a.priority == b.priority
    &&& a.project_id == b.project_id
    &&& a.parent_id == b.parent_id
    &&& a.tag_ids == b.tag_ids
}

/// No report changes the request being created: every step keeps the owner,
/// name, description, due date, start time, priority, project, parent and tags.
pub proof fn law_steps_keep_request(s: CreationState, e: CreationEvent)
    ensures
        next(s, e) matches Ok(t) ==> same_request(s, t.0),
{
}

/// The task a creation returns is the request it started from: the trimmed
/// name, the description and due date as given, no completion time, the
/// given priority or `NoPriority`, the caller as owner, the given project,
/// parent and tags, and the start time as both creation and update time.
pub proof fn law_created_task_answers_request(
    s0: CreationState,
    s: CreationState,
    draft: TaskDraft,
    owner_id: i64,
    now: i64,
    t: CreatedTask,
)
    requires
        starts(s0, draft, owner_id, now),
        same_request(s0, s),
        is_created_task_of(t, s),
    ensures
        t.name@ == trimmed(draft.name@),
        opt_text(t.description) == opt_text(draft.description),
        t.due_at == draft.due_at,
        t.completed_at is None,
        t.priority == effective_priority(draft.priority),
        t.owner_id == owner_id,
        t.project_id == draft.project_id,
        t.parent_id == draft.parent_id,
        t.tag_ids@ == draft.tag_ids@,
        t.created_at == now,
        t.updated_at == now,
{
}

/// A creation keeps the priority it was asked for: the state it starts in,
/// the row it inserts and the task it returns carry exactly the requested
/// priority when one is given, and `NoPriority` only when none is.
pub proof fn law_requested_priority_kept(
    s: CreationState,
    draft: TaskDraft,
    owner_id: i64,
    now: i64,
    row: NewTask,
    task: CreatedTask,
)
    requires
        starts(s, draft, owner_id, now),
    ensures
        draft.priority matches Some(q) ==> s.priority == q,
        draft.priority is None ==> s.priority == TaskPriority::NoPriority,
        is_new_task_of(row, s) ==> (draft.priority matches Some(q) ==> row.priority == q),
        is_new_task_of(row, s) ==> (draft.priority is None ==> row.priority
            == TaskPriority::NoPriority),
        is_created_task_of(task, s) ==> (draft.priority matches Some(q) ==> task.priority == q),
        is_created_task_of(task, s) ==> (draft.priority is None ==> task.priority
            == TaskPriority::NoPriority),
{
}

/// Accepted tag ids are all positive and pairwise different: no two
/// positions of an accepted list hold the same id.
pub proof fn law_accepted_tag_ids_positive_and_distinct(ids: Seq<i64>, i: int, j: int)
    requires
        tag_ids_acceptable(ids),
        0 <= i < ids.len(),
        0 <= j < ids.len(),
        i != j,
    ensures
        ids[i] > 0,
        ids[i] != ids[j],
{
    if j < i {
        assert(ids[j] != ids[i]);
    }
}

/// A list of tag ids that repeats an id anywhere, or holds an id that is
/// not positive, is refused.
pub proof fn law_repeated_or_nonpositive_tag_refused(ids: Seq<i64>, i: int, j: int)
    requires
        0 <= i < ids.len(),
        0 <= j < ids.len(),
        i != j && ids[i] == ids[j] || ids[i] <= 0,
    ensures
        !tag_ids_acceptable(ids),
{
    if tag_ids_acceptable(ids) {
        if i != j && ids[i] == ids[j] {
            law_accepted_tag_ids_positive_and_distinct(ids, i, j);
        } else {
            assert(ids[i] > 0);
        }
    }
}

/// Every list of positive ids in which no id repeats is accepted.
pub proof fn law_positive_distinct_tag_ids_accepted(ids: Seq<i64>)
    requires
        forall|i: int| 0 <= i < ids.len() ==> #[trigger] ids[i] > 0,
        forall|i: int, j: int| 0 <= i < ids.len() && 0 <= j < ids.len() && i != j ==> ids[i] != ids[j],
    ensures
        tag_ids_acceptable(ids),
{
}

} // verus!
