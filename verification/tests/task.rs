use rincuma::error::TaskError;
use rincuma::task::{
    get_owned_task, validate_active_project, validate_owned_tag, validate_tag_ids,
    validated_task_name, CreationEvent, CreationStep, ProjectRecord, TagRecord, TaskCreation,
    TaskDraft, TaskPriority, TaskRecord,
};

fn draft(name: &str, project: Option<i64>, parent: Option<i64>, tags: Vec<i64>) -> TaskDraft {
    TaskDraft {
        name: name.to_string(),
        description: None,
        due_at: None,
        priority: None,
        project_id: project,
        parent_id: parent,
        tag_ids: tags,
    }
}

#[test]
fn task_names_are_trimmed_and_bounded() {
    assert_eq!(validated_task_name("  Buy milk \n").unwrap(), "Buy milk");
    assert_eq!(validated_task_name("   "), Err(TaskError::BadRequest));
    assert!(validated_task_name(&"n".repeat(255)).is_ok());
    assert_eq!(validated_task_name(&"n".repeat(256)), Err(TaskError::BadRequest));
}

#[test]
fn tag_ids_must_be_positive_and_distinct() {
    assert!(validate_tag_ids(&vec![]));
    assert!(validate_tag_ids(&vec![3, 1, 2]));
    assert!(!validate_tag_ids(&vec![1, 0]));
    assert!(!validate_tag_ids(&vec![4, -2]));
    assert!(!validate_tag_ids(&vec![5, 6, 5]));
}

#[test]
fn relation_checks() {
    let project = ProjectRecord { id: 1, owner_id: 9, archived: false };
    assert_eq!(validate_active_project(Some(project), 9), Ok(()));
    assert_eq!(
        validate_active_project(Some(ProjectRecord { archived: true, ..project }), 9),
        Err(TaskError::RelatedResourceNotFound)
    );
    assert_eq!(validate_active_project(Some(project), 8), Err(TaskError::RelatedResourceNotFound));
    assert_eq!(validate_active_project(None, 9), Err(TaskError::RelatedResourceNotFound));
    let task = TaskRecord { id: 2, owner_id: 9, project_id: None };
    assert_eq!(get_owned_task(Some(task), 9), Ok(task));
    assert_eq!(get_owned_task(Some(task), 1), Err(TaskError::RelatedResourceNotFound));
    assert_eq!(validate_owned_tag(Some(TagRecord { id: 3, owner_id: 9 }), 9), Ok(()));
    assert_eq!(validate_owned_tag(None, 9), Err(TaskError::RelatedResourceNotFound));
    assert_eq!(TaskError::BadRequest.status_code(), 400);
    assert_eq!(TaskError::RelatedResourceNotFound.status_code(), 404);
    assert_eq!(TaskError::Database.status_code(), 500);
}

#[test]
fn creation_walks_checks_then_writes() {
    let mut d = draft(" Plan ", Some(10), Some(20), vec![30, 31]);
    d.description = Some("before friday".to_string());
    d.due_at = Some(1_700_086_400);
    let (mut flow, step) = TaskCreation::start(d, 9, 1_700_000_000).unwrap();
    assert!(flow.finish().is_none());
    assert!(matches!(step, CreationStep::LoadProject(10)));
    let step = flow
        .step(CreationEvent::Project(Some(ProjectRecord { id: 10, owner_id: 9, archived: false })))
        .unwrap();
    assert!(matches!(step, CreationStep::LoadParent(20)));
    let step = flow
        .step(CreationEvent::Parent(Some(TaskRecord { id: 20, owner_id: 9, project_id: Some(10) })))
        .unwrap();
    assert!(matches!(step, CreationStep::LoadTag(30)));
    let step = flow.step(CreationEvent::Tag(Some(TagRecord { id: 30, owner_id: 9 }))).unwrap();
    assert!(matches!(step, CreationStep::LoadTag(31)));
    let step = flow.step(CreationEvent::Tag(Some(TagRecord { id: 31, owner_id: 9 }))).unwrap();
    match step {
        CreationStep::Insert(t) => {
            assert_eq!(t.name, "Plan");
            assert_eq!(t.priority, TaskPriority::NoPriority);
            assert_eq!((t.owner_id, t.project_id, t.parent_id), (9, Some(10), Some(20)));
            assert_eq!(t.description.as_deref(), Some("before friday"));
            assert_eq!(t.due_at, Some(1_700_086_400));
            assert_eq!(t.completed_at, None);
            assert_eq!((t.created_at, t.updated_at), (1_700_000_000, 1_700_000_000));
        }
        other => panic!("unexpected step {:?}", other),
    }
    let step = flow.step(CreationEvent::Inserted(77)).unwrap();
    assert!(matches!(step, CreationStep::Link { task_id: 77, tag_id: 30 }));
    let step = flow.step(CreationEvent::Linked).unwrap();
    assert!(matches!(step, CreationStep::Link { task_id: 77, tag_id: 31 }));
    let step = flow.step(CreationEvent::Linked).unwrap();
    assert!(matches!(step, CreationStep::Commit));
    assert_eq!(flow.tag_ids(), &vec![30, 31]);
    let task = flow.finish().unwrap();
    assert_eq!(task.id, 77);
    assert_eq!(task.name, "Plan");
    assert_eq!(task.description.as_deref(), Some("before friday"));
    assert_eq!(task.due_at, Some(1_700_086_400));
    assert_eq!(task.completed_at, None);
    assert_eq!(task.priority, TaskPriority::NoPriority);
    assert_eq!((task.owner_id, task.project_id, task.parent_id), (9, Some(10), Some(20)));
    assert_eq!(task.tag_ids, vec![30, 31]);
    assert_eq!((task.created_at, task.updated_at), (1_700_000_000, 1_700_000_000));
}

#[test]
fn creation_refuses_a_report_out_of_turn() {
    let (mut flow, step) =
        TaskCreation::start(draft("x", Some(2), None, vec![]), 1, 1_700_000_000).unwrap();
    assert!(matches!(step, CreationStep::LoadProject(2)));
    assert!(matches!(flow.step(CreationEvent::Linked), Err(TaskError::BadRequest)));
    assert!(matches!(flow.step(CreationEvent::Inserted(4)), Err(TaskError::BadRequest)));
    assert!(flow.finish().is_none());
}

#[test]
fn creation_without_relations_goes_straight_to_insert() {
    let mut d = draft("x", None, None, vec![]);
    d.priority = Some(TaskPriority::High);
    let (mut flow, step) = TaskCreation::start(d, 1, 1_700_000_000).unwrap();
    match step {
        CreationStep::Insert(t) => assert_eq!(t.priority, TaskPriority::High),
        other => panic!("unexpected step {:?}", other),
    }
    assert!(matches!(flow.step(CreationEvent::Inserted(5)).unwrap(), CreationStep::Commit));
}

#[test]
fn creation_failures() {
    assert!(matches!(
        TaskCreation::start(draft("", None, None, vec![]), 1, 1_700_000_000),
        Err(TaskError::BadRequest)
    ));
    assert!(matches!(
        TaskCreation::start(draft("ok", None, None, vec![1, 1]), 1, 1_700_000_000),
        Err(TaskError::BadRequest)
    ));
    let (mut flow, _) = TaskCreation::start(draft("ok", Some(2), None, vec![]), 1, 1_700_000_000).unwrap();
    assert!(matches!(
        flow.step(CreationEvent::Project(Some(ProjectRecord { id: 2, owner_id: 1, archived: true }))),
        Err(TaskError::RelatedResourceNotFound)
    ));
    let (mut flow, _) = TaskCreation::start(draft("ok", None, Some(3), vec![]), 1, 1_700_000_000).unwrap();
    assert!(matches!(
        flow.step(CreationEvent::Parent(Some(TaskRecord { id: 3, owner_id: 1, project_id: Some(4) }))),
        Err(TaskError::BadRequest)
    ));
    let (mut flow, _) = TaskCreation::start(draft("ok", None, Some(3), vec![]), 1, 1_700_000_000).unwrap();
    assert!(matches!(
        flow.step(CreationEvent::Parent(Some(TaskRecord { id: 3, owner_id: 2, project_id: None }))),
        Err(TaskError::RelatedResourceNotFound)
    ));
    let (mut flow, _) = TaskCreation::start(draft("ok", None, None, vec![8]), 1, 1_700_000_000).unwrap();
    assert!(matches!(
        flow.step(CreationEvent::Tag(Some(TagRecord { id: 8, owner_id: 2 }))),
        Err(TaskError::RelatedResourceNotFound)
    ));
}
