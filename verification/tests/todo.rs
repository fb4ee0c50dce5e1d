use bearer_auth::api::todo::{
    add, item_response, list, InvalidUUIDError, ItemInput, MissingBody, MissingField, ParsingError,
    SerializableError,
};
use bearer_auth::gateway::ContentType;
use bearer_auth::model::api::ItemList;
use bearer_auth::model::app::{AppId, Application, UserId};
use bearer_auth::model::basic_item::BasicItem;
use bearer_auth::model::{
    Context, Cost, CostCategory, CostInfo, Item, ItemId, ItemType, Project, ProjectId, Repeat,
    State, Tag, Task, Todo, TodoList, Transition, Workflow,
};

fn input(title: Option<&str>, description: Option<&str>, project_id: Option<&str>) -> ItemInput {
    ItemInput {
        title: title.map(str::to_string),
        description: description.map(str::to_string),
        project_id: project_id.map(str::to_string),
    }
}

fn is_random_uuid(text: &str) -> bool {
    let bytes = text.as_bytes();
    bytes.len() == 36
        && bytes.iter().enumerate().all(|(i, b)| match i {
            8 | 13 | 18 | 23 => *b == b'-',
            _ => b.is_ascii_digit() || (b'a'..=b'f').contains(b),
        })
        && bytes[14] == b'4'
        && matches!(bytes[19], b'8' | b'9' | b'a' | b'b')
}

#[test]
fn a_new_item_takes_what_the_input_gives() {
    let item = input(Some("buy milk"), Some("two litres"), Some("67e55044-10b1-426f-9247-bb680e5fe0c8"))
        .new_item(UserId("u1".to_string()), ItemId("i1".to_string()))
        .unwrap();

    assert_eq!(item.uid.0, "u1");
    assert_eq!(item.id.0, "i1");
    assert_eq!(item.title, "buy milk");
    assert_eq!(item.description, "two litres");
    assert_eq!(item.status.name, "");
    assert!(!item.flagged);
    assert_eq!(item.project_id.0, "67e55044-10b1-426f-9247-bb680e5fe0c8");
}

#[test]
fn a_new_item_keeps_its_project_in_hyphenated_lower_case() {
    for given in [
        "67E55044-10B1-426F-9247-BB680E5FE0C8",
        "67e5504410b1426f9247bb680e5fe0c8",
        "urn:uuid:67e55044-10b1-426f-9247-bb680e5fe0c8",
        "{67e55044-10b1-426f-9247-bb680e5fe0c8}",
    ] {
        let item = input(Some("t"), None, Some(given))
            .new_item(UserId("u".to_string()), ItemId("i".to_string()))
            .unwrap();

        assert_eq!(item.project_id.0, "67e55044-10b1-426f-9247-bb680e5fe0c8", "{}", given);
        assert_eq!(item.project_id.0.len(), 36);
        assert_eq!(item.description, "");
    }
}

#[test]
fn a_new_item_gets_a_fresh_identifier() {
    let one = input(Some("t"), None, Some("67e55044-10b1-426f-9247-bb680e5fe0c8"))
        .to_new_item(UserId("u".to_string()))
        .unwrap();
    let other = input(Some("t"), None, Some("67e55044-10b1-426f-9247-bb680e5fe0c8"))
        .to_new_item(UserId("u".to_string()))
        .unwrap();

    assert!(is_random_uuid(&one.id.0), "{}", one.id.0);
    assert!(is_random_uuid(&other.id.0), "{}", other.id.0);
    assert_ne!(one.id.0, other.id.0);
    assert_eq!(one.title, "t");
    assert_eq!(one.uid.0, "u");
}

#[test]
fn a_project_that_is_no_identifier_is_reported() {
    let err = input(Some("t"), None, Some("not-a-uuid"))
        .to_new_item(UserId("u".to_string()))
        .unwrap_err();

    assert_eq!(err.to_string(), "Invalid UUID for project_id: 'not-a-uuid'");
    match err {
        SerializableError::InvalidUUID(InvalidUUIDError { uuid, field, .. }) => {
            assert_eq!(uuid, "not-a-uuid");
            assert_eq!(field, "project_id");
        }
        other => panic!("{:?}", other),
    }
}

#[test]
fn a_missing_project_is_reported_as_an_empty_identifier() {
    let err = input(Some("t"), None, None).to_new_item(UserId("u".to_string())).unwrap_err();

    assert_eq!(err.to_string(), "Invalid UUID for project_id: ''");
}

#[test]
fn a_missing_title_is_reported() {
    let err = input(None, Some("d"), Some("67e55044-10b1-426f-9247-bb680e5fe0c8"))
        .to_new_item(UserId("u".to_string()))
        .unwrap_err();

    assert_eq!(err.to_string(), "Missing Field: 'title'");
}

#[test]
fn a_bad_project_is_reported_before_a_missing_title() {
    let err = input(None, None, Some("zz")).to_new_item(UserId("u".to_string())).unwrap_err();

    assert_eq!(err.to_string(), "Invalid UUID for project_id: 'zz'");
}

#[test]
fn failures_have_their_messages() {
    assert_eq!(SerializableError::MissingBody(MissingBody()).to_string(), "Missing Body");
    assert_eq!(
        SerializableError::MissingField(MissingField("title")).to_string(),
        "Missing Field: 'title'"
    );
    assert_eq!(
        SerializableError::ParsingError(ParsingError { serde_error: "EOF at line 1".to_string() })
            .to_string(),
        "Parsing Error: EOF at line 1"
    );
}

#[test]
fn adding_answers_with_the_item() {
    let response = add(
        Ok(input(Some("t"), Some("d"), Some("67e55044-10b1-426f-9247-bb680e5fe0c8"))),
        UserId("u".to_string()),
    );

    assert_eq!(response.status_code, 200);
    match response.body {
        Some((Ok(item), ContentType::ApplicationJson)) => {
            assert_eq!(item.title, "t");
            assert_eq!(item.description, "d");
            assert_eq!(item.uid.0, "u");
            assert!(is_random_uuid(&item.id.0));
        }
        other => panic!("{:?}", other),
    }
}

#[test]
fn adding_answers_a_failure_with_status_400() {
    let unread = add(
        Err(SerializableError::MissingBody(MissingBody())),
        UserId("u".to_string()),
    );
    assert_eq!(unread.status_code, 400);
    match unread.body {
        Some((Err(SerializableError::MissingBody(_)), ContentType::ApplicationJson)) => {}
        other => panic!("{:?}", other),
    }

    let untitled = add(
        Ok(input(None, None, Some("67e55044-10b1-426f-9247-bb680e5fe0c8"))),
        UserId("u".to_string()),
    );
    assert_eq!(untitled.status_code, 400);
    match untitled.body {
        Some((Err(error), ContentType::ApplicationJson)) => {
            assert_eq!(error.to_string(), "Missing Field: 'title'")
        }
        other => panic!("{:?}", other),
    }
}

fn basic_item() -> BasicItem {
    BasicItem {
        uid: UserId("u".to_string()),
        id: ItemId("i".to_string()),
        title: "t".to_string(),
        description: "d".to_string(),
        status: State { name: "open".to_string() },
        flagged: true,
        project_id: ProjectId("p".to_string()),
    }
}

#[test]
fn listing_answers_with_the_items() {
    let response = list(vec![basic_item(), basic_item()]);

    assert_eq!(response.status_code, 200);
    match response.body {
        Some((Ok(ItemList { items }), ContentType::ApplicationJson)) => {
            assert_eq!(items.len(), 2);
            assert_eq!(items[0].title, "t");
        }
        other => panic!("{:?}", other),
    }
}

#[test]
fn an_item_tells_about_itself() {
    let item = basic_item();

    assert_eq!(item.id().0, "i");
    assert_eq!(item.user_id().0, "u");
    assert_eq!(item.title(), "t");
    assert_eq!(item.description(), "d");
    assert_eq!(item.status().name, "open");
    assert!(item.flagged());
    assert_eq!(item.project().0, "p");
    assert!(item.parent().is_none());
}

#[test]
fn identifiers_are_text() {
    assert_eq!(UserId("u".to_string()).to_string(), "u");
    assert_eq!(AppId::from("a".to_string()).to_string(), "a");
    assert_eq!(ItemId::from("i".to_string()).0, "i");
    assert_eq!(ProjectId::from("p".to_string()).to_string(), "p");
    assert_eq!(UserId::from("x".to_string()).0, "x");
    assert_eq!(ItemId("y".to_string()).to_string(), "y");
}

#[test]
fn new_identifiers_are_random_uuids() {
    let user = UserId::new();
    let app = AppId::new();
    let item = ItemId::new();
    let project = ProjectId::new();

    for text in [&user.0, &app.0, &item.0, &project.0] {
        assert!(is_random_uuid(text), "{}", text);
    }
    assert_ne!(user.0, UserId::new().0);
}

#[test]
fn records_hold_what_they_are_given() {
    let application = Application { app_id: AppId("a".to_string()), app_secret: None };
    assert_eq!(application.app_id.0, "a");
    assert!(application.app_secret.is_none());

    let list = TodoList { todos: vec![Task { id: None, task: "t".to_string() }] };
    assert_eq!(list.todos.len(), 1);
    let todo = Todo { task: Task { id: Some("1".to_string()), task: "t".to_string() } };
    assert_eq!(todo.task.id.as_deref(), Some("1"));

    let project = Project {
        name: "p".to_string(),
        costs_info: CostInfo {
            categories: vec![CostCategory { name: "time".to_string() }],
            unit: "h".to_string(),
        },
        workflow: Workflow {
            states: vec![State { name: "open".to_string() }, State { name: "done".to_string() }],
            transitions: vec![Transition {
                name: "close".to_string(),
                from: State { name: "open".to_string() },
                to: State { name: "done".to_string() },
            }],
        },
    };
    assert_eq!(project.workflow.transitions[0].to.name, "done");
    assert_eq!(project.costs_info.categories[0].name, "time");

    let cost = Cost { category: CostCategory { name: "time".to_string() }, cost: 3 };
    assert_eq!(cost.cost, 3);
    assert_eq!(Tag { name: "home".to_string() }.name, "home");
    assert_eq!(Context { name: "desk".to_string() }.name, "desk");
    assert!(matches!(ItemType::Free { name: "x".to_string() }, ItemType::Free { .. }));
    assert!(matches!(ItemType::Bug, ItemType::Bug));
    let _ = Repeat {};
}

#[test]
fn an_item_is_answered_with_status_200_and_a_failure_with_400() {
    let served = item_response(Ok(basic_item()));
    assert_eq!(served.status_code, 200);
    assert!(matches!(served.body, Some((Ok(_), ContentType::ApplicationJson))));

    let refused = item_response(Err(SerializableError::MissingField(MissingField("title"))));
    assert_eq!(refused.status_code, 400);
    assert!(matches!(refused.body, Some((Err(_), ContentType::ApplicationJson))));
}
