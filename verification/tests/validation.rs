use saas_backend::validation::{
    CreateProjectRequest, CreateTaskRequest, CreateTenantRequest, CreateUserRequest, FieldError, Rule,
    TaskMetadata,
};

fn err(field: &str, rule: Rule, value: &str) -> FieldError {
    FieldError { field: field.to_string(), rule, value: value.to_string() }
}

#[test]
fn tenant_request_valid() {
    let r = CreateTenantRequest { name: "Acme".to_string(), slug: "acme".to_string() };
    assert_eq!(r.validate(), Ok(()));
}

#[test]
fn tenant_request_lists_every_empty_field() {
    let r = CreateTenantRequest { name: String::new(), slug: String::new() };
    assert_eq!(
        r.validate(),
        Err(vec![err("name", Rule::MinLength(1), ""), err("slug", Rule::MinLength(1), "")])
    );
}

#[test]
fn tenant_request_empty_slug_only() {
    let r = CreateTenantRequest { name: "Acme".to_string(), slug: String::new() };
    assert_eq!(r.validate(), Err(vec![err("slug", Rule::MinLength(1), "")]));
}

#[test]
fn one_multibyte_character_is_long_enough() {
    let r = CreateProjectRequest { name: "é".to_string(), description: None };
    assert_eq!(r.validate(), Ok(()));
}

#[test]
fn project_request_empty_name() {
    let r = CreateProjectRequest { name: String::new(), description: Some("d".to_string()) };
    assert_eq!(r.validate(), Err(vec![err("name", Rule::MinLength(1), "")]));
}

#[test]
fn user_request_valid() {
    let r = CreateUserRequest { name: "Ann".to_string(), email: "ann@example.com".to_string() };
    assert_eq!(r.validate(), Ok(()));
}

#[test]
fn user_request_bad_email() {
    let r = CreateUserRequest { name: "Ann".to_string(), email: "ann.example.com".to_string() };
    assert_eq!(r.validate(), Err(vec![err("email", Rule::Email, "ann.example.com")]));
}

#[test]
fn user_request_email_without_local_part() {
    let r = CreateUserRequest { name: "Ann".to_string(), email: "@example.com".to_string() };
    assert_eq!(r.validate(), Err(vec![err("email", Rule::Email, "@example.com")]));
}

#[test]
fn user_request_empty_name_and_email() {
    let r = CreateUserRequest { name: String::new(), email: String::new() };
    assert_eq!(
        r.validate(),
        Err(vec![err("name", Rule::MinLength(1), ""), err("email", Rule::Email, "")])
    );
}

#[test]
fn task_request_empty_title() {
    let r = CreateTaskRequest {
        project_id: 1,
        parent_task_id: None,
        title: String::new(),
        description: None,
        metadata: None,
    };
    assert_eq!(r.validate(), Err(vec![err("title", Rule::MinLength(1), "")]));
}

#[test]
fn task_request_defaults_metadata_to_empty_object() {
    let r = CreateTaskRequest {
        project_id: 5,
        parent_task_id: Some(9),
        title: "Write".to_string(),
        description: Some("docs".to_string()),
        metadata: None,
    };
    assert_eq!(r.validate(), Ok(()));
    let t = r.into_new_task();
    assert_eq!(t.project_id, 5);
    assert_eq!(t.parent_task_id, Some(9));
    assert_eq!(t.title, "Write");
    assert_eq!(t.description, Some("docs".to_string()));
    assert!(matches!(t.metadata, TaskMetadata::EmptyObject));
}

#[test]
fn task_request_keeps_given_metadata() {
    let given = serde_json::Value::String("x".to_string());
    let r = CreateTaskRequest {
        project_id: 5,
        parent_task_id: None,
        title: "Write".to_string(),
        description: None,
        metadata: Some(given.clone()),
    };
    match r.into_new_task().metadata {
        TaskMetadata::Document(v) => assert_eq!(v, given),
        TaskMetadata::EmptyObject => panic!("metadata was given"),
    }
}
