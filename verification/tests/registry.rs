use user_registry::registry::Registry;
use user_registry::service::Reply;
use user_registry::user::{CreateUserDto, User};

fn full(username: &str, email: &str, role: &str, organization: &str) -> User {
    User {
        username: username.to_string(),
        password: "p".to_string(),
        email: email.to_string(),
        role: role.to_string(),
        organization: organization.to_string(),
    }
}

fn narrow(username: &str, email: &str) -> CreateUserDto {
    CreateUserDto {
        username: username.to_string(),
        password: "p".to_string(),
        email: email.to_string(),
    }
}

fn unwrap_created(reply: Reply) -> User {
    match reply {
        Reply::Created(record) => record,
        Reply::Conflict => panic!("expected a created record, got a conflict"),
    }
}

#[test]
fn new_registry_holds_nothing() {
    let registry = Registry::new();
    assert!(!registry.contains("a@x.com"));
    assert!(registry.get("a@x.com").is_none());
}

#[test]
fn shared_secure_path_assigns_defaults() {
    let mut registry = Registry::new();
    let reply = registry.create_user_secure(narrow("alice", "a@x.com"));
    assert_eq!(reply.status(), 201);
    let record = unwrap_created(reply);
    assert_eq!(record.username, "alice");
    assert_eq!(record.password, "p");
    assert_eq!(record.email, "a@x.com");
    assert_eq!(record.role, "user");
    assert_eq!(record.organization, "default_org");
    assert!(registry.contains("a@x.com"));
    let stored = registry.get("a@x.com").expect("stored");
    assert_eq!(stored.role, "user");
    assert_eq!(stored.organization, "default_org");
}

#[test]
fn shared_vulnerable_path_stores_an_injected_role() {
    let mut registry = Registry::new();
    let reply = registry.create_user_vulnerable(full("mallory", "m@x.com", "admin", "victim_org"));
    let record = unwrap_created(reply);
    assert_eq!(record.role, "admin");
    assert_eq!(record.organization, "victim_org");
    let stored = registry.get("m@x.com").expect("stored");
    assert_eq!(stored.username, "mallory");
    assert_eq!(stored.role, "admin");
    assert_eq!(stored.organization, "victim_org");
}

#[test]
fn shared_paths_refuse_a_taken_email() {
    let mut registry = Registry::new();
    unwrap_created(registry.create_user_secure(narrow("alice", "a@x.com")));
    let reply = registry.create_user_vulnerable(full("eve", "a@x.com", "admin", "evil"));
    assert_eq!(reply.status(), 409);
    assert_eq!(registry.create_user_secure(narrow("eve", "a@x.com")).status(), 409);
    let stored = registry.get("a@x.com").expect("kept");
    assert_eq!(stored.username, "alice");
    assert_eq!(stored.role, "user");
    assert_eq!(stored.organization, "default_org");
}

#[test]
fn shared_registry_is_usable_after_every_call() {
    let mut registry = Registry::new();
    for round in 0..50 {
        let email = format!("user{}@x.com", round % 10);
        let reply = registry.create_user_secure(narrow("u", &email));
        if round < 10 {
            assert_eq!(reply.status(), 201);
        } else {
            assert_eq!(reply.status(), 409);
        }
        assert!(registry.contains(&email));
        assert_eq!(registry.get(&email).expect("stored").email, email);
    }
}

#[test]
fn shared_identical_requests_create_exactly_once() {
    let mut registry = Registry::new();
    let mut statuses = Vec::new();
    for _ in 0..6 {
        statuses.push(registry.create_user_vulnerable(full("m", "m@x.com", "admin", "o")).status());
    }
    assert_eq!(statuses, vec![201, 409, 409, 409, 409, 409]);
}
