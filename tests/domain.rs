use authcore::demo::{calculate_length, change, DeploymentState, JobState};
use authcore::domain::{Speak, User};
use authcore::dto::{CategoryResp, UserResp};

fn hanni() -> User {
    User { id: 3, username: "Hanni".to_string(), password: "$argon2id$x".to_string(), active: true }
}

#[test]
fn user_greets_speaks_and_shouts() {
    let u = hanni();
    assert_eq!(u.greet(), "Hello Hanni");
    assert_eq!(u.speak().unwrap(), "Hello Hanni");
    assert_eq!(u.shout().unwrap(), "HELLO HANNI");
}

#[test]
fn shout_uses_unicode_upper_case() {
    let u = User { id: 1, username: "straße".to_string(), password: String::new(), active: false };
    assert_eq!(u.shout().unwrap(), "HELLO STRASSE");
}

#[test]
fn user_response_hides_password() {
    let r = UserResp::from_user(hanni());
    assert_eq!(r.id, 3);
    assert_eq!(r.username, "Hanni");
    assert!(r.active);
    assert_eq!(r.greet, "Hello Hanni");
}

#[test]
fn category_response_copies_fields() {
    let r = CategoryResp::from_category(authcore::domain::Category { id: 4, name: "books".to_string(), active: true });
    assert_eq!((r.id, r.name.as_str(), r.active), (4, "books", true));
}

#[test]
fn demo_member_starts_active() {
    let m = authcore::demo::User::new(2, "Karina".to_string());
    assert_eq!(m.id, 2);
    assert!(m.active);
    assert_eq!(m.greet(), "Hello Karina");
    assert_eq!(m.shout(), Ok("HELLO KARINA".to_string()));
}

#[test]
fn job_states_describe_themselves() {
    assert_eq!(JobState::Pending.describe(), "Pending");
    assert_eq!(JobState::Running.describe(), "Running");
    assert_eq!(JobState::Failed("timeout".to_string()).describe(), "Failed: timeout");
    assert_eq!(JobState::Success.describe(), "Success");
}

#[test]
fn only_ready_deployment_serves() {
    assert!(!DeploymentState::Creating.can_serve());
    assert!(DeploymentState::Ready.can_serve());
    assert!(!DeploymentState::Error("timeout".to_string()).can_serve());
    assert_eq!(DeploymentState::Creating.message(), "creating");
    assert_eq!(DeploymentState::Ready.message(), "ready");
    assert_eq!(DeploymentState::Error("timeout".to_string()).message(), "error timeout");
}

#[test]
fn length_and_change() {
    let mut s = String::from("hello world");
    assert_eq!(calculate_length(&s), 11);
    assert_eq!(calculate_length(&"é".to_string()), 2);
    change(&mut s);
    assert_eq!(s, "hello world world 3");
}
