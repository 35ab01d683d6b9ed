//! Whole-run scenarios for the three orchestrator state machines.

use user_admin::config::EnvValues;
use user_admin::create::CreatePhase;
use user_admin::create::CreateRequest;
use user_admin::create::begin_create;
use user_admin::create::create_accepts;
use user_admin::create::create_step;
use user_admin::delete::DeletePhase;
use user_admin::delete::DeleteRequest;
use user_admin::delete::begin_delete;
use user_admin::delete::delete_step;
use user_admin::error::AppError;
use user_admin::protocol::Action;
use user_admin::protocol::Event;
use user_admin::update::UpdatePhase;
use user_admin::update::UpdateRequest;
use user_admin::update::begin_update;
use user_admin::update::update_step;

fn test_env() -> EnvValues {
    EnvValues {
        platform_url: Some("https://example.test".to_string()),
        vite_platform_url: None,
        service_role_key: Some("SECRET-REDACTED".to_string()),
    }
}

fn alice_request() -> CreateRequest {
    CreateRequest {
        username: "Alice".to_string(),
        password: "pw".to_string(),
        display_name: None,
        role: "admin".to_string(),
    }
}

fn create_response(status: u16, user_id: Option<&str>) -> Event {
    Event::CreateIdentityResponse {
        status,
        user_id: user_id.map(|s| s.to_string()),
        error_description: None,
        error: None,
        msg: None,
    }
}

fn conflict_response(status: u16, message: Option<&str>) -> Event {
    Event::CreateIdentityResponse {
        status,
        user_id: None,
        error_description: message.map(|s| s.to_string()),
        error: None,
        msg: None,
    }
}

#[test]
fn creation_with_returned_id_patches_profile_once() {
    let (_, state, action) = begin_create(test_env(), alice_request()).unwrap();
    match &action {
        Action::SendCreateIdentity { email, password, email_confirm, display_name } => {
            assert_eq!(email, "alice@app.local");
            assert_eq!(password, "pw");
            assert!(*email_confirm);
            assert_eq!(*display_name, None);
        }
        other => panic!("expected a creation send, got {:?}", other),
    }
    let now = state.now.clone();
    let (state, action) = create_step(state, create_response(201, Some("id-1")));
    match &action {
        Action::SendProfilePatch { patch } => {
            assert_eq!(patch.username, Some("Alice".to_string()));
            assert_eq!(patch.display_name, Some("Alice".to_string()));
            assert_eq!(patch.role, "admin".to_string());
            assert_eq!(patch.updated_at, now);
            assert_eq!(patch.updated_by, "id-1".to_string());
        }
        other => panic!("expected a profile patch, got {:?}", other),
    }
    let (state, action) = create_step(state, Event::PatchResponse { status: 204 });
    assert_eq!(state.phase, CreatePhase::Done);
    assert_eq!(action, Action::Finish { result: Ok(()) });
}

#[test]
fn creation_keeps_requested_display_name() {
    let req = CreateRequest {
        username: "Alice".to_string(),
        password: "pw".to_string(),
        display_name: Some("Alice A.".to_string()),
        role: "admin".to_string(),
    };
    let (_, state, _) = begin_create(test_env(), req).unwrap();
    let (_, action) = create_step(state, create_response(200, Some("id-9")));
    match action {
        Action::SendProfilePatch { patch } => {
            assert_eq!(patch.display_name, Some("Alice A.".to_string()));
        }
        other => panic!("expected a profile patch, got {:?}", other),
    }
}

#[test]
fn creation_with_empty_body_looks_up_before_patching() {
    let (_, state, _) = begin_create(test_env(), alice_request()).unwrap();
    let (state, action) = create_step(state, create_response(200, None));
    assert_eq!(action, Action::SendLookup { email: "alice@app.local".to_string() });
    let (state, action) = create_step(
        state,
        Event::LookupResponse { status: 200, ids: vec!["id-2".to_string()] },
    );
    match &action {
        Action::SendProfilePatch { patch } => assert_eq!(patch.updated_by, "id-2".to_string()),
        other => panic!("expected a profile patch, got {:?}", other),
    }
    let (_, action) = create_step(state, Event::PatchResponse { status: 201 });
    assert_eq!(action, Action::Finish { result: Ok(()) });
}

#[test]
fn conflict_with_already_message_resolves_via_lookup() {
    let (_, state, _) = begin_create(test_env(), alice_request()).unwrap();
    let (state, action) =
        create_step(state, conflict_response(422, Some("User already registered")));
    assert_eq!(state.phase, CreatePhase::AwaitingLookup);
    assert_eq!(action, Action::SendLookup { email: "alice@app.local".to_string() });
}

#[test]
fn conflict_with_other_message_fails_without_lookup() {
    let (_, state, _) = begin_create(test_env(), alice_request()).unwrap();
    let (state, action) = create_step(state, conflict_response(400, Some("Invalid password")));
    assert_eq!(state.phase, CreatePhase::Failed);
    assert_eq!(
        action,
        Action::Finish {
            result: Err(AppError::RemoteApiError {
                status: 400,
                message: Some("Invalid password".to_string()),
            }),
        }
    );
    assert!(!create_accepts(&state, &Event::LookupResponse { status: 200, ids: vec![] }));
}

#[test]
fn conflict_without_message_still_attempts_lookup() {
    let (_, state, _) = begin_create(test_env(), alice_request()).unwrap();
    let (state, action) = create_step(state, conflict_response(409, None));
    assert_eq!(state.phase, CreatePhase::AwaitingLookup);
    assert_eq!(action, Action::SendLookup { email: "alice@app.local".to_string() });
}

#[test]
fn conflict_lookup_without_match_is_a_reconciliation_error() {
    let (_, state, _) = begin_create(test_env(), alice_request()).unwrap();
    let (state, _) = create_step(state, conflict_response(422, None));
    let (state, action) = create_step(state, Event::LookupResponse { status: 200, ids: vec![] });
    assert_eq!(state.phase, CreatePhase::Failed);
    assert_eq!(action, Action::Finish { result: Err(AppError::ReconciliationError) });
}

#[test]
fn creation_unexpected_status_surfaces_remote_api_error() {
    let (_, state, _) = begin_create(test_env(), alice_request()).unwrap();
    let (state, action) = create_step(state, create_response(500, None));
    assert_eq!(state.phase, CreatePhase::Failed);
    assert_eq!(
        action,
        Action::Finish {
            result: Err(AppError::RemoteApiError { status: 500, message: None }),
        }
    );
    assert!(!create_accepts(&state, &Event::PatchResponse { status: 200 }));
}

#[test]
fn creation_transport_failure_surfaces_transport_error() {
    let (_, state, _) = begin_create(test_env(), alice_request()).unwrap();
    let (_, action) = create_step(state, Event::Transport { message: "refused".to_string() });
    assert_eq!(
        action,
        Action::Finish {
            result: Err(AppError::TransportError { message: "refused".to_string() }),
        }
    );
}

#[test]
fn creation_without_credential_fails_before_any_call() {
    let env = EnvValues {
        platform_url: Some("https://example.test".to_string()),
        vite_platform_url: None,
        service_role_key: None,
    };
    let r = begin_create(env, alice_request());
    assert!(matches!(r, Err(AppError::ConfigError { .. })));
}

#[test]
fn update_with_blank_fields_goes_straight_to_profile_patch() {
    let req = UpdateRequest {
        id: "id-3".to_string(),
        display_name: Some("  ".to_string()),
        role: "viewer".to_string(),
        password: Some(String::new()),
    };
    let (_, state, action) = begin_update(test_env(), req).unwrap();
    assert_eq!(state.phase, UpdatePhase::AwaitingProfilePatch);
    match &action {
        Action::SendProfilePatch { patch } => {
            assert_eq!(patch.username, None);
            assert_eq!(patch.display_name, Some("  ".to_string()));
            assert_eq!(patch.role, "viewer".to_string());
            assert_eq!(patch.updated_by, "id-3".to_string());
        }
        other => panic!("expected a profile patch, got {:?}", other),
    }
    let (state, action) = update_step(state, Event::PatchResponse { status: 204 });
    assert_eq!(state.phase, UpdatePhase::Done);
    assert_eq!(action, Action::Finish { result: Ok(()) });
}

#[test]
fn update_with_only_password_sends_password_only_body() {
    let req = UpdateRequest {
        id: "id-4".to_string(),
        display_name: None,
        role: "viewer".to_string(),
        password: Some(" newpass ".to_string()),
    };
    let (_, state, action) = begin_update(test_env(), req).unwrap();
    assert_eq!(state.phase, UpdatePhase::AwaitingAdminPatch);
    match &action {
        Action::SendAdminPatch { id, body } => {
            assert_eq!(id, "id-4");
            assert_eq!(body.password, Some("newpass".to_string()));
            assert_eq!(body.display_name, None);
        }
        other => panic!("expected an identity patch, got {:?}", other),
    }
    let (state, action) = update_step(state, Event::PatchResponse { status: 200 });
    assert!(matches!(action, Action::SendProfilePatch { .. }));
    let (_, action) = update_step(state, Event::PatchResponse { status: 204 });
    assert_eq!(action, Action::Finish { result: Ok(()) });
}

#[test]
fn update_with_only_display_name_sends_display_name_only_body() {
    let req = UpdateRequest {
        id: "id-5".to_string(),
        display_name: Some(" New Name ".to_string()),
        role: "viewer".to_string(),
        password: None,
    };
    let (_, _, action) = begin_update(test_env(), req).unwrap();
    match action {
        Action::SendAdminPatch { body, .. } => {
            assert_eq!(body.password, None);
            assert_eq!(body.display_name, Some("New Name".to_string()));
        }
        other => panic!("expected an identity patch, got {:?}", other),
    }
}

#[test]
fn update_admin_patch_failure_aborts_with_status() {
    let req = UpdateRequest {
        id: "id-6".to_string(),
        display_name: None,
        role: "viewer".to_string(),
        password: Some("pw".to_string()),
    };
    let (_, state, _) = begin_update(test_env(), req).unwrap();
    let (state, action) = update_step(state, Event::PatchResponse { status: 403 });
    assert_eq!(state.phase, UpdatePhase::Failed);
    assert_eq!(
        action,
        Action::Finish {
            result: Err(AppError::RemoteApiError { status: 403, message: None }),
        }
    );
}

#[test]
fn update_without_credential_fails_before_any_call() {
    let env = EnvValues {
        platform_url: Some("https://example.test".to_string()),
        vite_platform_url: None,
        service_role_key: None,
    };
    let req = UpdateRequest {
        id: "id-7".to_string(),
        display_name: None,
        role: "viewer".to_string(),
        password: None,
    };
    assert!(matches!(begin_update(env, req), Err(AppError::ConfigError { .. })));
}

#[test]
fn deletion_tolerates_missing_identity_record() {
    let (_, state, action) =
        begin_delete(test_env(), DeleteRequest { id: "id-8".to_string() }).unwrap();
    assert_eq!(action, Action::SendIdentityDelete { id: "id-8".to_string() });
    let (state, action) = delete_step(state, Event::DeleteResponse { status: 404 });
    assert_eq!(action, Action::SendProfileDelete { id: "id-8".to_string() });
    let (state, action) = delete_step(state, Event::DeleteResponse { status: 404 });
    assert_eq!(state.phase, DeletePhase::Done);
    assert_eq!(action, Action::Finish { result: Ok(()) });
}

#[test]
fn deletion_succeeds_when_both_deletes_succeed() {
    let (_, state, _) =
        begin_delete(test_env(), DeleteRequest { id: "id-9".to_string() }).unwrap();
    let (state, _) = delete_step(state, Event::DeleteResponse { status: 200 });
    let (_, action) = delete_step(state, Event::DeleteResponse { status: 204 });
    assert_eq!(action, Action::Finish { result: Ok(()) });
}

#[test]
fn deletion_unexpected_status_aborts_with_status() {
    let (_, state, _) =
        begin_delete(test_env(), DeleteRequest { id: "id-10".to_string() }).unwrap();
    let (state, action) = delete_step(state, Event::DeleteResponse { status: 500 });
    assert_eq!(state.phase, DeletePhase::Failed);
    assert_eq!(
        action,
        Action::Finish {
            result: Err(AppError::RemoteApiError { status: 500, message: None }),
        }
    );
}

#[test]
fn deletion_without_credential_fails_before_any_call() {
    let env = EnvValues {
        platform_url: None,
        vite_platform_url: Some("https://fallback.test".to_string()),
        service_role_key: None,
    };
    let r = begin_delete(env, DeleteRequest { id: "id-11".to_string() });
    assert!(matches!(r, Err(AppError::ConfigError { .. })));
}
