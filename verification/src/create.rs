//! The user-provisioning orchestrator: create or find the remote identity
//! for a requested user, then patch the profile row to match the request.
//!
//! The orchestration is a state machine.  `begin_create` checks the
//! configuration and yields the first action; each response is fed to
//! `create_step`, which yields the next state and action, until the action is
//! `Finish`.  The exec functions are pinned to the spec-level transition
//! function `create_step_spec`, which the laws reason about.

use vstd::prelude::*;

use crate::config::Config;
use crate::config::EnvValues;
use crate::config::resolve_config;
use crate::config::resolve_config_result;
use crate::error::AppError;
use crate::protocol::Action;
use crate::protocol::Event;
use crate::protocol::ProfilePatch;
use crate::protocol::conflict_is_recoverable;
use crate::protocol::first_message;
use crate::protocol::is_conflict_status;
use crate::protocol::is_success_status;
use crate::protocol::now_rfc3339;
use crate::protocol::spec_conflict_is_recoverable;
use crate::protocol::spec_first_message;
use crate::protocol::status_is_conflict;
use crate::protocol::status_is_success;
use crate::text::derive_email;
use crate::text::email_of;

verus! {

/// What the user-creation caller asks for.
#[derive(Debug, PartialEq, Eq)]
pub struct CreateRequest {
    pub username: String,
    pub password: String,
    pub display_name: Option<String>,
    pub role: String,
}

/// Which remote call the provisioning orchestrator is waiting on, if any.
#[derive(Debug, Clone, Copy, PartialEq, Eq)]
pub enum CreatePhase {
    /// The identity-creation POST is in flight.
    AwaitingCreate,
    /// The identity lookup by email is in flight.
    AwaitingLookup,
    /// The profile-row PATCH is in flight.
    AwaitingProfilePatch,
    /// The operation succeeded.
    Done,
    /// The operation failed.
    Failed,
}

/// The provisioning orchestrator's state between remote calls.
#[derive(Debug, PartialEq, Eq)]
pub struct CreateState {
    pub req: CreateRequest,
    /// The canonical email derived from the requested username.
    pub email: String,
    /// The timestamp written into the profile patch.
    pub now: String,
    pub phase: CreatePhase,
}

/// The same state with another phase.
pub open spec fn with_phase(s: CreateState, phase: CreatePhase) -> CreateState {
    CreateState { req: s.req, email: s.email, now: s.now, phase }
}

/// The profile patch that provisioning writes once the identity id is known:
/// the requested username, the requested display name with the username as
/// fallback, the requested role, the orchestrator's timestamp, and the
/// resolved id as author and row filter.
pub open spec fn create_profile_patch(s: CreateState, id: String) -> ProfilePatch {
    ProfilePatch {
        username: Some(s.req.username),
        display_name: Some(
            match s.req.display_name {
                Some(d) => d,
                None => s.req.username,
            },
        ),
        role: s.req.role,
        updated_at: s.now,
        updated_by: id,
    }
}

/// The provisioning transition function: from a state and the outcome of the
/// call it awaits, the next state and action.  `None` means the event is not
/// one the state can accept (or the state is terminal).
pub open spec fn create_step_spec(s: CreateState, e: Event) -> Option<(CreateState, Action)> {
    match s.phase {
        CreatePhase::AwaitingCreate => match e {
            Event::Transport { message } => Some(
                (
                    with_phase(s, CreatePhase::Failed),
                    Action::Finish { result: Err(AppError::TransportError { message }) },
                ),
            ),
            Event::CreateIdentityResponse { status, user_id, error_description, error, msg } => {
                if is_success_status(status) {
                    match user_id {
                        Some(id) => Some(
                            (
                                with_phase(s, CreatePhase::AwaitingProfilePatch),
                                Action::SendProfilePatch { patch: create_profile_patch(s, id) },
                            ),
                        ),
                        None => Some(
                            (
                                with_phase(s, CreatePhase::AwaitingLookup),
                                Action::SendLookup { email: s.email },
                            ),
                        ),
                    }
                } else if is_conflict_status(status) {
                    let message = spec_first_message(error_description, error, msg);
                    if spec_conflict_is_recoverable(message) {
                        Some(
                            (
                                with_phase(s, CreatePhase::AwaitingLookup),
                                Action::SendLookup { email: s.email },
                            ),
                        )
                    } else {
                        Some(
                            (
                                with_phase(s, CreatePhase::Failed),
                                Action::Finish {
                                    result: Err(AppError::RemoteApiError { status, message }),
                                },
                            ),
                        )
                    }
                } else {
                    Some(
                        (
                            with_phase(s, CreatePhase::Failed),
                            Action::Finish {
                                result: Err(AppError::RemoteApiError { status, message: None }),
                            },
                        ),
                    )
                }
            },
            _ => None,
        },
        CreatePhase::AwaitingLookup => match e {
            Event::Transport { message } => Some(
                (
                    with_phase(s, CreatePhase::Failed),
                    Action::Finish { result: Err(AppError::TransportError { message }) },
                ),
            ),
            Event::LookupResponse { status, ids } => {
                if is_success_status(status) {
                    if ids.len() > 0 {
                        Some(
                            (
                                with_phase(s, CreatePhase::AwaitingProfilePatch),
                                Action::SendProfilePatch { patch: create_profile_patch(s, ids[0]) },
                            ),
                        )
                    } else {
                        Some(
                            (
                                with_phase(s, CreatePhase::Failed),
                                Action::Finish { result: Err(AppError::ReconciliationError) },
                            ),
                        )
                    }
                } else {
                    Some(
                        (
                            with_phase(s, CreatePhase::Failed),
                            Action::Finish {
                                result: Err(AppError::RemoteApiError { status, message: None }),
                            },
                        ),
                    )
                }
            },
            _ => None,
        },
        CreatePhase::AwaitingProfilePatch => match e {
            Event::Transport { message } => Some(
                (
                    with_phase(s, CreatePhase::Failed),
                    Action::Finish { result: Err(AppError::TransportError { message }) },
                ),
            ),
            Event::PatchResponse { status } => {
                if is_success_status(status) {
                    Some((with_phase(s, CreatePhase::Done), Action::Finish { result: Ok(()) }))
                } else {
                    Some(
                        (
                            with_phase(s, CreatePhase::Failed),
                            Action::Finish {
                                result: Err(AppError::RemoteApiError { status, message: None }),
                            },
                        ),
                    )
                }
            },
            _ => None,
        },
        CreatePhase::Done => None,
        CreatePhase::Failed => None,
    }
}

/// Builds the profile patch of `create_profile_patch` without consuming the
/// state.
fn build_create_patch(s: &CreateState, id: String) -> (r: ProfilePatch)
    ensures
        r == create_profile_patch(*s, id),
{
    ProfilePatch {
        username: Some(s.req.username.clone()),
        display_name: Some(
            match &s.req.display_name {
                Some(d) => d.clone(),
                None => s.req.username.clone(),
            },
        ),
        role: s.req.role.clone(),
        updated_at: s.now.clone(),
        updated_by: id,
    }
}

/// Lays out the provisioning orchestration for a request: the initial state
/// (awaiting the identity creation) and the creation action, carrying the
/// canonical email and the requested credentials, with the email always
/// marked confirmed.
pub fn plan_create(req: CreateRequest, now: String) -> (r: (CreateState, Action))
    ensures
        r.0.req == req,
        r.0.email@ == email_of(req.username@),
        r.0.now == now,
        r.0.phase == CreatePhase::AwaitingCreate,
        r.1 == (Action::SendCreateIdentity {
            email: r.0.email,
            password: req.password,
            email_confirm: true,
            display_name: req.display_name,
        }),
{
    let email = derive_email(req.username.as_str());
    let action = Action::SendCreateIdentity {
        email: email.clone(),
        password: req.password.clone(),
        email_confirm: true,
        display_name: req.display_name.clone(),
    };
    let state = CreateState { req, email, now, phase: CreatePhase::AwaitingCreate };
    (state, action)
}

/// Starts the provisioning orchestrator: resolves the configuration and, if
/// it is complete, plans the first remote call.  A missing configuration
/// value fails the operation before anything is sent.
pub fn begin_create(env: EnvValues, req: CreateRequest) -> (r: Result<
    (Config, CreateState, Action),
    AppError,
>)
    ensures
        ((env.platform_url is None && env.vite_platform_url is None) || env.service_role_key
            is None) <==> r is Err,
        r matches Err(e) ==> Err::<Config, AppError>(e) == resolve_config_result(env),
        r matches Ok(t) ==> {
            let (c, s, a) = t;
            &&& Ok::<Config, AppError>(c) == resolve_config_result(env)
            &&& s.req == req
            &&& s.email@ == email_of(req.username@)
            &&& s.phase == CreatePhase::AwaitingCreate
            &&& a == (Action::SendCreateIdentity {
                email: s.email,
                password: req.password,
                email_confirm: true,
                display_name: req.display_name,
            })
        },
{
    let config = match resolve_config(env) {
        Ok(c) => c,
        Err(e) => {
            return Err(e);
        },
    };
    let now = now_rfc3339();
    let (state, action) = plan_create(req, now);
    Ok((config, state, action))
}

/// Whether the state can accept the event: true exactly when `create_step`
/// may be called on the pair.
pub fn create_accepts(state: &CreateState, event: &Event) -> (r: bool)
    ensures
        r == (create_step_spec(*state, *event) is Some),
{
    match state.phase {
        CreatePhase::AwaitingCreate => match event {
            Event::Transport { .. } => true,
            Event::CreateIdentityResponse { .. } => true,
            _ => false,
        },
        CreatePhase::AwaitingLookup => match event {
            Event::Transport { .. } => true,
            Event::LookupResponse { .. } => true,
            _ => false,
        },
        CreatePhase::AwaitingProfilePatch => match event {
            Event::Transport { .. } => true,
            Event::PatchResponse { .. } => true,
            _ => false,
        },
        CreatePhase::Done => false,
        CreatePhase::Failed => false,
    }
}

/// Advances the provisioning orchestrator by one observed outcome, exactly
/// as `create_step_spec` prescribes.
pub fn create_step(state: CreateState, event: Event) -> (r: (CreateState, Action))
    requires
        create_step_spec(state, event) is Some,
    ensures
        Some(r) == create_step_spec(state, event),
{
    match state.phase {
        CreatePhase::AwaitingCreate => match event {
            Event::Transport { message } => fail_transport(state, message),
            Event::CreateIdentityResponse { status, user_id, error_description, error, msg } => {
                if status_is_success(status) {
                    match user_id {
                        Some(id) => {
                            let patch = build_create_patch(&state, id);
                            (
                                set_phase(state, CreatePhase::AwaitingProfilePatch),
                                Action::SendProfilePatch { patch },
                            )
                        },
                        None => {
                            let email = state.email.clone();
                            (
                                set_phase(state, CreatePhase::AwaitingLookup),
                                Action::SendLookup { email },
                            )
                        },
                    }
                } else if status_is_conflict(status) {
                    let message = first_message(error_description, error, msg);
                    if conflict_is_recoverable(&message) {
                        let email = state.email.clone();
                        (set_phase(state, CreatePhase::AwaitingLookup), Action::SendLookup { email })
                    } else {
                        (
                            set_phase(state, CreatePhase::Failed),
                            Action::Finish {
                                result: Err(AppError::RemoteApiError { status, message }),
                            },
                        )
                    }
                } else {
                    (
                        set_phase(state, CreatePhase::Failed),
                        Action::Finish {
                            result: Err(AppError::RemoteApiError { status, message: None }),
                        },
                    )
                }
            },
            _ => vstd::pervasive::unreached(),
        },
        CreatePhase::AwaitingLookup => match event {
            Event::Transport { message } => fail_transport(state, message),
            Event::LookupResponse { status, ids } => {
                if status_is_success(status) {
                    if ids.len() > 0 {
                        let id = ids[0].clone();
                        let patch = build_create_patch(&state, id);
                        (
                            set_phase(state, CreatePhase::AwaitingProfilePatch),
                            Action::SendProfilePatch { patch },
                        )
                    } else {
                        (
                            set_phase(state, CreatePhase::Failed),
                            Action::Finish { result: Err(AppError::ReconciliationError) },
                        )
                    }
                } else {
                    (
                        set_phase(state, CreatePhase::Failed),
                        Action::Finish {
                            result: Err(AppError::RemoteApiError { status, message: None }),
                        },
                    )
                }
            },
            _ => vstd::pervasive::unreached(),
        },
        CreatePhase::AwaitingProfilePatch => match event {
            Event::Transport { message } => fail_transport(state, message),
            Event::PatchResponse { status } => {
                if status_is_success(status) {
                    (set_phase(state, CreatePhase::Done), Action::Finish { result: Ok(()) })
                } else {
                    (
                        set_phase(state, CreatePhase::Failed),
                        Action::Finish {
                            result: Err(AppError::RemoteApiError { status, message: None }),
                        },
                    )
                }
            },
            _ => vstd::pervasive::unreached(),
        },
        CreatePhase::Done => vstd::pervasive::unreached(),
        CreatePhase::Failed => vstd::pervasive::unreached(),
    }
}

/// The state with its phase replaced.
fn set_phase(state: CreateState, phase: CreatePhase) -> (r: CreateState)
    ensures
        r == with_phase(state, phase),
{
    CreateState { req: state.req, email: state.email, now: state.now, phase }
}

/// A transport failure ends the operation with the cause's description.
fn fail_transport(state: CreateState, message: String) -> (r: (CreateState, Action))
    ensures
        r == (
            with_phase(state, CreatePhase::Failed),
            Action::Finish { result: Err(AppError::TransportError { message }) },
        ),
{
    (
        set_phase(state, CreatePhase::Failed),
        Action::Finish { result: Err(AppError::TransportError { message }) },
    )
}

/// The actions of a whole run: fold the transition function over a sequence
/// of events.  `None` means some event was one its state could not accept.
pub open spec fn create_run(s: CreateState, events: Seq<Event>) -> Option<Seq<Action>>
    decreases events.len(),
{
    if events.len() == 0 {
        Some(Seq::<Action>::empty())
    } else {
        match create_step_spec(s, events[0]) {
            None => None,
            Some((s2, a)) => match create_run(s2, events.drop_first()) {
                None => None,
                Some(rest) => Some(seq![a] + rest),
            },
        }
    }
}

} // verus!
