//! The user-update orchestrator: optionally patch identity-level fields
//! (password, display name), then always patch the profile row.
//!
//! The identity PATCH is sent only when at least one of the two fields is
//! present and non-blank after trimming, and its body carries only those
//! fields, trimmed; when both are blank the orchestrator goes straight to
//! the profile PATCH, so no no-op identity write ever leaves.

use vstd::prelude::*;

use crate::config::Config;
use crate::config::EnvValues;
use crate::config::resolve_config;
use crate::config::resolve_config_result;
use crate::error::AppError;
use crate::protocol::Action;
use crate::protocol::AdminUpdateBody;
use crate::protocol::Event;
use crate::protocol::ProfilePatch;
use crate::protocol::is_success_status;
use crate::protocol::now_rfc3339;
use crate::protocol::status_is_success;
use crate::text::spec_is_blank;
use crate::text::trim_of;
use crate::text::trimmed;

verus! {

/// What the user-update caller asks for.
#[derive(Debug, PartialEq, Eq)]
pub struct UpdateRequest {
    pub id: String,
    pub display_name: Option<String>,
    pub role: String,
    pub password: Option<String>,
}

/// Which remote call the update orchestrator is waiting on, if any.
#[derive(Debug, Clone, Copy, PartialEq, Eq)]
pub enum UpdatePhase {
    /// The identity-record PATCH is in flight.
    AwaitingAdminPatch,
    /// The profile-row PATCH is in flight.
    AwaitingProfilePatch,
    /// The operation succeeded.
    Done,
    /// The operation failed.
    Failed,
}

/// The update orchestrator's state between remote calls.
#[derive(Debug, PartialEq, Eq)]
pub struct UpdateState {
    pub req: UpdateRequest,
    /// The timestamp written into the profile patch.
    pub now: String,
    pub phase: UpdatePhase,
}

/// The same state with another phase.
pub open spec fn update_with_phase(s: UpdateState, phase: UpdatePhase) -> UpdateState {
    UpdateState { req: s.req, now: s.now, phase }
}

/// Whether the request carries at least one identity-level field worth
/// sending: a password or display name that is non-blank after trimming.
pub open spec fn wants_admin_patch(req: UpdateRequest) -> bool {
    (req.password matches Some(p) && !spec_is_blank(p@)) || (req.display_name matches Some(d)
        && !spec_is_blank(d@))
}

/// Whether `body` is exactly the identity PATCH body for the request: each
/// field present exactly when the requested value is non-blank, and then
/// trimmed.
pub open spec fn admin_body_matches(req: UpdateRequest, body: AdminUpdateBody) -> bool {
    &&& (match req.password {
        Some(p) => if !spec_is_blank(p@) {
            body.password matches Some(t) && t@ == trim_of(p@)
        } else {
            body.password is None
        },
        None => body.password is None,
    })
    &&& (match req.display_name {
        Some(d) => if !spec_is_blank(d@) {
            body.display_name matches Some(t) && t@ == trim_of(d@)
        } else {
            body.display_name is None
        },
        None => body.display_name is None,
    })
}

/// The profile patch that an update always writes: the display name as
/// given (possibly absent, serialized as null), the role, the orchestrator's
/// timestamp, and the request's id as author and row filter.  No username
/// field.
pub open spec fn update_profile_patch(s: UpdateState) -> ProfilePatch {
    ProfilePatch {
        username: None,
        display_name: s.req.display_name,
        role: s.req.role,
        updated_at: s.now,
        updated_by: s.req.id,
    }
}

/// The update transition function: from a state and the outcome of the call
/// it awaits, the next state and action.  `None` means the event is not one
/// the state can accept (or the state is terminal).
pub open spec fn update_step_spec(s: UpdateState, e: Event) -> Option<(UpdateState, Action)> {
    match s.phase {
        UpdatePhase::AwaitingAdminPatch => match e {
            Event::Transport { message } => Some(
                (
                    update_with_phase(s, UpdatePhase::Failed),
                    Action::Finish { result: Err(AppError::TransportError { message }) },
                ),
            ),
            Event::PatchResponse { status } => {
                if is_success_status(status) {
                    Some(
                        (
                            update_with_phase(s, UpdatePhase::AwaitingProfilePatch),
                            Action::SendProfilePatch { patch: update_profile_patch(s) },
                        ),
                    )
                } else {
                    Some(
                        (
                            update_with_phase(s, UpdatePhase::Failed),
                            Action::Finish {
                                result: Err(AppError::RemoteApiError { status, message: None }),
                            },
                        ),
                    )
                }
            },
            _ => None,
        },
        UpdatePhase::AwaitingProfilePatch => match e {
            Event::Transport { message } => Some(
                (
                    update_with_phase(s, UpdatePhase::Failed),
                    Action::Finish { result: Err(AppError::TransportError { message }) },
                ),
            ),
            Event::PatchResponse { status } => {
                if is_success_status(status) {
                    Some(
                        (update_with_phase(s, UpdatePhase::Done), Action::Finish { result: Ok(()) }),
                    )
                } else {
                    Some(
                        (
                            update_with_phase(s, UpdatePhase::Failed),
                            Action::Finish {
                                result: Err(AppError::RemoteApiError { status, message: None }),
                            },
                        ),
                    )
                }
            },
            _ => None,
        },
        UpdatePhase::Done => None,
        UpdatePhase::Failed => None,
    }
}

/// Trims an optional field down to the value worth sending: `Some` of the
/// trimmed text when it is non-blank, `None` otherwise.
fn trim_nonblank(o: &Option<String>) -> (r: Option<String>)
    ensures
        (match *o {
            Some(p) => if !spec_is_blank(p@) {
                r matches Some(t) && t@ == trim_of(p@)
            } else {
                r is None
            },
            None => r is None,
        }),
{
    match o {
        Some(p) => {
            let t = trimmed(p.as_str());
            if t.as_str().is_empty() {
                None
            } else {
                Some(t)
            }
        },
        None => None,
    }
}

/// Builds the profile patch of `update_profile_patch` without consuming the
/// state.
fn build_update_patch(s: &UpdateState) -> (r: ProfilePatch)
    ensures
        r == update_profile_patch(*s),
{
    ProfilePatch {
        username: None,
        display_name: match &s.req.display_name {
            Some(d) => Some(d.clone()),
            None => None,
        },
        role: s.req.role.clone(),
        updated_at: s.now.clone(),
        updated_by: s.req.id.clone(),
    }
}

/// Lays out the update orchestration for a request: when an identity-level
/// field is worth sending, the identity PATCH comes first with only the
/// non-blank fields, trimmed; otherwise the profile PATCH is the one and
/// only call.
pub fn plan_update(req: UpdateRequest, now: String) -> (r: (UpdateState, Action))
    ensures
        r.0.req == req,
        r.0.now == now,
        wants_admin_patch(req) ==> r.0.phase == UpdatePhase::AwaitingAdminPatch && (
        r.1 matches Action::SendAdminPatch { id, body } && id == req.id && admin_body_matches(
            req,
            body,
        )),
        !wants_admin_patch(req) ==> r.0.phase == UpdatePhase::AwaitingProfilePatch && r.1 == (
        Action::SendProfilePatch { patch: update_profile_patch(r.0) }),
{
    let password = trim_nonblank(&req.password);
    let display_name = trim_nonblank(&req.display_name);
    if password.is_some() || display_name.is_some() {
        let action = Action::SendAdminPatch {
            id: req.id.clone(),
            body: AdminUpdateBody { password, display_name },
        };
        (UpdateState { req, now, phase: UpdatePhase::AwaitingAdminPatch }, action)
    } else {
        let state = UpdateState { req, now, phase: UpdatePhase::AwaitingProfilePatch };
        let patch = build_update_patch(&state);
        (state, Action::SendProfilePatch { patch })
    }
}

/// Starts the update orchestrator: resolves the configuration and, if it is
/// complete, plans the first remote call.  A missing configuration value
/// fails the operation before anything is sent.
pub fn begin_update(env: EnvValues, req: UpdateRequest) -> (r: Result<
    (Config, UpdateState, Action),
    AppError,
>)
    ensures
        ((env.platform_url is None && env.vite_platform_url is None) || env.service_role_key
            is None) <==> r is Err,
        r matches Err(e) ==> Err::<Config, AppError>(e) == resolve_config_result(env),
        r matches Ok(t) ==> {
            let (c, s, a) = t;
            &&& Ok::<Config, AppError>(c) == resolve_config_result(env)
            &&& s.req == req
            &&& (wants_admin_patch(req) ==> s.phase == UpdatePhase::AwaitingAdminPatch && (
            a matches Action::SendAdminPatch { id, body } && id == req.id && admin_body_matches(
                req,
                body,
            )))
            &&& (!wants_admin_patch(req) ==> s.phase == UpdatePhase::AwaitingProfilePatch && a == (
            Action::SendProfilePatch { patch: update_profile_patch(s) }))
        },
{
    let config = match resolve_config(env) {
        Ok(c) => c,
        Err(e) => {
            return Err(e);
        },
    };
    let now = now_rfc3339();
    let (state, action) = plan_update(req, now);
    Ok((config, state, action))
}

/// Whether the state can accept the event: true exactly when `update_step`
/// may be called on the pair.
pub fn update_accepts(state: &UpdateState, event: &Event) -> (r: bool)
    ensures
        r == (update_step_spec(*state, *event) is Some),
{
    match state.phase {
        UpdatePhase::AwaitingAdminPatch => match event {
            Event::Transport { .. } => true,
            Event::PatchResponse { .. } => true,
            _ => false,
        },
        UpdatePhase::AwaitingProfilePatch => match event {
            Event::Transport { .. } => true,
            Event::PatchResponse { .. } => true,
            _ => false,
        },
        UpdatePhase::Done => false,
        UpdatePhase::Failed => false,
    }
}

/// Advances the update orchestrator by one observed outcome, exactly as
/// `update_step_spec` prescribes.
pub fn update_step(state: UpdateState, event: Event) -> (r: (UpdateState, Action))
    requires
        update_step_spec(state, event) is Some,
    ensures
        Some(r) == update_step_spec(state, event),
{
    match state.phase {
        UpdatePhase::AwaitingAdminPatch => match event {
            Event::Transport { message } => (
                update_set_phase(state, UpdatePhase::Failed),
                Action::Finish { result: Err(AppError::TransportError { message }) },
            ),
            Event::PatchResponse { status } => {
                if status_is_success(status) {
                    let patch = build_update_patch(&state);
                    (
                        update_set_phase(state, UpdatePhase::AwaitingProfilePatch),
                        Action::SendProfilePatch { patch },
                    )
                } else {
                    (
                        update_set_phase(state, UpdatePhase::Failed),
                        Action::Finish {
                            result: Err(AppError::RemoteApiError { status, message: None }),
                        },
                    )
                }
            },
            _ => vstd::pervasive::unreached(),
        },
        UpdatePhase::AwaitingProfilePatch => match event {
            Event::Transport { message } => (
                update_set_phase(state, UpdatePhase::Failed),
                Action::Finish { result: Err(AppError::TransportError { message }) },
            ),
            Event::PatchResponse { status } => {
                if status_is_success(status) {
                    (
                        update_set_phase(state, UpdatePhase::Done),
                        Action::Finish { result: Ok(()) },
                    )
                } else {
                    (
                        update_set_phase(state, UpdatePhase::Failed),
                        Action::Finish {
                            result: Err(AppError::RemoteApiError { status, message: None }),
                        },
                    )
                }
            },
            _ => vstd::pervasive::unreached(),
        },
        UpdatePhase::Done => vstd::pervasive::unreached(),
        UpdatePhase::Failed => vstd::pervasive::unreached(),
    }
}

/// The state with its phase replaced.
fn update_set_phase(state: UpdateState, phase: UpdatePhase) -> (r: UpdateState)
    ensures
        r == update_with_phase(state, phase),
{
    UpdateState { req: state.req, now: state.now, phase }
}

/// The actions of a whole run: fold the transition function over a sequence
/// of events.  `None` means some event was one its state could not accept.
pub open spec fn update_run(s: UpdateState, events: Seq<Event>) -> Option<Seq<Action>>
    decreases events.len(),
{
    if events.len() == 0 {
        Some(Seq::<Action>::empty())
    } else {
        match update_step_spec(s, events[0]) {
            None => None,
            Some((s2, a)) => match update_run(s2, events.drop_first()) {
                None => None,
                Some(rest) => Some(seq![a] + rest),
            },
        }
    }
}

} // verus!
