//! The user-deletion orchestrator: delete the identity record, then the
//! profile row, tolerating "not found" on either — deletion is idempotent,
//! best-effort cleanup, and both calls are attempted whether or not the
//! record existed.

use vstd::prelude::*;

use crate::config::Config;
use crate::config::EnvValues;
use crate::config::resolve_config;
use crate::config::resolve_config_result;
use crate::error::AppError;
use crate::protocol::Action;
use crate::protocol::Event;
use crate::protocol::is_success_status;
use crate::protocol::status_is_success;

verus! {

/// What the user-deletion caller asks for.
#[derive(Debug, PartialEq, Eq)]
pub struct DeleteRequest {
    pub id: String,
}

/// Which remote call the deletion orchestrator is waiting on, if any.
#[derive(Debug, Clone, Copy, PartialEq, Eq)]
pub enum DeletePhase {
    /// The identity-record DELETE is in flight.
    AwaitingIdentityDelete,
    /// The profile-row DELETE is in flight.
    AwaitingProfileDelete,
    /// The operation succeeded.
    Done,
    /// The operation failed.
    Failed,
}

/// The deletion orchestrator's state between remote calls.
#[derive(Debug, PartialEq, Eq)]
pub struct DeleteState {
    pub id: String,
    pub phase: DeletePhase,
}

/// Whether a deletion response counts as the record being gone: success, or
/// 404 for a record that never existed.
pub open spec fn is_gone_status(status: u16) -> bool {
    is_success_status(status) || status == 404
}

/// The deletion transition function: from a state and the outcome of the
/// call it awaits, the next state and action.  `None` means the event is not
/// one the state can accept (or the state is terminal).
pub open spec fn delete_step_spec(s: DeleteState, e: Event) -> Option<(DeleteState, Action)> {
    match s.phase {
        DeletePhase::AwaitingIdentityDelete => match e {
            Event::Transport { message } => Some(
                (
                    DeleteState { id: s.id, phase: DeletePhase::Failed },
                    Action::Finish { result: Err(AppError::TransportError { message }) },
                ),
            ),
            Event::DeleteResponse { status } => {
                if is_gone_status(status) {
                    Some(
                        (
                            DeleteState { id: s.id, phase: DeletePhase::AwaitingProfileDelete },
                            Action::SendProfileDelete { id: s.id },
                        ),
                    )
                } else {
                    Some(
                        (
                            DeleteState { id: s.id, phase: DeletePhase::Failed },
                            Action::Finish {
                                result: Err(AppError::RemoteApiError { status, message: None }),
                            },
                        ),
                    )
                }
            },
            _ => None,
        },
        DeletePhase::AwaitingProfileDelete => match e {
            Event::Transport { message } => Some(
                (
                    DeleteState { id: s.id, phase: DeletePhase::Failed },
                    Action::Finish { result: Err(AppError::TransportError { message }) },
                ),
            ),
            Event::DeleteResponse { status } => {
                if is_gone_status(status) {
                    Some(
                        (
                            DeleteState { id: s.id, phase: DeletePhase::Done },
                            Action::Finish { result: Ok(()) },
                        ),
                    )
                } else {
                    Some(
                        (
                            DeleteState { id: s.id, phase: DeletePhase::Failed },
                            Action::Finish {
                                result: Err(AppError::RemoteApiError { status, message: None }),
                            },
                        ),
                    )
                }
            },
            _ => None,
        },
        DeletePhase::Done => None,
        DeletePhase::Failed => None,
    }
}

/// True exactly when the status counts as the record being gone.
pub fn status_is_gone(status: u16) -> (r: bool)
    ensures
        r == is_gone_status(status),
{
    status_is_success(status) || status == 404
}

/// Lays out the deletion orchestration for a request: the initial state and
/// the identity DELETE.
pub fn plan_delete(req: DeleteRequest) -> (r: (DeleteState, Action))
    ensures
        r.0.id == req.id,
        r.0.phase == DeletePhase::AwaitingIdentityDelete,
        r.1 == (Action::SendIdentityDelete { id: req.id }),
{
    let action = Action::SendIdentityDelete { id: req.id.clone() };
    (DeleteState { id: req.id, phase: DeletePhase::AwaitingIdentityDelete }, action)
}

/// Starts the deletion orchestrator: resolves the configuration and, if it
/// is complete, plans the first remote call.  A missing configuration value
/// fails the operation before anything is sent.
pub fn begin_delete(env: EnvValues, req: DeleteRequest) -> (r: Result<
    (Config, DeleteState, Action),
    AppError,
>)
    ensures
        ((env.platform_url is None && env.vite_platform_url is None) || env.service_role_key
            is None) <==> r is Err,
        r matches Err(e) ==> Err::<Config, AppError>(e) == resolve_config_result(env),
        r matches Ok(t) ==> {
            let (c, s, a) = t;
            &&& Ok::<Config, AppError>(c) == resolve_config_result(env)
            &&& s.id == req.id
            &&& s.phase == DeletePhase::AwaitingIdentityDelete
            &&& a == (Action::SendIdentityDelete { id: req.id })
        },
{
    let config = match resolve_config(env) {
        Ok(c) => c,
        Err(e) => {
            return Err(e);
        },
    };
    let (state, action) = plan_delete(req);
    Ok((config, state, action))
}

/// Whether the state can accept the event: true exactly when `delete_step`
/// may be called on the pair.
pub fn delete_accepts(state: &DeleteState, event: &Event) -> (r: bool)
    ensures
        r == (delete_step_spec(*state, *event) is Some),
{
    match state.phase {
        DeletePhase::AwaitingIdentityDelete => match event {
            Event::Transport { .. } => true,
            Event::DeleteResponse { .. } => true,
            _ => false,
        },
        DeletePhase::AwaitingProfileDelete => match event {
            Event::Transport { .. } => true,
            Event::DeleteResponse { .. } => true,
            _ => false,
        },
        DeletePhase::Done => false,
        DeletePhase::Failed => false,
    }
}

/// Advances the deletion orchestrator by one observed outcome, exactly as
/// `delete_step_spec` prescribes.
pub fn delete_step(state: DeleteState, event: Event) -> (r: (DeleteState, Action))
    requires
        delete_step_spec(state, event) is Some,
    ensures
        Some(r) == delete_step_spec(state, event),
{
    match state.phase {
        DeletePhase::AwaitingIdentityDelete => match event {
            Event::Transport { message } => (
                DeleteState { id: state.id, phase: DeletePhase::Failed },
                Action::Finish { result: Err(AppError::TransportError { message }) },
            ),
            Event::DeleteResponse { status } => {
                if status_is_gone(status) {
                    let id = state.id.clone();
                    (
                        DeleteState { id: state.id, phase: DeletePhase::AwaitingProfileDelete },
                        Action::SendProfileDelete { id },
                    )
                } else {
                    (
                        DeleteState { id: state.id, phase: DeletePhase::Failed },
                        Action::Finish {
                            result: Err(AppError::RemoteApiError { status, message: None }),
                        },
                    )
                }
            },
            _ => vstd::pervasive::unreached(),
        },
        DeletePhase::AwaitingProfileDelete => match event {
            Event::Transport { message } => (
                DeleteState { id: state.id, phase: DeletePhase::Failed },
                Action::Finish { result: Err(AppError::TransportError { message }) },
            ),
            Event::DeleteResponse { status } => {
                if status_is_gone(status) {
                    (
                        DeleteState { id: state.id, phase: DeletePhase::Done },
                        Action::Finish { result: Ok(()) },
                    )
                } else {
                    (
                        DeleteState { id: state.id, phase: DeletePhase::Failed },
                        Action::Finish {
                            result: Err(AppError::RemoteApiError { status, message: None }),
                        },
                    )
                }
            },
            _ => vstd::pervasive::unreached(),
        },
        DeletePhase::Done => vstd::pervasive::unreached(),
        DeletePhase::Failed => vstd::pervasive::unreached(),
    }
}

/// The actions of a whole run: fold the transition function over a sequence
/// of events.  `None` means some event was one its state could not accept.
pub open spec fn delete_run(s: DeleteState, events: Seq<Event>) -> Option<Seq<Action>>
    decreases events.len(),
{
    if events.len() == 0 {
        Some(Seq::<Action>::empty())
    } else {
        match delete_step_spec(s, events[0]) {
            None => None,
            Some((s2, a)) => match delete_run(s2, events.drop_first()) {
                None => None,
                Some(rest) => Some(seq![a] + rest),
            },
        }
    }
}

} // verus!
