//! The library's laws: proofs that whole orchestrator runs behave as
//! promised — which remote calls are made, in what order, how often, and
//! when an operation aborts.

use vstd::prelude::*;

use crate::config::EnvValues;
use crate::config::resolve_config_result;
use crate::create::CreatePhase;
use crate::create::CreateState;
use crate::create::create_profile_patch;
use crate::create::create_run;
use crate::create::create_step_spec;
use crate::delete::DeletePhase;
use crate::delete::DeleteState;
use crate::delete::delete_run;
use crate::delete::delete_step_spec;
use crate::delete::is_gone_status;
use crate::error::AppError;
use crate::protocol::Action;
use crate::protocol::Event;
use crate::protocol::AdminUpdateBody;
use crate::protocol::count_admin_patches;
use crate::protocol::count_lookups;
use crate::protocol::count_profile_patches;
use crate::protocol::is_conflict_status;
use crate::protocol::is_success_status;
use crate::protocol::spec_conflict_is_recoverable;
use crate::protocol::spec_first_message;
use crate::text::spec_is_blank;
use crate::text::trim_of;
use crate::update::UpdatePhase;
use crate::update::UpdateRequest;
use crate::update::UpdateState;
use crate::update::admin_body_matches;
use crate::update::update_run;
use crate::update::update_step_spec;

verus! {

/// Creation success with a returned identity id performs exactly one profile
/// PATCH, whose author (and row filter) is that id, and no lookup; the run
/// then finishes successfully once the patch succeeds.
pub proof fn lemma_create_with_returned_id_patches_once(
    s: CreateState,
    id: String,
    error_description: Option<String>,
    error: Option<String>,
    msg: Option<String>,
    create_status: u16,
    patch_status: u16,
)
    requires
        s.phase == CreatePhase::AwaitingCreate,
        is_success_status(create_status),
        is_success_status(patch_status),
    ensures
        ({
            let events = seq![
                Event::CreateIdentityResponse {
                    status: create_status,
                    user_id: Some(id),
                    error_description,
                    error,
                    msg,
                },
                Event::PatchResponse { status: patch_status },
            ];
            let r = create_run(s, events);
            &&& r matches Some(actions)
            &&& actions == seq![
                Action::SendProfilePatch { patch: create_profile_patch(s, id) },
                Action::Finish { result: Ok(()) },
            ]
            &&& create_profile_patch(s, id).updated_by == id
            &&& count_profile_patches(actions) == 1
            &&& count_lookups(actions) == 0
        }),
{
    reveal_with_fuel(create_run, 4);
    reveal_with_fuel(count_profile_patches, 4);
    reveal_with_fuel(count_lookups, 4);
    let events = seq![
        Event::CreateIdentityResponse {
            status: create_status,
            user_id: Some(id),
            error_description,
            error,
            msg,
        },
        Event::PatchResponse { status: patch_status },
    ];
    let a1 = Action::SendProfilePatch { patch: create_profile_patch(s, id) };
    let a2 = Action::Finish { result: Ok(()) };
    assert(events.drop_first() =~= seq![Event::PatchResponse { status: patch_status }]);
    assert(events.drop_first().drop_first() =~= Seq::<Event>::empty());
    let actions = create_run(s, events)->0;
    assert(actions =~= seq![a1, a2]);
    assert(seq![a1, a2].drop_first() =~= seq![a2]);
    assert(seq![a2].drop_first() =~= Seq::<Action>::empty());
}

/// Creation success with an empty response body resolves the id through
/// exactly one lookup, made before the one profile PATCH.
pub proof fn lemma_create_empty_body_looks_up_then_patches(
    s: CreateState,
    ids: Vec<String>,
    create_status: u16,
    lookup_status: u16,
    patch_status: u16,
)
    requires
        s.phase == CreatePhase::AwaitingCreate,
        is_success_status(create_status),
        is_success_status(lookup_status),
        is_success_status(patch_status),
        ids@.len() > 0,
    ensures
        ({
            let events = seq![
                Event::CreateIdentityResponse {
                    status: create_status,
                    user_id: None,
                    error_description: None,
                    error: None,
                    msg: None,
                },
                Event::LookupResponse { status: lookup_status, ids },
                Event::PatchResponse { status: patch_status },
            ];
            let r = create_run(s, events);
            &&& r matches Some(actions)
            &&& actions == seq![
                Action::SendLookup { email: s.email },
                Action::SendProfilePatch { patch: create_profile_patch(s, ids[0]) },
                Action::Finish { result: Ok(()) },
            ]
            &&& count_lookups(actions) == 1
            &&& count_profile_patches(actions) == 1
        }),
{
    reveal_with_fuel(create_run, 5);
    reveal_with_fuel(count_profile_patches, 5);
    reveal_with_fuel(count_lookups, 5);
    let events = seq![
        Event::CreateIdentityResponse {
            status: create_status,
            user_id: None,
            error_description: None,
            error: None,
            msg: None,
        },
        Event::LookupResponse { status: lookup_status, ids },
        Event::PatchResponse { status: patch_status },
    ];
    let a1 = Action::SendLookup { email: s.email };
    let a2 = Action::SendProfilePatch { patch: create_profile_patch(s, ids[0]) };
    let a3 = Action::Finish { result: Ok(()) };
    assert(events.drop_first() =~= seq![
        Event::LookupResponse { status: lookup_status, ids },
        Event::PatchResponse { status: patch_status },
    ]);
    assert(events.drop_first().drop_first() =~= seq![
        Event::PatchResponse { status: patch_status },
    ]);
    assert(events.drop_first().drop_first().drop_first() =~= Seq::<Event>::empty());
    let actions = create_run(s, events)->0;
    assert(actions =~= seq![a1, a2, a3]);
    assert(seq![a1, a2, a3].drop_first() =~= seq![a2, a3]);
    assert(seq![a2, a3].drop_first() =~= seq![a3]);
    assert(seq![a3].drop_first() =~= Seq::<Action>::empty());
}

/// A creation conflict is decided by the parsed message alone: when the
/// message (or its absence) passes the conflict policy, the orchestrator
/// proceeds to a lookup; otherwise it fails at once with the platform's
/// message, performing no lookup and no profile PATCH — the failed state
/// accepts nothing further.
pub proof fn lemma_create_conflict_decided_by_policy(
    s: CreateState,
    status: u16,
    user_id: Option<String>,
    error_description: Option<String>,
    error: Option<String>,
    msg: Option<String>,
)
    requires
        s.phase == CreatePhase::AwaitingCreate,
        is_conflict_status(status),
        !is_success_status(status),
    ensures
        ({
            let e = Event::CreateIdentityResponse {
                status,
                user_id,
                error_description,
                error,
                msg,
            };
            let message = spec_first_message(error_description, error, msg);
            let r = create_step_spec(s, e);
            &&& r matches Some(t)
            &&& spec_conflict_is_recoverable(message) ==> t.0.phase == CreatePhase::AwaitingLookup
                && t.1 == (Action::SendLookup { email: s.email })
            &&& !spec_conflict_is_recoverable(message) ==> t.0.phase == CreatePhase::Failed && t.1
                == (Action::Finish { result: Err(AppError::RemoteApiError { status, message }) })
                && (forall|e2: Event| create_step_spec(t.0, e2) is None)
        }),
{
}

/// A conflict whose body yielded no parseable message is still treated as a
/// possible duplicate: the orchestrator proceeds to a lookup.
pub proof fn lemma_create_conflict_without_message_looks_up(
    s: CreateState,
    status: u16,
    user_id: Option<String>,
)
    requires
        s.phase == CreatePhase::AwaitingCreate,
        is_conflict_status(status),
        !is_success_status(status),
    ensures
        ({
            let e = Event::CreateIdentityResponse {
                status,
                user_id,
                error_description: None,
                error: None,
                msg: None,
            };
            let r = create_step_spec(s, e);
            &&& r matches Some(t)
            &&& t.0.phase == CreatePhase::AwaitingLookup
            &&& t.1 == (Action::SendLookup { email: s.email })
        }),
{
}

/// Any status that is neither success nor conflict aborts provisioning at
/// the creation call with the numeric status, and the failed state accepts
/// nothing further.
pub proof fn lemma_create_unexpected_status_aborts(
    s: CreateState,
    status: u16,
    user_id: Option<String>,
    error_description: Option<String>,
    error: Option<String>,
    msg: Option<String>,
)
    requires
        s.phase == CreatePhase::AwaitingCreate,
        !is_success_status(status),
        !is_conflict_status(status),
    ensures
        ({
            let e = Event::CreateIdentityResponse {
                status,
                user_id,
                error_description,
                error,
                msg,
            };
            let r = create_step_spec(s, e);
            &&& r matches Some(t)
            &&& t.0.phase == CreatePhase::Failed
            &&& t.1 == (Action::Finish {
                result: Err(AppError::RemoteApiError { status, message: None }),
            })
            &&& forall|e2: Event| create_step_spec(t.0, e2) is None
        }),
{
}

/// A non-success lookup or profile-patch status aborts provisioning with the
/// numeric status, and the failed state accepts nothing further.
pub proof fn lemma_create_late_unexpected_status_aborts(s: CreateState, status: u16, ids: Vec<String>)
    requires
        !is_success_status(status),
    ensures
        s.phase == CreatePhase::AwaitingLookup ==> ({
            let r = create_step_spec(s, Event::LookupResponse { status, ids });
            &&& r matches Some(t)
            &&& t.0.phase == CreatePhase::Failed
            &&& t.1 == (Action::Finish {
                result: Err(AppError::RemoteApiError { status, message: None }),
            })
            &&& forall|e2: Event| create_step_spec(t.0, e2) is None
        }),
        s.phase == CreatePhase::AwaitingProfilePatch ==> ({
            let r = create_step_spec(s, Event::PatchResponse { status });
            &&& r matches Some(t)
            &&& t.0.phase == CreatePhase::Failed
            &&& t.1 == (Action::Finish {
                result: Err(AppError::RemoteApiError { status, message: None }),
            })
            &&& forall|e2: Event| create_step_spec(t.0, e2) is None
        }),
{
}

/// An update whose identity-level fields are both blank begins at the
/// profile PATCH (which `plan_update` already emitted as the one and only
/// send); the rest of the run issues no identity PATCH and no further
/// profile PATCH, and finishes successfully when the patch succeeded.
pub proof fn lemma_update_blank_fields_skip_admin_patch(s: UpdateState, status: u16)
    requires
        s.phase == UpdatePhase::AwaitingProfilePatch,
    ensures
        ({
            let r = update_run(s, seq![Event::PatchResponse { status }]);
            &&& r matches Some(actions)
            &&& count_admin_patches(actions) == 0
            &&& count_profile_patches(actions) == 0
            &&& is_success_status(status) ==> actions == seq![Action::Finish { result: Ok(()) }]
        }),
{
    reveal_with_fuel(update_run, 3);
    reveal_with_fuel(count_profile_patches, 3);
    reveal_with_fuel(count_admin_patches, 3);
    let events = seq![Event::PatchResponse { status }];
    assert(events.drop_first() =~= Seq::<Event>::empty());
    let actions = update_run(s, events)->0;
    let a1 = (update_step_spec(s, events[0])->0).1;
    assert(actions =~= seq![a1]);
    assert(seq![a1].drop_first() =~= Seq::<Action>::empty());
}

/// An identity PATCH body built for a request whose only non-blank field is
/// the password carries solely the trimmed password.
pub proof fn lemma_update_password_only_body(req: UpdateRequest, body: AdminUpdateBody)
    ensures
        (admin_body_matches(req, body) && (req.password matches Some(p) && !spec_is_blank(p@))
            && (match req.display_name {
            Some(d) => spec_is_blank(d@),
            None => true,
        })) ==> (body.password matches Some(t) && t@ == trim_of(req.password->0@)
            && body.display_name is None),
{
}

/// A non-success identity or profile PATCH status aborts the update with the
/// numeric status, and the failed state accepts nothing further.
pub proof fn lemma_update_unexpected_status_aborts(s: UpdateState, status: u16)
    requires
        !is_success_status(status),
        s.phase == UpdatePhase::AwaitingAdminPatch || s.phase == UpdatePhase::AwaitingProfilePatch,
    ensures
        ({
            let r = update_step_spec(s, Event::PatchResponse { status });
            &&& r matches Some(t)
            &&& t.0.phase == UpdatePhase::Failed
            &&& t.1 == (Action::Finish {
                result: Err(AppError::RemoteApiError { status, message: None }),
            })
            &&& forall|e2: Event| update_step_spec(t.0, e2) is None
        }),
{
}

/// A deletion whose identity DELETE answers 404 still proceeds to the
/// profile DELETE, and the operation succeeds when that one succeeds or
/// 404s too.
pub proof fn lemma_delete_tolerates_missing_identity(s: DeleteState, profile_status: u16)
    requires
        s.phase == DeletePhase::AwaitingIdentityDelete,
    ensures
        ({
            let events = seq![
                Event::DeleteResponse { status: 404 },
                Event::DeleteResponse { status: profile_status },
            ];
            let r = delete_run(s, events);
            &&& r matches Some(actions)
            &&& actions.len() == 2
            &&& actions[0] == (Action::SendProfileDelete { id: s.id })
            &&& is_gone_status(profile_status) ==> actions[1] == (Action::Finish {
                result: Ok(()),
            })
        }),
{
    reveal_with_fuel(delete_run, 4);
    let events = seq![
        Event::DeleteResponse { status: 404 },
        Event::DeleteResponse { status: profile_status },
    ];
    assert(events.drop_first() =~= seq![Event::DeleteResponse { status: profile_status }]);
    assert(events.drop_first().drop_first() =~= Seq::<Event>::empty());
    let (s1, a1) = delete_step_spec(s, events[0])->0;
    let a2 = (delete_step_spec(s1, events[1])->0).1;
    let actions = delete_run(s, events)->0;
    assert(actions =~= seq![a1, a2]);
}

/// A deletion status that is neither success nor 404 aborts the deletion
/// with the numeric status, and the failed state accepts nothing further.
pub proof fn lemma_delete_unexpected_status_aborts(s: DeleteState, status: u16)
    requires
        !is_gone_status(status),
        s.phase == DeletePhase::AwaitingIdentityDelete || s.phase
            == DeletePhase::AwaitingProfileDelete,
    ensures
        ({
            let r = delete_step_spec(s, Event::DeleteResponse { status });
            &&& r matches Some(t)
            &&& t.0.phase == DeletePhase::Failed
            &&& t.1 == (Action::Finish {
                result: Err(AppError::RemoteApiError { status, message: None }),
            })
            &&& forall|e2: Event| delete_step_spec(t.0, e2) is None
        }),
{
}

/// A missing service credential resolves to a configuration error, so every
/// orchestrator's begin function fails at once, before any remote call.
pub proof fn lemma_missing_service_key_is_config_error(env: EnvValues)
    requires
        env.service_role_key is None,
    ensures
        resolve_config_result(env) matches Err(e) && e matches AppError::ConfigError { .. },
{
}

} // verus!
