//! The vocabulary shared by the three orchestrator state machines: the
//! actions they ask the shell to perform, the events the shell reports back,
//! the request bodies, status classification, and the conflict policy.

use vstd::prelude::*;

use crate::error::AppError;
use crate::text::has_substring;
use crate::text::lower_of;
use crate::text::lowercase;

verus! {

/// Whether a status code reports success (the 2xx range).
pub open spec fn is_success_status(status: u16) -> bool {
    200 <= status < 300
}

/// Whether a status code is one the platform uses to reject a creation that
/// may collide with an existing identity.
pub open spec fn is_conflict_status(status: u16) -> bool {
    status == 400 || status == 409 || status == 422
}

/// True exactly when the status is in the 2xx range.
pub fn status_is_success(status: u16) -> (r: bool)
    ensures
        r == is_success_status(status),
{
    200 <= status && status < 300
}

/// True exactly when the status is one of the creation-conflict codes.
pub fn status_is_conflict(status: u16) -> (r: bool)
    ensures
        r == is_conflict_status(status),
{
    status == 400 || status == 409 || status == 422
}

/// The body of a profile-row PATCH.  `username` is serialized only when
/// present; `display_name` is always serialized, as null when absent.  The
/// row filter is `updated_by`: the patch addresses the profile row of the
/// identity that it names as the author of the change.
#[derive(Debug, PartialEq, Eq)]
pub struct ProfilePatch {
    pub username: Option<String>,
    pub display_name: Option<String>,
    pub role: String,
    pub updated_at: String,
    pub updated_by: String,
}

/// The body of an identity-record PATCH.  Each field is serialized only when
/// present, so a blank requested value never reaches the platform.
#[derive(Debug, PartialEq, Eq)]
pub struct AdminUpdateBody {
    pub password: Option<String>,
    pub display_name: Option<String>,
}

/// What an orchestrator asks the shell to do next.
#[derive(Debug, PartialEq, Eq)]
pub enum Action {
    /// POST a new identity record: email, password, confirmed email, and the
    /// optional display name carried as user metadata.
    SendCreateIdentity {
        email: String,
        password: String,
        email_confirm: bool,
        display_name: Option<String>,
    },
    /// GET the admin user listing filtered by equality on this email.
    SendLookup { email: String },
    /// PATCH the identity record with this id.
    SendAdminPatch { id: String, body: AdminUpdateBody },
    /// PATCH the profile row addressed by the patch's `updated_by`.
    SendProfilePatch { patch: ProfilePatch },
    /// DELETE the identity record with this id.
    SendIdentityDelete { id: String },
    /// DELETE the profile row with this id.
    SendProfileDelete { id: String },
    /// The operation is over; nothing more is to be sent.
    Finish { result: Result<(), AppError> },
}

/// What the shell reports back after performing a send action.  The shell
/// parses each response body into the plain values of the corresponding
/// variant; a body that fails to parse where one is required is reported as
/// `Transport`, except the error fields of a conflict, which are simply left
/// absent.
#[derive(Debug, PartialEq, Eq)]
pub enum Event {
    /// The call failed before a status was obtained.
    Transport { message: String },
    /// The identity-creation response: its status, the created identity's id
    /// if the body carried one, and the three possible error-message fields
    /// of a rejection body.
    CreateIdentityResponse {
        status: u16,
        user_id: Option<String>,
        error_description: Option<String>,
        error: Option<String>,
        msg: Option<String>,
    },
    /// The lookup response: its status and the ids of the listed
    /// identities, in the order the platform returned them.
    LookupResponse { status: u16, ids: Vec<String> },
    /// The status of an identity or profile PATCH response.
    PatchResponse { status: u16 },
    /// The status of an identity or profile DELETE response.
    DeleteResponse { status: u16 },
}

/// The first non-empty of the three error-message fields, in their fixed
/// priority order.
pub open spec fn spec_first_message(
    error_description: Option<String>,
    error: Option<String>,
    msg: Option<String>,
) -> Option<String> {
    if error_description matches Some(m) && m@.len() > 0 {
        error_description
    } else if error matches Some(m) && m@.len() > 0 {
        error
    } else if msg matches Some(m) && m@.len() > 0 {
        msg
    } else {
        None
    }
}

/// Whether the option holds a non-empty string.
fn holds_nonempty(o: &Option<String>) -> (r: bool)
    ensures
        r == (o matches Some(m) && m@.len() > 0),
{
    match o {
        Some(s) => !s.as_str().is_empty(),
        None => false,
    }
}

/// Picks the platform's message out of a rejection body: the first non-empty
/// of the three fields, in their fixed priority order.
pub fn first_message(
    error_description: Option<String>,
    error: Option<String>,
    msg: Option<String>,
) -> (r: Option<String>)
    ensures
        r == spec_first_message(error_description, error, msg),
{
    if holds_nonempty(&error_description) {
        error_description
    } else if holds_nonempty(&error) {
        error
    } else if holds_nonempty(&msg) {
        msg
    } else {
        None
    }
}

/// The conflict policy: a rejection is taken for "the identity pre-exists"
/// when no message could be parsed, or when the message, lowercased, contains
/// the substring "already".  Any other message is a genuine validation
/// failure to surface.  This is a heuristic on the message text, kept in one
/// place so it can be swapped for a structured check.
pub open spec fn spec_conflict_is_recoverable(message: Option<String>) -> bool {
    match message {
        None => true,
        Some(m) => has_substring(lower_of(m@), "already"@),
    }
}

/// Decides the conflict policy for a parsed (or absent) rejection message.
pub fn conflict_is_recoverable(message: &Option<String>) -> (r: bool)
    ensures
        r == spec_conflict_is_recoverable(*message),
{
    match message {
        None => true,
        Some(m) => {
            let low = lowercase(m.as_str());
            crate::text::contains_substring(low.as_str(), "already")
        },
    }
}

/// Relies on `chrono::Utc::now` and `chrono::DateTime::to_rfc3339`: the
/// current UTC time in RFC 3339 form.  The result depends on the clock, so
/// nothing is promised of it; every contract carries the timestamp through
/// unchanged from the state that holds it.  (`Utc::now` aborts on a system
/// clock set before the Unix epoch.)
#[verifier::external_body]
pub(crate) fn now_rfc3339() -> String {
    chrono::Utc::now().to_rfc3339()
}

/// How many profile PATCH actions a run contains.
pub open spec fn count_profile_patches(actions: Seq<Action>) -> nat
    decreases actions.len(),
{
    if actions.len() == 0 {
        0
    } else {
        (if actions[0] matches Action::SendProfilePatch { .. } {
            1nat
        } else {
            0nat
        }) + count_profile_patches(actions.drop_first())
    }
}

/// How many identity PATCH actions a run contains.
pub open spec fn count_admin_patches(actions: Seq<Action>) -> nat
    decreases actions.len(),
{
    if actions.len() == 0 {
        0
    } else {
        (if actions[0] matches Action::SendAdminPatch { .. } {
            1nat
        } else {
            0nat
        }) + count_admin_patches(actions.drop_first())
    }
}

/// How many lookup actions a run contains.
pub open spec fn count_lookups(actions: Seq<Action>) -> nat
    decreases actions.len(),
{
    if actions.len() == 0 {
        0
    } else {
        (if actions[0] matches Action::SendLookup { .. } {
            1nat
        } else {
            0nat
        }) + count_lookups(actions.drop_first())
    }
}

} // verus!
