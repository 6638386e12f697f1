//! The decisions the storage layer makes around its queries: how a direct
//! conversation is keyed, who the other participant is, which members a new
//! group gets, and when a contact request may be sent or accepted.

use crate::dispatch::{others, without_sender};
use crate::models::UpdateProfileInput;
use vstd::prelude::*;
use vstd::string::StringExecFns;

verus! {

/// The participants of the conversation between two users, smaller id first,
/// so that either user finds the same conversation.
pub open spec fn conversation_key(user1_id: i32, user2_id: i32) -> (i32, i32) {
    if user1_id < user2_id {
        (user1_id, user2_id)
    } else {
        (user2_id, user1_id)
    }
}

/// The conversation between two users is the same whichever of them starts it.
pub proof fn lemma_conversation_key_symmetric(user1_id: i32, user2_id: i32)
    ensures
        conversation_key(user1_id, user2_id) == conversation_key(user2_id, user1_id),
        conversation_key(user1_id, user2_id).0 <= conversation_key(user1_id, user2_id).1,
{
}

/// The other participant of a conversation between `participant_1` and
/// `participant_2`, as seen by `my_user_id`; none if that user is not in it.
pub open spec fn partner(participant_1: i32, participant_2: i32, my_user_id: i32) -> Option<i32> {
    if participant_1 == my_user_id {
        Some(participant_2)
    } else if participant_2 == my_user_id {
        Some(participant_1)
    } else {
        None
    }
}

/// Access to stored messages, groups and conversations.
pub struct MessageRepository;

impl MessageRepository {
    /// The key of the conversation between two users.
    pub fn conversation_participants(user1_id: i32, user2_id: i32) -> (r: (i32, i32))
        ensures
            r == conversation_key(user1_id, user2_id),
    {
        if user1_id < user2_id {
            (user1_id, user2_id)
        } else {
            (user2_id, user1_id)
        }
    }

    /// The other participant of a conversation, for one of its participants.
    pub fn partner_of(participant_1: i32, participant_2: i32, my_user_id: i32) -> (r: Option<i32>)
        ensures
            r == partner(participant_1, participant_2, my_user_id),
    {
        if participant_1 == my_user_id {
            Some(participant_2)
        } else if participant_2 == my_user_id {
            Some(participant_1)
        } else {
            None
        }
    }

    /// The requested members of a new group other than its creator, in order;
    /// the creator joins separately, as admin.
    pub fn additional_members(creator_id: i32, member_ids: &Vec<i32>) -> (r: Vec<i32>)
        ensures
            r@ == others(member_ids@, creator_id),
    {
        without_sender(member_ids, creator_id)
    }
}

/// Why a contact request cannot be sent or accepted.
#[derive(Debug, PartialEq, Eq, Structural)]
pub enum ContactError {
    UserNotFound,
    CannotAddYourself,
    RequestAlreadySent,
    AlreadyFriends,
    UserBlocked,
    NoRequestFound,
    NoPendingRequest,
}

/// The text of a contact error.
pub open spec fn contact_error_text(e: ContactError) -> Seq<char> {
    match e {
        ContactError::UserNotFound => "User not found"@,
        ContactError::CannotAddYourself => "Cannot add yourself"@,
        ContactError::RequestAlreadySent => "Request already sent"@,
        ContactError::AlreadyFriends => "Already friends"@,
        ContactError::UserBlocked => "User blocked"@,
        ContactError::NoRequestFound => "No request found"@,
        ContactError::NoPendingRequest => "No pending request from this user"@,
    }
}

impl ContactError {
    /// The text shown to the user.
    pub fn message(&self) -> (r: String)
        ensures
            r@ == contact_error_text(*self),
    {
        match self {
            ContactError::UserNotFound => String::from_str("User not found"),
            ContactError::CannotAddYourself => String::from_str("Cannot add yourself"),
            ContactError::RequestAlreadySent => String::from_str("Request already sent"),
            ContactError::AlreadyFriends => String::from_str("Already friends"),
            ContactError::UserBlocked => String::from_str("User blocked"),
            ContactError::NoRequestFound => String::from_str("No request found"),
            ContactError::NoPendingRequest => String::from_str("No pending request from this user"),
        }
    }
}

/// Whether a request from `user_id` to the user found as `contact_id` may be
/// stored, given the status of an earlier request between them.
pub open spec fn request_verdict(
    user_id: i32,
    contact_id: Option<i32>,
    existing_status: Option<Seq<char>>,
) -> Result<i32, ContactError> {
    match contact_id {
        None => Err(ContactError::UserNotFound),
        Some(c) => if c == user_id {
            Err(ContactError::CannotAddYourself)
        } else {
            match existing_status {
                Some(s) => if s == "pending"@ {
                    Err(ContactError::RequestAlreadySent)
                } else if s == "accepted"@ {
                    Err(ContactError::AlreadyFriends)
                } else if s == "blocked"@ {
                    Err(ContactError::UserBlocked)
                } else {
                    Ok(c)
                },
                None => Ok(c),
            }
        },
    }
}

/// Whether a request whose stored status is `request_status` may be accepted.
pub open spec fn accept_verdict(request_status: Option<Seq<char>>) -> Result<(), ContactError> {
    match request_status {
        None => Err(ContactError::NoRequestFound),
        Some(s) => if s == "pending"@ {
            Ok(())
        } else {
            Err(ContactError::NoPendingRequest)
        },
    }
}

/// The view of an optional string.
pub open spec fn opt_view(s: Option<String>) -> Option<Seq<char>> {
    match s {
        Some(t) => Some(t@),
        None => None,
    }
}

/// Access to the contact list.
pub struct ContactRepository;

impl ContactRepository {
    /// Checks a new request from `user_id` to `contact_id` (none when no user
    /// has the requested name); on success, the id to store the request for.
    pub fn check_request(
        user_id: i32,
        contact_id: Option<i32>,
        existing_status: Option<String>,
    ) -> (r: Result<i32, ContactError>)
        ensures
            r == request_verdict(user_id, contact_id, opt_view(existing_status)),
    {
        match contact_id {
            None => Err(ContactError::UserNotFound),
            Some(c) => {
                if c == user_id {
                    return Err(ContactError::CannotAddYourself);
                }
                match existing_status {
                    Some(s) => {
                        if s == String::from_str("pending") {
                            Err(ContactError::RequestAlreadySent)
                        } else if s == String::from_str("accepted") {
                            Err(ContactError::AlreadyFriends)
                        } else if s == String::from_str("blocked") {
                            Err(ContactError::UserBlocked)
                        } else {
                            Ok(c)
                        }
                    },
                    None => Ok(c),
                }
            },
        }
    }

    /// Checks that the request a user is accepting is still pending.
    pub fn check_accept(request_status: Option<String>) -> (r: Result<(), ContactError>)
        ensures
            r == accept_verdict(opt_view(request_status)),
    {
        match request_status {
            None => Err(ContactError::NoRequestFound),
            Some(s) => {
                if s == String::from_str("pending") {
                    Ok(())
                } else {
                    Err(ContactError::NoPendingRequest)
                }
            },
        }
    }
}

/// A profile column an update can set.
#[derive(Debug, PartialEq, Eq, Structural)]
pub enum ProfileField {
    FirstName,
    LastName,
    Phone,
}

/// The columns an update sets: those whose new value is given, in table order.
pub open spec fn changed(first_name: bool, last_name: bool, phone: bool) -> Seq<ProfileField> {
    let a = if first_name {
        seq![ProfileField::FirstName]
    } else {
        Seq::empty()
    };
    let b = if last_name {
        seq![ProfileField::LastName]
    } else {
        Seq::empty()
    };
    let c = if phone {
        seq![ProfileField::Phone]
    } else {
        Seq::empty()
    };
    a + b + c
}

/// Access to user records.
pub struct UserRepository;

impl UserRepository {
    /// The profile columns `input` sets; empty when it sets none, which the
    /// store refuses as an update with no fields.
    pub fn changed_fields(input: &UpdateProfileInput) -> (r: Vec<ProfileField>)
        ensures
            r@ == changed(
                input.first_name is Some,
                input.last_name is Some,
                input.phone is Some,
            ),
    {
        let mut fields: Vec<ProfileField> = Vec::new();
        if input.first_name.is_some() {
            fields.push(ProfileField::FirstName);
        }
        if input.last_name.is_some() {
            fields.push(ProfileField::LastName);
        }
        if input.phone.is_some() {
            fields.push(ProfileField::Phone);
        }
        proof {
            assert(fields@ =~= changed(
                input.first_name is Some,
                input.last_name is Some,
                input.phone is Some,
            ));
        }
        fields
    }
}

} // verus!
