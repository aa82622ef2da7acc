//! The profile program: users register a name, send messages and collect
//! points; each accepted request yields the event the program emits.

use vstd::prelude::*;
use crate::text::{byte_len, byte_length};

verus! {

/// Longest accepted user name, in bytes.
pub const MAX_USERNAME_LEN: usize = 32;

/// Longest accepted message, in bytes.
pub const MAX_MESSAGE_LEN: usize = 256;

/// The profile account's data.
pub struct UserProfile {
    pub authority: [u8; 32],
    pub username: String,
    pub points: u64,
    pub message_count: u64,
}

/// Emitted when a user registers.
pub struct UserRegistered {
    pub user: [u8; 32],
    pub username: String,
    pub timestamp: i64,
}

/// Emitted when a message is sent.
pub struct MessageSent {
    pub sender: [u8; 32],
    pub recipient: [u8; 32],
    pub message: String,
    pub timestamp: i64,
}

/// Emitted when points are awarded.
pub struct PointsAwarded {
    pub user: [u8; 32],
    pub points: u64,
    pub reason: String,
    pub total_points: u64,
}

/// Errors of the profile program.
#[derive(Debug, PartialEq, Eq, Structural)]
pub enum EventError {
    EmptyUsername,
    UsernameTooLong,
    EmptyMessage,
    MessageTooLong,
    ZeroPoints,
    EmptyReason,
}

impl UserProfile {
    /// Bytes a profile with this user name occupies: discriminator,
    /// authority, length-prefixed name, points, message count.
    pub fn space(username: &str) -> (r: usize)
        requires
            byte_len(username@) + 60 <= usize::MAX,
        ensures
            r == 60 + byte_len(username@),
    {
        8 + 32 + 4 + byte_length(username) + 8 + 8
    }
}

/// Whether a user name is accepted: not empty, at most 32 bytes.
pub open spec fn username_check(username: Seq<char>) -> Result<(), EventError> {
    if !(byte_len(username) > 0) {
        Err(EventError::EmptyUsername)
    } else if !(byte_len(username) <= 32) {
        Err(EventError::UsernameTooLong)
    } else {
        Ok(())
    }
}

/// Whether a message is accepted: not empty, at most 256 bytes.
pub open spec fn message_check(message: Seq<char>) -> Result<(), EventError> {
    if !(byte_len(message) > 0) {
        Err(EventError::EmptyMessage)
    } else if !(byte_len(message) <= 256) {
        Err(EventError::MessageTooLong)
    } else {
        Ok(())
    }
}

/// Whether an award is accepted: some points, for a stated reason.
pub open spec fn award_check(points: u64, reason: Seq<char>) -> Result<(), EventError> {
    if !(points > 0) {
        Err(EventError::ZeroPoints)
    } else if !(byte_len(reason) > 0) {
        Err(EventError::EmptyReason)
    } else {
        Ok(())
    }
}

/// Checks a user name before registration.
pub fn check_username(username: &str) -> (r: Result<(), EventError>)
    ensures
        r == username_check(username@),
        r is Ok <==> 0 < vstd::utf8::encode_utf8(username@).len() <= 32,
{
    if !(byte_length(username) > 0) {
        return Err(EventError::EmptyUsername);
    }
    if !(byte_length(username) <= MAX_USERNAME_LEN) {
        return Err(EventError::UsernameTooLong);
    }
    Ok(())
}

/// Checks a message before it is sent.
pub fn check_message(message: &str) -> (r: Result<(), EventError>)
    ensures
        r == message_check(message@),
        r is Ok <==> 0 < vstd::utf8::encode_utf8(message@).len() <= 256,
{
    if !(byte_length(message) > 0) {
        return Err(EventError::EmptyMessage);
    }
    if !(byte_length(message) <= MAX_MESSAGE_LEN) {
        return Err(EventError::MessageTooLong);
    }
    Ok(())
}

/// Registers `username` for `authority` at `timestamp`: the profile starts
/// with no points and no messages. A refused name leaves the profile as it
/// was.
pub fn register_user(profile: &mut UserProfile, authority: [u8; 32], username: String, timestamp: i64) -> (r: Result<UserRegistered, EventError>)
    ensures
        match username_check(username@) {
            Ok(_) => r matches Ok(ev) && ev == (UserRegistered { user: authority, username, timestamp })
                && *final(profile) == (UserProfile { authority, username, points: 0, message_count: 0 }),
            Err(e) => r matches Err(re) && re == e && *final(profile) == *old(profile),
        },
{
    check_username(username.as_str())?;
    profile.authority = authority;
    profile.username = username.clone();
    profile.points = 0;
    profile.message_count = 0;
    Ok(UserRegistered { user: authority, username, timestamp })
}

/// Sends `message` from `sender` to `recipient` at `timestamp`, counting it
/// on the sender's profile. A refused message leaves the profile as it was.
pub fn send_message(profile: &mut UserProfile, sender: [u8; 32], recipient: [u8; 32], message: String, timestamp: i64) -> (r: Result<MessageSent, EventError>)
    requires
        message_check(message@) is Ok ==> old(profile).message_count < u64::MAX,
    ensures
        match message_check(message@) {
            Ok(_) => r matches Ok(ev) && ev == (MessageSent { sender, recipient, message, timestamp })
                && *final(profile) == (UserProfile { message_count: (old(profile).message_count + 1) as u64, ..*old(profile) }),
            Err(e) => r matches Err(re) && re == e && *final(profile) == *old(profile),
        },
        r is Ok <==> 0 < vstd::utf8::encode_utf8(message@).len() <= 256,
        r is Ok ==> final(profile).message_count == old(profile).message_count + 1,
        vstd::utf8::encode_utf8(message@).len() > 256 ==> r == Err::<MessageSent, EventError>(EventError::MessageTooLong)
            && *final(profile) == *old(profile),
{
    check_message(message.as_str())?;
    profile.message_count = profile.message_count + 1;
    Ok(MessageSent { sender, recipient, message, timestamp })
}

/// Awards `points` to the profile for `reason`; the event carries the new
/// total. A refused award leaves the profile as it was.
pub fn award_points(profile: &mut UserProfile, user: [u8; 32], points: u64, reason: String) -> (r: Result<PointsAwarded, EventError>)
    requires
        award_check(points, reason@) is Ok ==> old(profile).points + points <= u64::MAX,
    ensures
        match award_check(points, reason@) {
            Ok(_) => r matches Ok(ev)
                && *final(profile) == (UserProfile { points: (old(profile).points + points) as u64, ..*old(profile) })
                && ev == (PointsAwarded { user, points, reason, total_points: final(profile).points }),
            Err(e) => r matches Err(re) && re == e && *final(profile) == *old(profile),
        },
        r is Ok <==> points > 0 && vstd::utf8::encode_utf8(reason@).len() > 0,
        r is Ok ==> final(profile).points == old(profile).points + points,
{
    if !(points > 0) {
        return Err(EventError::ZeroPoints);
    }
    if !(byte_length(reason.as_str()) > 0) {
        return Err(EventError::EmptyReason);
    }
    profile.points = profile.points + points;
    Ok(PointsAwarded { user, points, reason, total_points: profile.points })
}

/// A message is accepted exactly when its UTF-8 encoding is neither empty
/// nor longer than 256 bytes, however many characters it has; a user name
/// exactly when its encoding holds 1 to 32 bytes.
pub proof fn law_limits_count_bytes(message: Seq<char>, username: Seq<char>)
    ensures
        message_check(message) is Ok <==> 0 < vstd::utf8::encode_utf8(message).len() <= 256,
        vstd::utf8::encode_utf8(message).len() > 256 ==> message_check(message) == Err::<(), EventError>(EventError::MessageTooLong),
        username_check(username) is Ok <==> 0 < vstd::utf8::encode_utf8(username).len() <= 32,
        vstd::utf8::encode_utf8(username).len() > 32 ==> username_check(username) == Err::<(), EventError>(EventError::UsernameTooLong),
{
}

/// An award is accepted exactly when it grants some points for a reason
/// that is not empty.
pub proof fn law_award_accepted(points: u64, reason: Seq<char>)
    ensures
        award_check(points, reason) is Ok <==> points > 0 && vstd::utf8::encode_utf8(reason).len() > 0,
{
}

} // verus!
