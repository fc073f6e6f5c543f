//! The handshake of a connecting client and the choice of a level.
//!
//! A client puts its display name into the user data of its connection
//! request: the length of the name as eight little-endian bytes, then the
//! bytes of the name, then zeros.

use vstd::bytes::{
    lemma_auto_spec_u64_to_from_le_bytes, spec_u64_from_le_bytes, spec_u64_to_le_bytes,
    u64_from_le_bytes, u64_to_le_bytes,
};
use vstd::prelude::*;
use vstd::slice::{slice_subrange, slice_to_vec};
use vstd::utf8::{encode_utf8, encode_utf8_decode_utf8, encode_utf8_valid_utf8, valid_utf8};

verus! {

/// Size of the user data of a connection request.
pub const USER_DATA_BYTES: usize = 256;

/// The longest name, in bytes, that fits into the user data.
pub const MAX_USERNAME_LENGTH: usize = 248;

/// `String::from_utf8`, which checks that `bytes` are UTF-8 and, where they
/// are, hands them back as a string without changing them. The error is
/// turned into `None`.
#[verifier::external_body]
fn string_from_utf8(bytes: Vec<u8>) -> (text: Option<String>)
    ensures
        text is Some <==> valid_utf8(bytes@),
        text matches Some(s) ==> encode_utf8(s@) == bytes@,
{
    match String::from_utf8(bytes) {
        Ok(text) => Some(text),
        Err(_) => None,
    }
}

/// What `str::parse` makes of `text` as a `u64`: the number, or `None` where
/// `text` is not a number that fits.
pub uninterp spec fn parsed_u64(text: Seq<char>) -> Option<u64>;

/// `str::parse::<u64>`, with the error turned into `None`.
#[verifier::external_body]
fn parse_u64(text: &str) -> (number: Option<u64>)
    ensures
        number == parsed_u64(text@),
{
    match text.parse::<u64>() {
        Ok(number) => Some(number),
        Err(_) => None,
    }
}

/// The length that the user data declares for the name, cut down to what
/// fits behind the length itself.
pub open spec fn declared_len(user_data: Seq<u8>) -> int {
    let declared = spec_u64_from_le_bytes(user_data.subrange(0, 8));
    if declared > MAX_USERNAME_LENGTH {
        MAX_USERNAME_LENGTH as int
    } else {
        declared as int
    }
}

/// The bytes of the name in the user data.
pub open spec fn name_bytes(user_data: Seq<u8>) -> Seq<u8> {
    user_data.subrange(8, 8 + declared_len(user_data))
}

/// The user data that carries `name`.
pub open spec fn user_data_of(name: Seq<char>) -> Seq<u8> {
    let text = encode_utf8(name);
    spec_u64_to_le_bytes(text.len() as u64) + text + Seq::new(
        (MAX_USERNAME_LENGTH - text.len()) as nat,
        |i: int| 0u8,
    )
}

/// Reads the display name out of the user data of a connection request.
///
/// `None` where the bytes of the name are not UTF-8.
pub fn name_from_user_data(user_data: &[u8; 256]) -> (name: Option<String>)
    ensures
        name is Some <==> valid_utf8(name_bytes(user_data@)),
        name matches Some(text) ==> encode_utf8(text@) == name_bytes(user_data@),
{
    let bytes = user_data.as_slice();
    let declared = u64_from_le_bytes(slice_subrange(bytes, 0, 8));
    let len: usize = if declared > 248 {
        248
    } else {
        declared as usize
    };
    string_from_utf8(slice_to_vec(slice_subrange(bytes, 8, 8 + len)))
}

/// Why a name cannot be sent in the user data.
#[derive(Debug, Clone, Copy, PartialEq, Eq, Structural)]
pub enum UsernameError {
    /// The name is empty.
    Empty,
    /// The name takes more than [`MAX_USERNAME_LENGTH`] bytes.
    TooLong,
}

/// Checks that a name can be sent in the user data.
pub fn check_username(username: &str) -> (checked: Result<(), UsernameError>)
    ensures
        checked == if username@.len() == 0 {
            Err::<(), UsernameError>(UsernameError::Empty)
        } else if encode_utf8(username@).len() > MAX_USERNAME_LENGTH {
            Err(UsernameError::TooLong)
        } else {
            Ok(())
        },
{
    if username.is_empty() {
        Err(UsernameError::Empty)
    } else if username.as_bytes().len() > MAX_USERNAME_LENGTH {
        Err(UsernameError::TooLong)
    } else {
        Ok(())
    }
}

/// Packs a display name into the user data of a connection request.
pub fn user_data_from_name(username: &str) -> (user_data: [u8; 256])
    requires
        encode_utf8(username@).len() <= MAX_USERNAME_LENGTH,
    ensures
        user_data@ == user_data_of(username@),
{
    let mut user_data = [0u8;256];
    let text = username.as_bytes();
    let prefix = u64_to_le_bytes(text.len() as u64);
    let mut i: usize = 0;
    while i < 8
        invariant
            i <= 8,
            prefix@.len() == 8,
            forall|k: int| 0 <= k < i ==> user_data@[k] == prefix@[k],
            forall|k: int| i <= k < 256 ==> user_data@[k] == 0u8,
        decreases 8 - i,
    {
        user_data[i] = prefix[i];
        i = i + 1;
    }
    let mut j: usize = 0;
    while j < text.len()
        invariant
            j <= text@.len() <= 248,
            prefix@.len() == 8,
            forall|k: int| 0 <= k < 8 ==> user_data@[k] == prefix@[k],
            forall|k: int| 0 <= k < j ==> user_data@[8 + k] == text@[k],
            forall|k: int| 8 + j <= k < 256 ==> user_data@[k] == 0u8,
        decreases text@.len() - j,
    {
        user_data[8 + j] = text[j];
        j = j + 1;
    }
    assert(user_data@ =~= user_data_of(username@));
    user_data
}

/// A name that went into the user data comes out of it again.
pub proof fn lemma_user_data_round_trip(name: Seq<char>)
    requires
        encode_utf8(name).len() <= MAX_USERNAME_LENGTH,
    ensures
        user_data_of(name).len() == USER_DATA_BYTES,
        name_bytes(user_data_of(name)) == encode_utf8(name),
        valid_utf8(name_bytes(user_data_of(name))),
        forall|text: Seq<char>|
            encode_utf8(text) == name_bytes(user_data_of(name)) ==> text == name,
{
    let text = encode_utf8(name);
    let user_data = user_data_of(name);
    lemma_auto_spec_u64_to_from_le_bytes();
    assert(user_data.subrange(0, 8) =~= spec_u64_to_le_bytes(text.len() as u64));
    assert(name_bytes(user_data) =~= text);
    encode_utf8_valid_utf8(name);
    assert forall|other: Seq<char>| encode_utf8(other) == name_bytes(user_data) implies other
        == name by {
        encode_utf8_decode_utf8(other);
        encode_utf8_decode_utf8(name);
    }
}

/// Why an answer to the level prompt was turned down.
#[derive(Debug, Clone, Copy, PartialEq, Eq, Structural)]
pub enum LevelError {
    /// The answer is not a number.
    NotANumber,
    /// The answer is a number, but not 1, 2 or 3.
    OutOfRange,
}

/// The level that a parsed answer selects.
pub open spec fn level_of(parsed: Option<u64>) -> Result<usize, LevelError> {
    match parsed {
        None => Err(LevelError::NotANumber),
        Some(number) => if 1 <= number <= 3 {
            Ok(number as usize)
        } else {
            Err(LevelError::OutOfRange)
        },
    }
}

/// Decides on an answer to the level prompt that has been parsed: the
/// levels are 1, 2 and 3.
pub fn level_choice(parsed: Option<u64>) -> (choice: Result<usize, LevelError>)
    ensures
        choice == level_of(parsed),
{
    match parsed {
        None => Err(LevelError::NotANumber),
        Some(number) => if 1 <= number && number <= 3 {
            Ok(number as usize)
        } else {
            Err(LevelError::OutOfRange)
        },
    }
}

/// Decides on an answer to the level prompt as it was typed.
pub fn get_level(answer: &str) -> (choice: Result<usize, LevelError>)
    ensures
        choice == level_of(parsed_u64(answer@)),
{
    level_choice(parse_u64(answer))
}

} // verus!
