//! Confirmation tokens: unguessable identifiers drawn from a random source.
//! A token joins two random version-4 UUIDs, 244 random bits in all, and is
//! written only with lowercase hex digits and hyphens, so it is safe to embed
//! in a URL as it stands.
use vstd::prelude::*;
use vstd::string::*;

verus! {

/// Length of one UUID written hyphenated: 32 hex digits and 4 hyphens.
pub const UUID_TEXT_LENGTH: usize = 36;

/// Length of an issued token: two hyphenated UUIDs, one after the other.
pub const TOKEN_LENGTH: usize = 72;

pub open spec fn is_lower_hex_digit(c: char) -> bool {
    (0x30 <= (c as u32) && (c as u32) <= 0x39) || (0x61 <= (c as u32) && (c as u32) <= 0x66)
}

/// The hyphenated text of a version-4 UUID: hyphens at positions 8, 13, 18
/// and 23, lowercase hex digits elsewhere, and the version digit `4` at 14.
pub open spec fn is_uuid_v4_text(s: Seq<char>) -> bool {
    &&& s.len() == UUID_TEXT_LENGTH
    &&& forall|i: int|
        0 <= i < UUID_TEXT_LENGTH ==> if i == 8 || i == 13 || i == 18 || i == 23 {
            #[trigger] s[i] == '-'
        } else {
            is_lower_hex_digit(s[i])
        }
    &&& s[14] == '4'
}

/// The text of an issued token: two version-4 UUIDs, one after the other.
pub open spec fn is_token_text(s: Seq<char>) -> bool {
    &&& s.len() == TOKEN_LENGTH
    &&& is_uuid_v4_text(s.subrange(0, UUID_TEXT_LENGTH as int))
    &&& is_uuid_v4_text(s.subrange(UUID_TEXT_LENGTH as int, TOKEN_LENGTH as int))
}

/// Relies on `sqlx::types::Uuid::new_v4` (uuid's random version-4 UUID: 122
/// random bits, version nibble set to 4) and on its `to_string`, which writes
/// it in lowercase hyphenated form.
#[verifier::external_body]
fn random_uuid_v4_text() -> (r: String)
    ensures
        is_uuid_v4_text(r@),
{
    sqlx::types::Uuid::new_v4().to_string()
}

/// Issues a fresh confirmation token of two random UUIDs.
pub fn issue_token() -> (r: String)
    ensures
        is_token_text(r@),
{
    let mut token = random_uuid_v4_text();
    let second = random_uuid_v4_text();
    let ghost first_text = token@;
    token.append(second.as_str());
    assert(token@.subrange(0, UUID_TEXT_LENGTH as int) =~= first_text);
    assert(token@.subrange(UUID_TEXT_LENGTH as int, TOKEN_LENGTH as int) =~= second@);
    token
}

} // verus!
