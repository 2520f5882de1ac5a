//! Validated contact names and phone numbers.

use validator::ValidateLength;
use vstd::prelude::*;
use vstd::string::StringExecFns;

verus! {

/// The shortest contact name that is accepted, in characters.
pub const CONTACT_NAME_MIN: u64 = 2;

/// The longest contact name that is accepted, in characters.
pub const CONTACT_NAME_MAX: u64 = 128;

/// The shortest phone number that is accepted, in characters.
pub const PHONE_NUMBER_MIN: u64 = 10;

/// The longest phone number that is accepted, in characters.
pub const PHONE_NUMBER_MAX: u64 = 12;

/// Whether `raw` can be a contact name: between 2 and 128 characters, whatever
/// the characters are.
pub open spec fn valid_contact_name(raw: Seq<char>) -> bool {
    CONTACT_NAME_MIN <= raw.len() <= CONTACT_NAME_MAX
}

/// Whether `raw` can be a phone number: between 10 and 12 characters, spaces
/// and punctuation counted like digits.
pub open spec fn valid_phone_number(raw: Seq<char>) -> bool {
    PHONE_NUMBER_MIN <= raw.len() <= PHONE_NUMBER_MAX
}

/// What `CallRequestContactName::parse` answers to a rejected name.
pub open spec fn contact_name_rejection(raw: Seq<char>) -> Seq<char> {
    "Invalid contact name: "@ + raw
}

/// What `CallRequestPhoneNumber::parse` answers to a rejected number.
pub open spec fn phone_number_rejection(raw: Seq<char>) -> Seq<char> {
    "Invalid phone number: "@ + raw
}

/// `validator::ValidateLength::validate_length` on a `String`, with both bounds
/// given and no exact length asked for. The crate counts the string's
/// characters (`chars().count()`), not its bytes, and accepts the count when it
/// is neither below `min` nor above `max`.
#[verifier::external_body]
fn length_within(s: &String, min: u64, max: u64) -> (ok: bool)
    ensures
        ok == (min <= s@.len() <= max),
{
    s.validate_length(Some(min), Some(max), None)
}

/// An incoming call request that needs to be processed.
#[derive(Debug)]
pub struct NewCallRequest {
    pub phone_number: CallRequestPhoneNumber,
    pub contact_name: CallRequestContactName,
}

/// A call request as the store keeps it: what was asked for, the identifier
/// it was given and the moment it was taken in. Nothing changes it afterwards.
#[derive(Debug)]
pub struct CallRequest {
    /// The identifier, as the 128-bit number of a UUID.
    pub id: u128,
    pub contact_name: CallRequestContactName,
    pub phone_number: CallRequestPhoneNumber,
    /// Microseconds since 1970-01-01 00:00:00 UTC.
    pub created_at: i64,
}

/// The name of the person to call back.
#[derive(Debug)]
pub struct CallRequestContactName(String);

/// The number to call back.
#[derive(Debug)]
pub struct CallRequestPhoneNumber(String);

impl View for CallRequestContactName {
    type V = Seq<char>;

    closed spec fn view(&self) -> Seq<char> {
        self.0@
    }
}

impl View for CallRequestPhoneNumber {
    type V = Seq<char>;

    closed spec fn view(&self) -> Seq<char> {
        self.0@
    }
}

impl AsRef<str> for CallRequestPhoneNumber {
    /// The number as it was submitted, 10 to 12 characters long.
    fn as_ref(&self) -> (text: &str)
        ensures
            text@ == self@,
            valid_phone_number(text@),
    {
        proof {
            use_type_invariant(self);
        }
        self.0.as_str()
    }
}

impl AsRef<str> for CallRequestContactName {
    /// The name as it was submitted, 2 to 128 characters long.
    fn as_ref(&self) -> (text: &str)
        ensures
            text@ == self@,
            valid_contact_name(text@),
    {
        proof {
            use_type_invariant(self);
        }
        self.0.as_str()
    }
}

impl CallRequest {
    /// The row for `request`, under the identifier and the creation time given.
    pub fn new(request: NewCallRequest, id: u128, created_at: i64) -> (row: CallRequest)
        ensures
            row.id == id,
            row.contact_name == request.contact_name,
            row.phone_number == request.phone_number,
            row.created_at == created_at,
    {
        CallRequest {
            id,
            contact_name: request.contact_name,
            phone_number: request.phone_number,
            created_at,
        }
    }
}

impl CallRequestContactName {
    #[verifier::type_invariant]
    spec fn within_bounds(self) -> bool {
        valid_contact_name(self.0@)
    }

    /// Accepts `s` as a contact name exactly when it has 2 to 128 characters.
    /// The text is kept as it came; a rejection quotes it.
    pub fn parse(s: String) -> (r: Result<CallRequestContactName, String>)
        ensures
            r is Ok <==> valid_contact_name(s@),
            r matches Ok(name) ==> name@ == s@,
            r matches Err(reason) ==> reason@ == contact_name_rejection(s@),
    {
        if length_within(&s, CONTACT_NAME_MIN, CONTACT_NAME_MAX) {
            Ok(Self(s))
        } else {
            Err(String::from_str("Invalid contact name: ").concat(s.as_str()))
        }
    }
}

impl CallRequestPhoneNumber {
    #[verifier::type_invariant]
    spec fn within_bounds(self) -> bool {
        valid_phone_number(self.0@)
    }

    /// Accepts `s` as a phone number exactly when it has 10 to 12 characters.
    /// The text is kept as it came; a rejection quotes it.
    pub fn parse(s: String) -> (r: Result<CallRequestPhoneNumber, String>)
        ensures
            r is Ok <==> valid_phone_number(s@),
            r matches Ok(number) ==> number@ == s@,
            r matches Err(reason) ==> reason@ == phone_number_rejection(s@),
    {
        if length_within(&s, PHONE_NUMBER_MIN, PHONE_NUMBER_MAX) {
            Ok(Self(s))
        } else {
            Err(String::from_str("Invalid phone number: ").concat(s.as_str()))
        }
    }
}

} // verus!
