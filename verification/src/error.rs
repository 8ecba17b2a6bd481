//! Errors reported by the Aardvark adapter: a nonzero status code.
use vstd::prelude::*;
use vstd::string::*;
use vstd::std_specs::convert::FromSpecImpl;
use vstd::std_specs::convert::FromSpec;

use vstd::utf8::{decode_utf8, valid_utf8};

use crate::decimal::{digits_value, lemma_signed_decimal_denotes, push_signed_decimal, signed_decimal};

verus! {

/// Status code of the library's own refusal: no free adapter was found.
pub const UNABLE_TO_FIND_UNUSED_DEVICE_CODE: i32 = 1;

/// A status code of the Aardvark library other than success (zero).
#[derive(Debug, Clone, Copy, PartialEq, Eq, Structural)]
pub struct AardvarkError {
    code: i32,
}

/// Result of an operation that can fail with an Aardvark status code.
pub type AardvarkResult<T> = Result<T, AardvarkError>;

impl View for AardvarkError {
    type V = i32;

    /// The status code that the error carries.
    closed spec fn view(&self) -> i32 {
        self.code
    }
}

/// The text the error displays: "Aardvark error: " and the code in decimal.
pub open spec fn error_message(code: i32) -> Seq<char> {
    seq!['A', 'a', 'r', 'd', 'v', 'a', 'r', 'k', ' ', 'e', 'r', 'r', 'o', 'r', ':', ' ']
        + signed_decimal(code as int)
}

impl AardvarkError {
    /// An error never carries the success code.
    #[verifier::type_invariant]
    spec fn nonzero(self) -> bool {
        self.code != 0
    }

    /// The error for a status code; zero is success and has no error.
    pub fn new(status: i32) -> (e: AardvarkError)
        requires
            status != 0,
        ensures
            e@ == status,
    {
        AardvarkError { code: status }
    }

    /// Same as [`AardvarkError::new`], for codes fixed by the library.
    pub fn new_from_const(status: i32) -> (e: AardvarkError)
        requires
            status != 0,
        ensures
            e@ == status,
    {
        AardvarkError { code: status }
    }

    /// The library's own error: no adapter that is not in use was found.
    pub fn unable_to_find_unused_device() -> (e: AardvarkError)
        ensures
            e@ == UNABLE_TO_FIND_UNUSED_DEVICE_CODE,
    {
        AardvarkError::new_from_const(UNABLE_TO_FIND_UNUSED_DEVICE_CODE)
    }

    /// The status code, which is never zero.
    pub fn get(&self) -> (code: i32)
        ensures
            code == self@,
            code != 0,
    {
        proof {
            use_type_invariant(self);
        }
        self.code
    }

    /// The text that the error displays.
    pub fn to_string(&self) -> (s: String)
        ensures
            s@ == error_message(self@),
    {
        proof {
            reveal_strlit("Aardvark error: ");
        }
        let mut s = String::from_str("Aardvark error: ");
        push_signed_decimal(&mut s, self.code);
        s
    }
}

/// Maps the status of an I2C read or write to a result: a negative status
/// is the error with that code; zero or a positive count of bytes moved is
/// success.
pub fn check_status(status: i32) -> (r: AardvarkResult<()>)
    ensures
        status >= 0 <==> r is Ok,
        r matches Err(e) ==> e@ == status,
{
    if status < 0 {
        Err(AardvarkError::new(status))
    } else {
        Ok(())
    }
}

/// Maps a count or handle returned by the Aardvark library to a result:
/// a negative value is the error with that code, any other value is kept.
pub fn check_count(value: i32) -> (r: AardvarkResult<i32>)
    ensures
        value >= 0 <==> r is Ok,
        r matches Ok(v) ==> v == value,
        r matches Err(e) ==> e@ == value,
{
    if value < 0 {
        Err(AardvarkError::new(value))
    } else {
        Ok(value)
    }
}

/// The text the C library gave for a status code is not UTF-8.
#[derive(Debug, Clone, Copy, PartialEq, Eq, Structural)]
pub struct InvalidStatusText;

/// Calls `std::str::from_utf8`, which accepts exactly the byte strings that
/// are valid UTF-8 and then gives the string they encode.
#[verifier::external_body]
fn str_from_utf8(bytes: &[u8]) -> (r: Option<&str>)
    ensures
        r is Some <==> valid_utf8(bytes@),
        r matches Some(s) ==> s@ == decode_utf8(bytes@),
{
    std::str::from_utf8(bytes).ok()
}

/// The text of a status code, from the bytes (without the terminating nul)
/// that the C library gave for it: the decoded string, or an error when the
/// bytes are not UTF-8.
pub fn status_string_from_bytes(bytes: &[u8]) -> (r: Result<String, InvalidStatusText>)
    ensures
        r is Ok <==> valid_utf8(bytes@),
        r matches Ok(s) ==> s@ == decode_utf8(bytes@),
{
    match str_from_utf8(bytes) {
        Some(text) => Ok(String::from_str(text)),
        None => Err(InvalidStatusText),
    }
}

impl From<AardvarkError> for i32 {
    fn from(val: AardvarkError) -> (code: i32) {
        val.get()
    }
}

impl FromSpecImpl<AardvarkError> for i32 {
    open spec fn obeys_from_spec() -> bool {
        true
    }

    open spec fn from_spec(v: AardvarkError) -> i32 {
        v@
    }
}

/// Reading the code back out of an error gives the status it was made from.
pub proof fn lemma_code_round_trip(status: i32, e: AardvarkError)
    requires
        e@ == status,
    ensures
        <i32 as FromSpec<AardvarkError>>::from_spec(e) == status,
{
}

/// The text of an error is the 16 characters "Aardvark error: " followed by
/// the code in decimal: a minus sign for a negative code, then digits that
/// denote the code's magnitude.
pub proof fn lemma_error_message_text(code: i32)
    ensures
        error_message(code).take(16) =~= seq![
            'A', 'a', 'r', 'd', 'v', 'a', 'r', 'k', ' ', 'e', 'r', 'r', 'o', 'r', ':', ' ',
        ],
        error_message(code).skip(16) =~= signed_decimal(code as int),
        code < 0 ==> error_message(code)[16] == '-' && digits_value(error_message(code).skip(17))
            == -code,
        code >= 0 ==> digits_value(error_message(code).skip(16)) == code,
{
    lemma_signed_decimal_denotes(code as int);
    assert(error_message(code).skip(16) =~= signed_decimal(code as int));
    if code < 0 {
        assert(error_message(code).skip(17) =~= signed_decimal(code as int).drop_first());
    }
}

} // verus!
