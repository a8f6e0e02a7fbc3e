//! Numbers and errors as text.
use crate::error::{from_ov_error, OpenVinoError};
use crate::text::{decimal, push_decimal};
use vstd::prelude::*;

verus! {

/// A number is appended in decimal: a number below ten as its digit, a larger one as the number without
/// its last digit, followed by that digit.
pub proof fn law_decimal(n: nat)
    ensures
        n == 0 ==> decimal(n) == seq!['0'],
        n == 1 ==> decimal(n) == seq!['1'],
        n == 2 ==> decimal(n) == seq!['2'],
        n == 3 ==> decimal(n) == seq!['3'],
        n == 4 ==> decimal(n) == seq!['4'],
        n == 5 ==> decimal(n) == seq!['5'],
        n == 6 ==> decimal(n) == seq!['6'],
        n == 7 ==> decimal(n) == seq!['7'],
        n == 8 ==> decimal(n) == seq!['8'],
        n == 9 ==> decimal(n) == seq!['9'],
        n >= 10 ==> decimal(n) == decimal(n / 10) + decimal(n % 10),
{
    assert(decimal(n % 10) =~= seq![decimal(n % 10)[0]]);
    if n >= 10 {
        assert(decimal(n) =~= decimal(n / 10) + decimal(n % 10));
    }
}

/// Appending a number leaves the text before it as it is.
pub proof fn law_decimal_appended(out: &mut String, n: usize)
    requires
        call_ensures(push_decimal, (out, n), ()),
    ensures
        final(out)@ == old(out)@ + decimal(n as nat),
{
}

/// A message is shown as it stands, a failure of the runtime with its origin in front.
pub proof fn law_errors_shown(s: String, shown: String)
    ensures
        call_ensures(OpenVinoError::display, (&OpenVinoError::Message(s),), shown) ==> shown@ == s@,
        call_ensures(OpenVinoError::display, (&OpenVinoError::Runtime(s),), shown) ==> shown@
            == "OpenVINO runtime error: "@ + s@,
{
}

/// A text becomes a message, as it stands.
pub proof fn law_texts_become_messages(owned: String, borrowed: &str, e: OpenVinoError)
    ensures
        call_ensures(<OpenVinoError as From<String>>::from, (owned,), e) ==> e
            == OpenVinoError::Message(owned),
        call_ensures(<OpenVinoError as From<&str>>::from, (borrowed,), e) ==> (
        e matches OpenVinoError::Message(s) && s@ == borrowed@),
{
}

/// An error of the runtime is kept as a failure of the runtime, with the text that it displays.
pub proof fn law_runtime_errors_kept<T: std::fmt::Display>(cause: T, e: OpenVinoError)
    requires
        call_ensures(from_ov_error, (cause,), e),
    ensures
        e matches OpenVinoError::Runtime(s) && vstd::string::to_string_from_display_ensures(&cause, s),
{
}

} // verus!
