//! What a server answers to a request that it does not serve, and the text
//! form in which the answer travels.

use vstd::prelude::*;
use vstd::string::*;

verus! {

/// What a server answers to a request that it does not serve.
#[derive(Clone, Copy, Debug, PartialEq, Eq, Structural)]
pub enum ServerError {
    InternalDatabaseError,
    InvalidSessionToken,
    Forbidden,
    /// A group was made, but its maker could not be added to it.
    GroupPartiallyCreated(u64),
    InvalidArgumentSize,
    InvalidValue,
    InvalidUserId,
    LimitExceeded,
    SignatureEarly,
    SignatureExpired,
    InvalidSignature,
    UnsupportedCryptographicAlgorithm,
    AccountNotFound,
    AlreadyInGroup,
    GroupPartiallyJoined,
    InvalidGroupId,
    ActionOnSelfIsForbidden,
}

/// What stands before the group's number in the text of
/// `GroupPartiallyCreated`.
pub const GROUP_PARTIALLY_CREATED: &'static str = "GroupPartiallyCreated:";

/// The decimal digit of a number below ten.
pub open spec fn spec_digit(d: int) -> char {
    if d == 0 {
        '0'
    } else if d == 1 {
        '1'
    } else if d == 2 {
        '2'
    } else if d == 3 {
        '3'
    } else if d == 4 {
        '4'
    } else if d == 5 {
        '5'
    } else if d == 6 {
        '6'
    } else if d == 7 {
        '7'
    } else if d == 8 {
        '8'
    } else {
        '9'
    }
}

/// The number that a decimal digit stands for.
pub open spec fn spec_digit_value(c: char) -> Option<int> {
    if c == '0' {
        Some(0)
    } else if c == '1' {
        Some(1)
    } else if c == '2' {
        Some(2)
    } else if c == '3' {
        Some(3)
    } else if c == '4' {
        Some(4)
    } else if c == '5' {
        Some(5)
    } else if c == '6' {
        Some(6)
    } else if c == '7' {
        Some(7)
    } else if c == '8' {
        Some(8)
    } else if c == '9' {
        Some(9)
    } else {
        None
    }
}

/// A number in decimal digits, without leading zeros.
pub open spec fn spec_decimal(n: nat) -> Seq<char>
    decreases n,
{
    if n < 10 {
        seq![spec_digit(n as int)]
    } else {
        spec_decimal(n / 10).push(spec_digit((n % 10) as int))
    }
}

/// The number that a string of decimal digits stands for, or `None` where
/// the string holds anything else. The empty string stands for zero.
pub open spec fn spec_digits_value(s: Seq<char>) -> Option<int>
    decreases s.len(),
{
    if s.len() == 0 {
        Some(0)
    } else {
        match (spec_digits_value(s.drop_last()), spec_digit_value(s.last())) {
            (Some(value), Some(digit)) => Some(value * 10 + digit),
            _ => None,
        }
    }
}

/// The number that a text stands for: one or more decimal digits, after a
/// plus sign or without one, that stay within 64 bits.
pub open spec fn spec_parse_u64(s: Seq<char>) -> Option<u64> {
    let digits = if s.len() > 0 && s[0] == '+' {
        s.skip(1)
    } else {
        s
    };
    if digits.len() == 0 {
        None
    } else {
        match spec_digits_value(digits) {
            Some(value) => if value <= u64::MAX {
                Some(value as u64)
            } else {
                None
            },
            None => None,
        }
    }
}

/// The text of an error: its name, followed for `GroupPartiallyCreated` by a
/// colon and the group's number.
pub open spec fn spec_error_text(e: ServerError) -> Seq<char> {
    match e {
        ServerError::InternalDatabaseError => "InternalDatabaseError"@,
        ServerError::InvalidSessionToken => "InvalidSessionToken"@,
        ServerError::Forbidden => "Forbidden"@,
        ServerError::GroupPartiallyCreated(id) => GROUP_PARTIALLY_CREATED@ + spec_decimal(
            id as nat,
        ),
        ServerError::InvalidArgumentSize => "InvalidArgumentSize"@,
        ServerError::InvalidValue => "InvalidValue"@,
        ServerError::InvalidUserId => "InvalidUserId"@,
        ServerError::LimitExceeded => "LimitExceeded"@,
        ServerError::SignatureEarly => "SignatureEarly"@,
        ServerError::SignatureExpired => "SignatureExpired"@,
        ServerError::InvalidSignature => "InvalidSignature"@,
        ServerError::UnsupportedCryptographicAlgorithm => "UnsupportedCryptographicAlgorithm"@,
        ServerError::AccountNotFound => "AccountNotFound"@,
        ServerError::AlreadyInGroup => "AlreadyInGroup"@,
        ServerError::GroupPartiallyJoined => "GroupPartiallyJoined"@,
        ServerError::InvalidGroupId => "InvalidGroupId"@,
        ServerError::ActionOnSelfIsForbidden => "ActionOnSelfIsForbidden"@,
    }
}

/// The error that a text names, if any. The group's number of
/// `GroupPartiallyCreated` is read as any number is.
pub open spec fn spec_parse_error(s: Seq<char>) -> Option<ServerError> {
    if s == "InternalDatabaseError"@ {
        Some(ServerError::InternalDatabaseError)
    } else if s == "InvalidSessionToken"@ {
        Some(ServerError::InvalidSessionToken)
    } else if s == "Forbidden"@ {
        Some(ServerError::Forbidden)
    } else if s == "InvalidArgumentSize"@ {
        Some(ServerError::InvalidArgumentSize)
    } else if s == "InvalidValue"@ {
        Some(ServerError::InvalidValue)
    } else if s == "InvalidUserId"@ {
        Some(ServerError::InvalidUserId)
    } else if s == "LimitExceeded"@ {
        Some(ServerError::LimitExceeded)
    } else if s == "SignatureEarly"@ {
        Some(ServerError::SignatureEarly)
    } else if s == "SignatureExpired"@ {
        Some(ServerError::SignatureExpired)
    } else if s == "InvalidSignature"@ {
        Some(ServerError::InvalidSignature)
    } else if s == "UnsupportedCryptographicAlgorithm"@ {
        Some(ServerError::UnsupportedCryptographicAlgorithm)
    } else if s == "AccountNotFound"@ {
        Some(ServerError::AccountNotFound)
    } else if s == "AlreadyInGroup"@ {
        Some(ServerError::AlreadyInGroup)
    } else if s == "GroupPartiallyJoined"@ {
        Some(ServerError::GroupPartiallyJoined)
    } else if s == "InvalidGroupId"@ {
        Some(ServerError::InvalidGroupId)
    } else if s == "ActionOnSelfIsForbidden"@ {
        Some(ServerError::ActionOnSelfIsForbidden)
    } else if s.len() >= GROUP_PARTIALLY_CREATED@.len() && s.subrange(
        0,
        GROUP_PARTIALLY_CREATED@.len() as int,
    ) == GROUP_PARTIALLY_CREATED@ {
        match spec_parse_u64(s.skip(GROUP_PARTIALLY_CREATED@.len() as int)) {
            Some(id) => Some(ServerError::GroupPartiallyCreated(id)),
            None => None,
        }
    } else {
        None
    }
}

/// The text of one decimal digit.
fn digit_text(d: u64) -> (r: &'static str)
    requires
        d < 10,
    ensures
        r@ == seq![spec_digit(d as int)],
{
    proof {
        reveal_strlit("0");
        reveal_strlit("1");
        reveal_strlit("2");
        reveal_strlit("3");
        reveal_strlit("4");
        reveal_strlit("5");
        reveal_strlit("6");
        reveal_strlit("7");
        reveal_strlit("8");
        reveal_strlit("9");
    }
    let r: &'static str = if d == 0 {
        "0"
    } else if d == 1 {
        "1"
    } else if d == 2 {
        "2"
    } else if d == 3 {
        "3"
    } else if d == 4 {
        "4"
    } else if d == 5 {
        "5"
    } else if d == 6 {
        "6"
    } else if d == 7 {
        "7"
    } else if d == 8 {
        "8"
    } else {
        "9"
    };
    r
}

/// Appends a number in decimal digits.
pub fn push_decimal(out: &mut String, n: u64)
    ensures
        final(out)@ == old(out)@ + spec_decimal(n as nat),
    decreases n,
{
    if n >= 10 {
        push_decimal(out, n / 10);
    }
    out.append(digit_text(n % 10));
}

/// The number that a character stands for as a decimal digit.
fn digit_value(c: char) -> (r: Option<u64>)
    ensures
        match r {
            Some(d) => d < 10 && spec_digit_value(c) == Some(d as int),
            None => spec_digit_value(c) is None,
        },
{
    if c == '0' {
        Some(0)
    } else if c == '1' {
        Some(1)
    } else if c == '2' {
        Some(2)
    } else if c == '3' {
        Some(3)
    } else if c == '4' {
        Some(4)
    } else if c == '5' {
        Some(5)
    } else if c == '6' {
        Some(6)
    } else if c == '7' {
        Some(7)
    } else if c == '8' {
        Some(8)
    } else if c == '9' {
        Some(9)
    } else {
        None
    }
}

/// A string of digits stands for a number that is no smaller than what any
/// of its beginnings stands for, and a string with a beginning that stands
/// for nothing stands for nothing.
proof fn lemma_digits_grow(s: Seq<char>, k: int)
    requires
        0 <= k <= s.len(),
    ensures
        spec_digits_value(s.subrange(0, k)) is None ==> spec_digits_value(s) is None,
        spec_digits_value(s) matches Some(whole) ==> spec_digits_value(s.subrange(0, k))
            matches Some(part) && 0 <= part <= whole,
    decreases s.len() - k,
{
    if k == s.len() {
        assert(s.subrange(0, k) == s);
        lemma_digits_nonnegative(s);
    } else {
        lemma_digits_grow(s, k + 1);
        let longer = s.subrange(0, k + 1);
        assert(longer.drop_last() == s.subrange(0, k));
        lemma_digits_nonnegative(s.subrange(0, k));
    }
}

/// A string of digits stands for no negative number.
proof fn lemma_digits_nonnegative(s: Seq<char>)
    ensures
        spec_digits_value(s) matches Some(value) ==> value >= 0,
    decreases s.len(),
{
    if s.len() > 0 {
        lemma_digits_nonnegative(s.drop_last());
    }
}

/// Reads a number: one or more decimal digits, after a plus sign or without
/// one, that stay within 64 bits.
pub fn parse_u64(s: &str) -> (r: Option<u64>)
    ensures
        r == spec_parse_u64(s@),
{
    let n: usize = s.unicode_len();
    let start: usize = if n > 0 && s.get_char(0) == '+' {
        1
    } else {
        0
    };
    if start == n {
        return None;
    }
    let ghost digits = s@.skip(start as int);
    let mut value: u64 = 0;
    let mut i: usize = start;
    while i < n
        invariant
            start <= i <= n,
            start < n,
            n == s@.len(),
            digits == s@.skip(start as int),
            digits == if s@.len() > 0 && s@[0] == '+' {
                s@.skip(1)
            } else {
                s@
            },
            spec_digits_value(digits.subrange(0, i - start)) == Some(value as int),
        decreases n - i,
    {
        let ghost next = digits.subrange(0, i - start + 1);
        proof {
            assert(next.drop_last() == digits.subrange(0, i - start));
        }
        let d: u64 = match digit_value(s.get_char(i)) {
            Some(d) => d,
            None => {
                proof {
                    lemma_digits_grow(digits, i - start + 1);
                }
                return None;
            },
        };
        if value > (u64::MAX - d) / 10 {
            proof {
                lemma_digits_grow(digits, i - start + 1);
            }
            return None;
        }
        value = value * 10 + d;
        i = i + 1;
    }
    proof {
        assert(digits.subrange(0, n - start) == digits);
    }
    Some(value)
}

impl ServerError {
    /// The text of the error.
    pub fn to_text(&self) -> (r: String)
        ensures
            r@ == spec_error_text(*self),
    {
        match *self {
            ServerError::InternalDatabaseError => "InternalDatabaseError".to_owned(),
            ServerError::InvalidSessionToken => "InvalidSessionToken".to_owned(),
            ServerError::Forbidden => "Forbidden".to_owned(),
            ServerError::GroupPartiallyCreated(id) => {
                let mut out: String = GROUP_PARTIALLY_CREATED.to_owned();
                push_decimal(&mut out, id);
                out
            },
            ServerError::InvalidArgumentSize => "InvalidArgumentSize".to_owned(),
            ServerError::InvalidValue => "InvalidValue".to_owned(),
            ServerError::InvalidUserId => "InvalidUserId".to_owned(),
            ServerError::LimitExceeded => "LimitExceeded".to_owned(),
            ServerError::SignatureEarly => "SignatureEarly".to_owned(),
            ServerError::SignatureExpired => "SignatureExpired".to_owned(),
            ServerError::InvalidSignature => "InvalidSignature".to_owned(),
            ServerError::UnsupportedCryptographicAlgorithm => {
                "UnsupportedCryptographicAlgorithm".to_owned()
            },
            ServerError::AccountNotFound => "AccountNotFound".to_owned(),
            ServerError::AlreadyInGroup => "AlreadyInGroup".to_owned(),
            ServerError::GroupPartiallyJoined => "GroupPartiallyJoined".to_owned(),
            ServerError::InvalidGroupId => "InvalidGroupId".to_owned(),
            ServerError::ActionOnSelfIsForbidden => "ActionOnSelfIsForbidden".to_owned(),
        }
    }

    /// The error that a text names, if any.
    pub fn parse(s: &str) -> (r: Option<ServerError>)
        ensures
            r == spec_parse_error(s@),
    {
        let text: String = s.to_owned();
        if text == "InternalDatabaseError".to_owned() {
            Some(ServerError::InternalDatabaseError)
        } else if text == "InvalidSessionToken".to_owned() {
            Some(ServerError::InvalidSessionToken)
        } else if text == "Forbidden".to_owned() {
            Some(ServerError::Forbidden)
        } else if text == "InvalidArgumentSize".to_owned() {
            Some(ServerError::InvalidArgumentSize)
        } else if text == "InvalidValue".to_owned() {
            Some(ServerError::InvalidValue)
        } else if text == "InvalidUserId".to_owned() {
            Some(ServerError::InvalidUserId)
        } else if text == "LimitExceeded".to_owned() {
            Some(ServerError::LimitExceeded)
        } else if text == "SignatureEarly".to_owned() {
            Some(ServerError::SignatureEarly)
        } else if text == "SignatureExpired".to_owned() {
            Some(ServerError::SignatureExpired)
        } else if text == "InvalidSignature".to_owned() {
            Some(ServerError::InvalidSignature)
        } else if text == "UnsupportedCryptographicAlgorithm".to_owned() {
            Some(ServerError::UnsupportedCryptographicAlgorithm)
        } else if text == "AccountNotFound".to_owned() {
            Some(ServerError::AccountNotFound)
        } else if text == "AlreadyInGroup".to_owned() {
            Some(ServerError::AlreadyInGroup)
        } else if text == "GroupPartiallyJoined".to_owned() {
            Some(ServerError::GroupPartiallyJoined)
        } else if text == "InvalidGroupId".to_owned() {
            Some(ServerError::InvalidGroupId)
        } else if text == "ActionOnSelfIsForbidden".to_owned() {
            Some(ServerError::ActionOnSelfIsForbidden)
        } else {
            let n: usize = s.unicode_len();
            let m: usize = GROUP_PARTIALLY_CREATED.unicode_len();
            if n < m {
                return None;
            }
            let head: &str = s.substring_char(0, m);
            if head.to_owned() == GROUP_PARTIALLY_CREATED.to_owned() {
                let tail: &str = s.substring_char(m, n);
                match parse_u64(tail) {
                    Some(id) => Some(ServerError::GroupPartiallyCreated(id)),
                    None => None,
                }
            } else {
                None
            }
        }
    }
}

/// The decimal digits of a number are digits, at least one of them, and
/// stand for the number.
pub proof fn lemma_decimal_stands_for_its_number(n: nat)
    ensures
        spec_decimal(n).len() > 0,
        spec_digit_value(spec_decimal(n)[0]) is Some,
        spec_digits_value(spec_decimal(n)) == Some(n as int),
    decreases n,
{
    let text = spec_decimal(n);
    if n < 10 {
        assert(spec_digits_value(text.drop_last()) == Some(0int));
    } else {
        lemma_decimal_stands_for_its_number(n / 10);
        let head = spec_decimal(n / 10);
        assert(text.drop_last() == head);
    }
}

/// Reading a number in decimal digits gives the number back.
pub proof fn lemma_parse_inverts_decimal(n: u64)
    ensures
        spec_parse_u64(spec_decimal(n as nat)) == Some(n),
{
    lemma_decimal_stands_for_its_number(n as nat);
}

/// Reading the text of an error gives the error back.
pub proof fn lemma_parse_inverts_error_text(e: ServerError)
    ensures
        spec_parse_error(spec_error_text(e)) == Some(e),
{
    reveal_strlit("InternalDatabaseError");
    reveal_strlit("InvalidSessionToken");
    reveal_strlit("Forbidden");
    reveal_strlit("GroupPartiallyCreated:");
    reveal_strlit("InvalidArgumentSize");
    reveal_strlit("InvalidValue");
    reveal_strlit("InvalidUserId");
    reveal_strlit("LimitExceeded");
    reveal_strlit("SignatureEarly");
    reveal_strlit("SignatureExpired");
    reveal_strlit("InvalidSignature");
    reveal_strlit("UnsupportedCryptographicAlgorithm");
    reveal_strlit("AccountNotFound");
    reveal_strlit("AlreadyInGroup");
    reveal_strlit("GroupPartiallyJoined");
    reveal_strlit("InvalidGroupId");
    reveal_strlit("ActionOnSelfIsForbidden");
    let text = spec_error_text(e);
    match e {
        ServerError::GroupPartiallyCreated(id) => {
            let prefix = GROUP_PARTIALLY_CREATED@;
            let number = spec_decimal(id as nat);
            lemma_decimal_stands_for_its_number(id as nat);
            lemma_parse_inverts_decimal(id);
            assert(text.subrange(0, 22) == prefix);
            assert(text.skip(22) == number);
        },
        ServerError::InvalidArgumentSize => {
            assert(text[7] == 'A');
        },
        ServerError::LimitExceeded => {
            assert(text[0] == 'L');
        },
        ServerError::InvalidSignature => {
            assert(text[0] == 'I');
        },
        ServerError::AlreadyInGroup => {
            assert(text[0] == 'A');
        },
        ServerError::InvalidGroupId => {
            assert(text[0] == 'I');
        },
        _ => {},
    }
}

} // verus!
