//! Typed errors, and the way from native status codes to them.

use vstd::prelude::*;
use vstd::string::*;
use crate::native::MMAL_SUCCESS;

verus! {

/// Status code returned by a call into the native layer.
pub type MmalStatus = u32;

/// What went wrong.
#[derive(Debug, Clone, Copy, PartialEq, Eq, Structural)]
pub enum Cause {
    /// The native layer rejected a call with this status.
    Status(MmalStatus),
    /// The native layer could not allocate a buffer pool.
    CreatePool,
    /// The resources of a queue could not be reserved.
    CreateQueue,
    /// The supply queue of a pool holds no buffer. The caller may retry later.
    QueueEmpty,
    /// A stage has no port where the port kind expects one.
    GetPort,
    /// A native integer or a name denotes no value of an enumeration.
    InvalidEnumValue,
}

/// Mathematical content of an [`MmalError`].
pub struct ErrorView {
    pub cause: Cause,
    pub message: Seq<char>,
}

/// Error of every fallible operation of this crate.
#[derive(Debug)]
pub struct MmalError {
    cause: Cause,
    message: String,
}

impl View for MmalError {
    type V = ErrorView;

    closed spec fn view(&self) -> ErrorView {
        ErrorView { cause: self.cause, message: self.message@ }
    }
}

/// A result with the error replaced by its view.
pub open spec fn outcome<T>(r: Result<T, MmalError>) -> Result<T, ErrorView> {
    match r {
        Ok(t) => Ok(t),
        Err(e) => Err(e@),
    }
}

/// What a native status means for the caller: success, or an error that
/// carries the status and `message`.
pub open spec fn status_outcome(status: MmalStatus, message: Seq<char>) -> Result<(), ErrorView> {
    if status == MMAL_SUCCESS {
        Ok(())
    } else {
        Err(ErrorView { cause: Cause::Status(status), message })
    }
}

/// The character that stands for a decimal digit.
pub open spec fn digit_char(d: nat) -> char {
    if d == 0 {
        '0'
    } else if d == 1 {
        '1'
    } else if d == 2 {
        '2'
    } else if d == 3 {
        '3'
    } else if d == 4 {
        '4'
    } else if d == 5 {
        '5'
    } else if d == 6 {
        '6'
    } else if d == 7 {
        '7'
    } else if d == 8 {
        '8'
    } else {
        '9'
    }
}

/// Decimal notation of a natural number, without leading zeros.
pub open spec fn decimal(n: nat) -> Seq<char>
    decreases n,
{
    if n < 10 {
        seq![digit_char(n)]
    } else {
        decimal(n / 10).push(digit_char(n % 10))
    }
}

/// The part of an error's text that names its cause. `status_name` is the
/// native layer's name for the status and matters for `Cause::Status` only.
pub open spec fn cause_text(cause: Cause, status_name: Seq<char>) -> Seq<char> {
    match cause {
        Cause::Status(status) => "["@ + status_name + "/"@ + decimal(status as nat) + "]"@,
        Cause::CreatePool => "(create pool)"@,
        Cause::CreateQueue => "(create queue)"@,
        Cause::QueueEmpty => "(queue empty)"@,
        Cause::GetPort => "(get port)"@,
        Cause::InvalidEnumValue => "(invalid enum value"@,
    }
}

/// Full text of an error: the cause, then a colon and the message where there
/// is one.
pub open spec fn error_text(e: ErrorView, status_name: Seq<char>) -> Seq<char> {
    if e.message.len() == 0 {
        cause_text(e.cause, status_name)
    } else {
        cause_text(e.cause, status_name) + ": "@ + e.message
    }
}

fn digit_text(d: u32) -> (s: &'static str)
    requires
        d < 10,
    ensures
        s@ == seq![digit_char(d as nat)],
{
    proof {
        reveal_strlit("0");
        reveal_strlit("1");
        reveal_strlit("2");
        reveal_strlit("3");
        reveal_strlit("4");
        reveal_strlit("5");
        reveal_strlit("6");
        reveal_strlit("7");
        reveal_strlit("8");
        reveal_strlit("9");
    }
    let s = if d == 0 {
        "0"
    } else if d == 1 {
        "1"
    } else if d == 2 {
        "2"
    } else if d == 3 {
        "3"
    } else if d == 4 {
        "4"
    } else if d == 5 {
        "5"
    } else if d == 6 {
        "6"
    } else if d == 7 {
        "7"
    } else if d == 8 {
        "8"
    } else {
        "9"
    };
    assert(s@ =~= seq![digit_char(d as nat)]);
    s
}

/// Writes a number in decimal notation.
pub fn decimal_text(n: u32) -> (s: String)
    ensures
        s@ == decimal(n as nat),
    decreases n,
{
    if n < 10 {
        String::from_str(digit_text(n))
    } else {
        let mut s = decimal_text(n / 10);
        s.append(digit_text(n % 10));
        assert(s@ =~= decimal(n as nat));
        s
    }
}

impl MmalError {
    pub fn new(cause: Cause, message: String) -> (e: Self)
        ensures
            e@ == (ErrorView { cause, message: message@ }),
    {
        Self { cause, message }
    }

    pub fn with_status(status: MmalStatus, message: String) -> (e: Self)
        ensures
            e@ == (ErrorView { cause: Cause::Status(status), message: message@ }),
    {
        Self { cause: Cause::Status(status), message }
    }

    pub fn with_cause(cause: Cause) -> (e: Self)
        ensures
            e@ == (ErrorView { cause, message: Seq::empty() }),
    {
        Self { cause, message: String::new() }
    }

    pub fn cause(&self) -> (c: Cause)
        ensures
            c == self@.cause,
    {
        self.cause
    }

    pub fn message(&self) -> (m: &str)
        ensures
            m@ == self@.message,
    {
        self.message.as_str()
    }

    /// The native status that the error carries, if it carries one.
    pub fn status(&self) -> (s: Option<MmalStatus>)
        ensures
            s == (match self@.cause {
                Cause::Status(status) => Some(status),
                _ => None,
            }),
    {
        match self.cause {
            Cause::Status(status) => Some(status),
            _ => None,
        }
    }

    /// Text of the error for a human reader. `status_name` is the native
    /// layer's name for the status that the error carries; an error without a
    /// status ignores it.
    pub fn to_text(&self, status_name: &str) -> (text: String)
        ensures
            text@ == error_text(self@, status_name@),
    {
        let mut text = match self.cause {
            Cause::Status(status) => {
                let mut t = String::from_str("[");
                t.append(status_name);
                t.append("/");
                let number = decimal_text(status);
                t.append(number.as_str());
                t.append("]");
                t
            },
            Cause::CreatePool => String::from_str("(create pool)"),
            Cause::CreateQueue => String::from_str("(create queue)"),
            Cause::QueueEmpty => String::from_str("(queue empty)"),
            Cause::GetPort => String::from_str("(get port)"),
            Cause::InvalidEnumValue => String::from_str("(invalid enum value"),
        };
        assert(text@ =~= cause_text(self@.cause, status_name@));
        if self.message.as_str().unicode_len() != 0 {
            text.append(": ");
            text.append(self.message.as_str());
        }
        text
    }
}

/// Turns the status of a native call into a result: success is `Ok`, anything else an
/// error that carries the status and the message that `msg_f` writes. The
/// message is written only when it is needed.
pub fn convert_status<F: FnOnce() -> String>(status: MmalStatus, msg_f: F) -> (r: Result<
    (),
    MmalError,
>)
    requires
        status != MMAL_SUCCESS ==> call_requires(msg_f, ()),
    ensures
        status == MMAL_SUCCESS <==> r is Ok,
        r matches Err(e) ==> e@.cause == Cause::Status(status) && exists|m: String|
            #[trigger] call_ensures(msg_f, (), m) && e@.message == m@,
{
    if status == MMAL_SUCCESS {
        Ok(())
    } else {
        Err(MmalError::with_status(status, msg_f()))
    }
}

/// Turns the status of a native call into a result like [`convert_status`], with the
/// message at hand.
pub fn status_result(status: MmalStatus, message: &str) -> (r: Result<(), MmalError>)
    ensures
        outcome(r) == status_outcome(status, message@),
{
    if status == MMAL_SUCCESS {
        Ok(())
    } else {
        Err(MmalError::with_status(status, String::from_str(message)))
    }
}

/// What the teardown of a resource reports: the line to log where the
/// teardown failed and logging is switched on, nothing otherwise. A failed
/// teardown never reaches the caller in any other way.
pub fn log_deinit(result: Result<(), MmalError>, log_enabled: bool, status_name: &str) -> (line:
    Option<String>)
    ensures
        line is Some <==> result is Err && log_enabled,
        line matches Some(l) ==> l@ == "deinit error: "@ + error_text(
            result->Err_0@,
            status_name@,
        ),
{
    match result {
        Ok(_) => None,
        Err(e) => {
            if log_enabled {
                let mut l = String::from_str("deinit error: ");
                let text = e.to_text(status_name);
                l.append(text.as_str());
                Some(l)
            } else {
                None
            }
        },
    }
}

//------------------------------------------------------------------------------------------------------------------------------
/// The value of a decimal digit, if the character is one.
pub open spec fn digit_of(c: char) -> Option<nat> {
    if c == '0' {
        Some(0)
    } else if c == '1' {
        Some(1)
    } else if c == '2' {
        Some(2)
    } else if c == '3' {
        Some(3)
    } else if c == '4' {
        Some(4)
    } else if c == '5' {
        Some(5)
    } else if c == '6' {
        Some(6)
    } else if c == '7' {
        Some(7)
    } else if c == '8' {
        Some(8)
    } else if c == '9' {
        Some(9)
    } else {
        None
    }
}

/// The number that a string of decimal digits denotes. The empty string and
/// a string with any other character in it denote none.
pub open spec fn number(s: Seq<char>) -> Option<nat>
    decreases s.len(),
{
    if s.len() == 0 {
        None
    } else {
        match digit_of(s.last()) {
            None => None,
            Some(d) => if s.len() == 1 {
                Some(d)
            } else {
                match number(s.drop_last()) {
                    Some(v) => Some(v * 10 + d),
                    None => None,
                }
            },
        }
    }
}

/// The byte that a string denotes in decimal notation: digits that may
/// follow one plus sign, and that give a number up to 255.
pub open spec fn parsed_u8(s: Seq<char>) -> Option<u8> {
    let digits = if s.len() > 0 && s[0] == '+' {
        s.drop_first()
    } else {
        s
    };
    match number(digits) {
        Some(v) => if v <= 255 {
            Some(v as u8)
        } else {
            None
        },
        None => None,
    }
}

/// Whether a setting switches the logging of failed teardowns on. No setting
/// leaves it off. A setting that is a byte in decimal notation switches it on
/// unless the byte is zero; any other setting switches it on if it is `true`
/// or `yes`.
pub open spec fn log_switch(value: Option<Seq<char>>) -> bool {
    match value {
        None => false,
        Some(s) => match parsed_u8(s) {
            Some(w) => w != 0,
            None => s == "true"@ || s == "yes"@,
        },
    }
}

/// A string denotes a number only if each of its characters is a digit.
pub proof fn lemma_number_digits(s: Seq<char>, j: int)
    requires
        number(s) is Some,
        0 <= j < s.len(),
    ensures
        digit_of(s[j]) is Some,
    decreases s.len(),
{
    if j == s.len() - 1 {
    } else {
        assert(s.drop_last()[j] == s[j]);
        lemma_number_digits(s.drop_last(), j);
    }
}

/// The beginning of a string that denotes a number denotes a number that is
/// not greater.
pub proof fn lemma_number_prefix(s: Seq<char>, k: int)
    requires
        number(s) is Some,
        0 < k <= s.len(),
    ensures
        number(s.take(k)) is Some,
        number(s.take(k))->Some_0 <= number(s)->Some_0,
    decreases s.len(),
{
    if k == s.len() {
        assert(s.take(k) =~= s);
    } else {
        lemma_number_prefix(s.drop_last(), k);
        assert(s.drop_last().take(k) =~= s.take(k));
    }
}

/// The number of a string with one more digit behind it.
pub proof fn lemma_number_push(s: Seq<char>, c: char)
    requires
        s.len() > 0,
    ensures
        number(s.push(c)) == (match (number(s), digit_of(c)) {
            (Some(v), Some(d)) => Some(v * 10 + d),
            _ => None,
        }),
{
    assert(s.push(c).drop_last() =~= s);
    assert(s.push(c).last() == c);
}

fn digit(c: char) -> (d: Option<u32>)
    ensures
        d is Some <==> digit_of(c) is Some,
        d matches Some(v) ==> digit_of(c) == Some(v as nat) && v <= 9,
{
    if c == '0' {
        Some(0)
    } else if c == '1' {
        Some(1)
    } else if c == '2' {
        Some(2)
    } else if c == '3' {
        Some(3)
    } else if c == '4' {
        Some(4)
    } else if c == '5' {
        Some(5)
    } else if c == '6' {
        Some(6)
    } else if c == '7' {
        Some(7)
    } else if c == '8' {
        Some(8)
    } else if c == '9' {
        Some(9)
    } else {
        None
    }
}

/// Reads a byte in decimal notation.
pub fn parse_u8(s: &str) -> (r: Option<u8>)
    ensures
        r == parsed_u8(s@),
{
    let n = s.unicode_len();
    let start: usize = if n > 0 && s.get_char(0) == '+' {
        1
    } else {
        0
    };
    let ghost digits = s@.skip(start as int);
    assert(digits =~= (if s@.len() > 0 && s@[0] == '+' {
        s@.drop_first()
    } else {
        s@
    }));
    if start == n {
        return None;
    }
    let mut acc: u32 = 0;
    let mut i: usize = start;
    while i < n
        invariant
            n == s@.len(),
            start <= i <= n,
            start < n,
            digits == s@.skip(start as int),
            digits == (if s@.len() > 0 && s@[0] == '+' {
                s@.drop_first()
            } else {
                s@
            }),
            acc <= 255,
            i > start ==> number(digits.take(i - start)) == Some(acc as nat),
            i == start ==> acc == 0,
        decreases n - i,
    {
        let c = s.get_char(i);
        let ghost k = i - start;
        assert(digits[k] == c);
        let d = match digit(c) {
            Some(d) => d,
            None => {
                proof {
                    if number(digits) is Some {
                        lemma_number_digits(digits, k);
                    }
                }
                return None;
            },
        };
        let next: u32 = acc * 10 + d;
        proof {
            assert(digits.take(k + 1) =~= digits.take(k).push(c));
            if k == 0 {
                assert(digits.take(1).len() == 1);
                assert(digits.take(1).last() == c);
            } else {
                lemma_number_push(digits.take(k), c);
            }
            assert(number(digits.take(k + 1)) == Some(next as nat));
        }
        if next > 255 {
            proof {
                if number(digits) is Some {
                    lemma_number_prefix(digits, k + 1);
                }
            }
            return None;
        }
        acc = next;
        i = i + 1;
    }
    assert(digits.take(n - start) =~= digits);
    Some(acc as u8)
}

/// Whether the setting of the environment switches the logging of failed
/// teardowns on: computes [`log_switch`]. The caller reads the setting, once,
/// and keeps the answer.
pub fn err_log_eligible(value: Option<&str>) -> (r: bool)
    ensures
        r == log_switch(
            match value {
                Some(s) => Some(s@),
                None => None,
            },
        ),
{
    match value {
        None => false,
        Some(s) => match parse_u8(s) {
            Some(w) => w != 0,
            None => {
                let text = s.to_owned();
                text == "true".to_owned() || text == "yes".to_owned()
            },
        },
    }
}

} // verus!
