//! The computations behind the upload handler: the object key an inbound
//! request body is stored under — the clock reading, in decimal, with a
//! fixed suffix — and the two bodies the handler answers with. Reading the
//! clock is the one outside call; writing the body to the object store is
//! the caller's.

use vstd::prelude::*;
use vstd::string::StringExecFns;

verus! {

/// The decimal digit character for a value below ten.
pub open spec fn digit_char(d: int) -> char {
    if d == 0 {
        '0'
    } else if d == 1 {
        '1'
    } else if d == 2 {
        '2'
    } else if d == 3 {
        '3'
    } else if d == 4 {
        '4'
    } else if d == 5 {
        '5'
    } else if d == 6 {
        '6'
    } else if d == 7 {
        '7'
    } else if d == 8 {
        '8'
    } else {
        '9'
    }
}

/// The decimal digits of a non-negative number, most significant first,
/// with no leading zero except for the number zero itself.
pub open spec fn dec_digits(n: nat) -> Seq<char>
    decreases n,
{
    if n < 10 {
        seq![digit_char(n as int)]
    } else {
        dec_digits(n / 10).push(digit_char((n % 10) as int))
    }
}

/// The decimal rendering of an integer: a minus sign before the digits of
/// the magnitude when negative, the digits alone otherwise.
pub open spec fn dec_int(n: int) -> Seq<char> {
    if n < 0 {
        seq!['-'] + dec_digits((-n) as nat)
    } else {
        dec_digits(n as nat)
    }
}

/// The object key for an upload at a given clock reading.
pub open spec fn object_key_spec(ts: int) -> Seq<char> {
    dec_int(ts) + ".txt"@
}

/// The single decimal digit as a string.
fn digit_str(d: u64) -> (s: &'static str)
    requires
        d < 10,
    ensures
        s@ == seq![digit_char(d as int)],
{
    let s: &'static str = match d {
        0 => "0",
        1 => "1",
        2 => "2",
        3 => "3",
        4 => "4",
        5 => "5",
        6 => "6",
        7 => "7",
        8 => "8",
        _ => "9",
    };
    proof {
        reveal_strlit("0");
        reveal_strlit("1");
        reveal_strlit("2");
        reveal_strlit("3");
        reveal_strlit("4");
        reveal_strlit("5");
        reveal_strlit("6");
        reveal_strlit("7");
        reveal_strlit("8");
        reveal_strlit("9");
        assert(s@ =~= seq![digit_char(d as int)]);
    }
    s
}

/// Appends the decimal digits of `n`, most significant first.
fn push_dec_digits(s: &mut String, n: u64)
    ensures
        final(s)@ == old(s)@ + dec_digits(n as nat),
    decreases n,
{
    if n < 10 {
        s.append(digit_str(n));
        proof {
            assert(s@ =~= old(s)@ + dec_digits(n as nat));
        }
    } else {
        push_dec_digits(s, n / 10);
        s.append(digit_str(n % 10));
        proof {
            assert(s@ =~= old(s)@ + dec_digits(n as nat));
        }
    }
}

/// The decimal rendering of a signed number.
pub fn format_i64(n: i64) -> (s: String)
    ensures
        s@ == dec_int(n as int),
{
    let mut s = String::new();
    if n < 0 {
        s.append("-");
        let mag: u64 = if n == i64::MIN {
            9223372036854775808u64
        } else {
            (-n) as u64
        };
        proof {
            reveal_strlit("-");
            assert(mag as nat == (-(n as int)) as nat);
        }
        push_dec_digits(&mut s, mag);
        proof {
            assert(s@ =~= dec_int(n as int));
        }
    } else {
        push_dec_digits(&mut s, n as u64);
        proof {
            assert(s@ =~= dec_int(n as int));
        }
    }
    s
}

/// The object key for an upload at the given clock reading.
pub fn object_key(ts: i64) -> (s: String)
    ensures
        s@ == object_key_spec(ts as int),
{
    let mut s = format_i64(ts);
    s.append(".txt");
    s
}

/// Relies on `time::OffsetDateTime::now_utc` and `unix_timestamp`: the
/// system clock, in whole seconds since the Unix epoch. Nothing is promised
/// of the value; it is whatever the machine's clock reads.
#[verifier::external_body]
pub(crate) fn now_unix() -> i64 {
    time::OffsetDateTime::now_utc().unix_timestamp()
}

/// The object key for an upload happening now: the key of some clock
/// reading; which one is the clock's choice.
pub fn fresh_object_key() -> (s: String)
    ensures
        exists|ts: int|
            i64::MIN as int <= ts <= i64::MAX as int && s@ == #[trigger] object_key_spec(ts),
{
    let ts = now_unix();
    let ghost t = ts as int;
    let s = object_key(ts);
    proof {
        assert(i64::MIN as int <= t <= i64::MAX as int && s@ == object_key_spec(t));
    }
    s
}

/// The acknowledgement for a stored upload, naming the key it went under.
pub open spec fn success_message_spec(key: Seq<char>) -> Seq<char> {
    "the lambda has successfully stored your request in S3 with the name '"@ + key + "'"@
}

/// Builds the acknowledgement for an upload stored under `key`.
pub fn upload_success_message(key: &str) -> (m: String)
    ensures
        m@ == success_message_spec(key@),
{
    let mut m = String::from_str(
        "the lambda has successfully stored your request in S3 with the name '",
    );
    m.append(key);
    m.append("'");
    m
}

/// The fixed body reported when the upload could not be stored.
pub fn upload_failure_message() -> (m: String)
    ensures
        m@ == "The lambda encountered an error while uploading the file to S3."@,
{
    String::from_str("The lambda encountered an error while uploading the file to S3.")
}

} // verus!
