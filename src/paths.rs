//! Where a session's two recordings are written: under the application's
//! data directory, named by the session's start time in milliseconds.

use vstd::prelude::*;

verus! {

/// The decimal digit for `d`.
pub open spec fn digit_char(d: nat) -> char {
    if d == 0 {
        '0'
    } else if d == 1 {
        '1'
    } else if d == 2 {
        '2'
    } else if d == 3 {
        '3'
    } else if d == 4 {
        '4'
    } else if d == 5 {
        '5'
    } else if d == 6 {
        '6'
    } else if d == 7 {
        '7'
    } else if d == 8 {
        '8'
    } else {
        '9'
    }
}

/// `n` written in decimal, without leading zeros.
pub open spec fn decimal(n: nat) -> Seq<char>
    decreases n,
{
    if n < 10 {
        seq![digit_char(n)]
    } else {
        decimal(n / 10).push(digit_char(n % 10))
    }
}

/// The directory under the data directory that holds the recordings.
pub open spec fn waves_dir_spec() -> Seq<char> {
    "/top.linjhs.anti-rec/waves/"@
}

/// The path of one recording of the session started at `timestamp_ms`.
pub open spec fn recording_path(data_dir: Seq<char>, timestamp_ms: nat, suffix: Seq<char>) -> Seq<
    char,
> {
    data_dir + waves_dir_spec() + decimal(timestamp_ms) + suffix
}

/// The suffix of the recording of the unperturbed input.
pub open spec fn original_suffix() -> Seq<char> {
    "_ori.wav"@
}

/// The suffix of the recording of the perturbed output.
pub open spec fn perturbed_suffix() -> Seq<char> {
    "_new.wav"@
}

fn digit_str(d: u64) -> (r: &'static str)
    requires
        d < 10,
    ensures
        r@ == seq![digit_char(d as nat)],
{
    proof {
        reveal_strlit("0");
        reveal_strlit("1");
        reveal_strlit("2");
        reveal_strlit("3");
        reveal_strlit("4");
        reveal_strlit("5");
        reveal_strlit("6");
        reveal_strlit("7");
        reveal_strlit("8");
        reveal_strlit("9");
    }
    if d == 0 {
        "0"
    } else if d == 1 {
        "1"
    } else if d == 2 {
        "2"
    } else if d == 3 {
        "3"
    } else if d == 4 {
        "4"
    } else if d == 5 {
        "5"
    } else if d == 6 {
        "6"
    } else if d == 7 {
        "7"
    } else if d == 8 {
        "8"
    } else {
        "9"
    }
}

/// Appends `n` in decimal to `s`.
pub fn push_decimal(s: &mut String, n: u64)
    ensures
        final(s)@ == old(s)@ + decimal(n as nat),
    decreases n,
{
    if n >= 10 {
        push_decimal(s, n / 10);
    }
    s.append(digit_str(n % 10));
    proof {
        if n >= 10 {
            assert(old(s)@ + decimal((n / 10) as nat) + seq![digit_char((n % 10) as nat)] =~= old(
                s,
            )@ + decimal(n as nat));
        } else {
            assert(old(s)@ + seq![digit_char((n % 10) as nat)] =~= old(s)@ + decimal(n as nat));
        }
    }
}

/// The session timestamp in milliseconds from the time since the epoch in
/// whole seconds and the milliseconds past the last second; `None` when it
/// does not fit in 64 bits.
pub fn timestamp_ms(secs: u64, subsec_millis: u32) -> (r: Option<u64>)
    ensures
        secs * 1000 + subsec_millis <= u64::MAX ==> r == Some((secs * 1000 + subsec_millis) as u64),
        secs * 1000 + subsec_millis > u64::MAX ==> r is None,
{
    if secs > (u64::MAX - subsec_millis as u64) / 1000 {
        None
    } else {
        Some(secs * 1000 + subsec_millis as u64)
    }
}

fn recording_path_exec(data_dir: &str, timestamp_ms: u64, suffix: &str) -> (r: String)
    ensures
        r@ == recording_path(data_dir@, timestamp_ms as nat, suffix@),
{
    let mut path = String::from_str(data_dir);
    path.append("/top.linjhs.anti-rec/waves/");
    push_decimal(&mut path, timestamp_ms);
    path.append(suffix);
    path
}

/// The paths of the session's two recordings: the unperturbed input's
/// first, the perturbed output's second.
pub fn recording_paths(data_dir: &str, timestamp_ms: u64) -> (r: (String, String))
    ensures
        r.0@ == recording_path(data_dir@, timestamp_ms as nat, original_suffix()),
        r.1@ == recording_path(data_dir@, timestamp_ms as nat, perturbed_suffix()),
{
    (
        recording_path_exec(data_dir, timestamp_ms, "_ori.wav"),
        recording_path_exec(data_dir, timestamp_ms, "_new.wav"),
    )
}

} // verus!
