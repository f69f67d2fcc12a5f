use vstd::prelude::*;
use vstd::string::StringExecFns;

verus! {

/// The character of decimal digit `d`.
pub open spec fn digit_char(d: nat) -> char {
    if d == 0 { '0' } else if d == 1 { '1' } else if d == 2 { '2' } else if d == 3 { '3' }
    else if d == 4 { '4' } else if d == 5 { '5' } else if d == 6 { '6' } else if d == 7 { '7' }
    else if d == 8 { '8' } else { '9' }
}

/// The decimal representation of `n`, without leading zeros.
pub open spec fn decimal(n: nat) -> Seq<char>
    decreases n,
{
    if n < 10 {
        seq![digit_char(n)]
    } else {
        decimal(n / 10) + seq![digit_char(n % 10)]
    }
}

/// The one-character text of decimal digit `d`.
fn digit_str(d: u128) -> (r: &'static str)
    requires
        d < 10,
    ensures
        r@ == seq![digit_char(d as nat)],
{
    if d == 0 { proof { reveal_strlit("0"); } "0" }
    else if d == 1 { proof { reveal_strlit("1"); } "1" }
    else if d == 2 { proof { reveal_strlit("2"); } "2" }
    else if d == 3 { proof { reveal_strlit("3"); } "3" }
    else if d == 4 { proof { reveal_strlit("4"); } "4" }
    else if d == 5 { proof { reveal_strlit("5"); } "5" }
    else if d == 6 { proof { reveal_strlit("6"); } "6" }
    else if d == 7 { proof { reveal_strlit("7"); } "7" }
    else if d == 8 { proof { reveal_strlit("8"); } "8" }
    else { proof { reveal_strlit("9"); } "9" }
}

/// The decimal representation of `n`.
pub fn decimal_string(n: u128) -> (r: String)
    ensures
        r@ == decimal(n as nat),
    decreases n,
{
    if n < 10 {
        digit_str(n).to_owned()
    } else {
        let mut s = decimal_string(n / 10);
        s.append(digit_str(n % 10));
        s
    }
}

/// `a` followed by `b`.
pub fn join(a: &str, b: &str) -> (r: String)
    ensures
        r@ == a@ + b@,
{
    let mut s = a.to_owned();
    s.append(b);
    s
}

/// Text of an elapsed time of `secs` whole seconds, as the status bar and the
/// unsaved-changes dialog show it.
pub open spec fn relative_time_text(secs: nat) -> Seq<char> {
    if secs < 3 {
        "just now"@
    } else if secs < 60 {
        decimal(secs) + " seconds ago"@
    } else if secs < 120 {
        "1 minute ago"@
    } else if secs < 3600 {
        decimal(secs / 60) + " minutes ago"@
    } else if secs < 7200 {
        "1 hour ago"@
    } else if secs < 86400 {
        decimal(secs / 3600) + " hours ago"@
    } else if secs < 172800 {
        "1 day ago"@
    } else {
        decimal(secs / 86400) + " days ago"@
    }
}

/// Text of an elapsed time of `secs` whole seconds.
pub fn format_relative_secs(secs: u64) -> (r: String)
    ensures
        r@ == relative_time_text(secs as nat),
{
    if secs < 3 {
        "just now".to_owned()
    } else if secs < 60 {
        let mut s = decimal_string(secs as u128);
        s.append(" seconds ago");
        s
    } else if secs < 120 {
        "1 minute ago".to_owned()
    } else if secs < 3600 {
        let mut s = decimal_string((secs / 60) as u128);
        s.append(" minutes ago");
        s
    } else if secs < 7200 {
        "1 hour ago".to_owned()
    } else if secs < 86400 {
        let mut s = decimal_string((secs / 3600) as u128);
        s.append(" hours ago");
        s
    } else if secs < 172800 {
        "1 day ago".to_owned()
    } else {
        let mut s = decimal_string((secs / 86400) as u128);
        s.append(" days ago");
        s
    }
}


/// The whole seconds of `d`, as `Duration::as_secs` returns them.
pub uninterp spec fn seconds_of(d: std::time::Duration) -> u64;

/// Calls `std::time::Duration::as_secs`; the contract names its result, the whole
/// seconds of the duration, which depend on the duration alone.
#[verifier::external_body]
fn duration_secs(d: &std::time::Duration) -> (r: u64)
    ensures
        r == seconds_of(*d),
{
    d.as_secs()
}

/// Human-readable relative time of an elapsed duration ("just now", "5 seconds ago", ...).
pub fn format_relative_time(elapsed: std::time::Duration) -> (r: String)
    ensures
        r@ == relative_time_text(seconds_of(elapsed) as nat),
{
    format_relative_secs(duration_secs(&elapsed))
}

} // verus!
