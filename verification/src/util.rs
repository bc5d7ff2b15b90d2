//! Small helpers around the player: clock text, the names of the built-in
//! playlists, and draining a channel.

use std::sync::mpsc::Receiver;
use vstd::prelude::*;
use vstd::string::{StringExecFns, StringSliceAdditionalSpecFns};
use vstd::utf8::encode_utf8_decode_utf8;

verus! {

/// The name of the playlist that holds every track.
pub const ALL_PLAYLIST_NAME: &'static str = "All";

/// The name of the playlist that holds the tracks that no other playlist holds.
pub const ALL_UNUSED_PLAYLIST_NAME: &'static str = "All Unused";

/// The character of a decimal digit.
pub open spec fn digit(d: nat) -> char {
    if d == 0 {
        '0'
    } else if d == 1 {
        '1'
    } else if d == 2 {
        '2'
    } else if d == 3 {
        '3'
    } else if d == 4 {
        '4'
    } else if d == 5 {
        '5'
    } else if d == 6 {
        '6'
    } else if d == 7 {
        '7'
    } else if d == 8 {
        '8'
    } else {
        '9'
    }
}

/// A number in decimal, without leading zeros.
pub open spec fn decimal(n: nat) -> Seq<char>
    decreases n,
{
    if n < 10 {
        seq![digit(n)]
    } else {
        decimal(n / 10).push(digit(n % 10))
    }
}

/// A number below 100 in two decimal digits.
pub open spec fn two_digits(n: nat) -> Seq<char> {
    seq![digit(n / 10), digit(n % 10)]
}

/// A time in milliseconds as clock text: `h:mm:ss` from one hour on, `m:ss`
/// below, the milliseconds beyond the last full second left out.
pub open spec fn clock_text(ms: u64) -> Seq<char> {
    let hours = (ms / 3_600_000) as nat;
    let minutes = ((ms % 3_600_000) / 60_000) as nat;
    let seconds = ((ms % 60_000) / 1000) as nat;
    if ms >= 3_600_000 {
        decimal(hours) + seq![':'] + two_digits(minutes) + seq![':'] + two_digits(seconds)
    } else {
        decimal(minutes) + seq![':'] + two_digits(seconds)
    }
}

/// The text of one decimal digit.
fn digit_str(d: u64) -> (text: &'static str)
    requires
        d < 10,
    ensures
        text@ == seq![digit(d as nat)],
{
    proof {
        reveal_strlit("0");
        reveal_strlit("1");
        reveal_strlit("2");
        reveal_strlit("3");
        reveal_strlit("4");
        reveal_strlit("5");
        reveal_strlit("6");
        reveal_strlit("7");
        reveal_strlit("8");
        reveal_strlit("9");
    }
    let text: &'static str = if d == 0 {
        "0"
    } else if d == 1 {
        "1"
    } else if d == 2 {
        "2"
    } else if d == 3 {
        "3"
    } else if d == 4 {
        "4"
    } else if d == 5 {
        "5"
    } else if d == 6 {
        "6"
    } else if d == 7 {
        "7"
    } else if d == 8 {
        "8"
    } else {
        "9"
    };
    assert(text@ =~= seq![digit(d as nat)]);
    text
}

/// Appends a number in decimal.
fn push_decimal(text: &mut String, n: u64)
    ensures
        final(text)@ == old(text)@ + decimal(n as nat),
    decreases n,
{
    if n >= 10 {
        push_decimal(text, n / 10);
    }
    text.append(digit_str(n % 10));
    assert(text@ =~= old(text)@ + decimal(n as nat));
}

/// Appends a number below 100 in two digits.
fn push_two_digits(text: &mut String, n: u64)
    requires
        n < 100,
    ensures
        final(text)@ == old(text)@ + two_digits(n as nat),
{
    text.append(digit_str(n / 10));
    text.append(digit_str(n % 10));
    assert(text@ =~= old(text)@ + two_digits(n as nat));
}

/// Writes a time in milliseconds as clock text.
pub fn ms_to_string(milli_seconds: u64) -> (text: String)
    ensures
        text@ == clock_text(milli_seconds),
{
    let hour: u64 = 3_600_000;
    let minute: u64 = 60_000;
    let second: u64 = 1000;
    proof {
        reveal_strlit(":");
    }
    let mut result = String::new();
    if milli_seconds >= hour {
        push_decimal(&mut result, milli_seconds / hour);
        result.append(":");
        push_two_digits(&mut result, (milli_seconds % hour) / minute);
    } else {
        push_decimal(&mut result, milli_seconds / minute);
    }
    result.append(":");
    push_two_digits(&mut result, (milli_seconds % minute) / second);
    assert(result@ =~= clock_text(milli_seconds));
    result
}

/// Whether two texts hold the same characters.
fn same_text(left: &str, right: &str) -> (same: bool)
    ensures
        same == (left@ == right@),
{
    let a = left.as_bytes();
    let b = right.as_bytes();
    proof {
        encode_utf8_decode_utf8(left@);
        encode_utf8_decode_utf8(right@);
    }
    if a.len() != b.len() {
        return false;
    }
    let mut i: usize = 0;
    while i < a.len()
        invariant
            i <= a.len(),
            a.len() == b.len(),
            a@ == left.spec_bytes(),
            b@ == right.spec_bytes(),
            forall|j: int| 0 <= j < i ==> a@[j] == b@[j],
        decreases a.len() - i,
    {
        if a[i] != b[i] {
            return false;
        }
        i += 1;
    }
    assert(a@ =~= b@);
    true
}

/// Whether a playlist of this name is one of the two built-in ones.
pub fn is_default_playlist(playlist_name: &str) -> (default: bool)
    ensures
        default == (playlist_name@ == ALL_PLAYLIST_NAME@ || playlist_name@
            == ALL_UNUSED_PLAYLIST_NAME@),
{
    same_text(playlist_name, ALL_PLAYLIST_NAME) || same_text(
        playlist_name,
        ALL_UNUSED_PLAYLIST_NAME,
    )
}

/// `std::sync::mpsc::Receiver`, the receiving end of a channel. What it holds
/// depends on the senders, so nothing is claimed of it.
#[verifier::external_type_specification]
#[verifier::external_body]
#[verifier::reject_recursive_types(T)]
pub struct ExReceiver<T>(Receiver<T>);

/// `Receiver::try_recv`: the next value that is waiting in the channel, if
/// there is one. An empty channel and a closed one both give `None`.
#[verifier::external_body]
fn try_receive<T>(receiver: &Receiver<T>) -> (value: Option<T>) {
    match receiver.try_recv() {
        Ok(value) => Some(value),
        Err(_) => None,
    }
}

/// Puts what came off the channel at the end of what was collected before,
/// and says whether there may be more.
pub fn collect_received<T>(collected: &mut Vec<T>, received: Option<T>) -> (more: bool)
    ensures
        more == received is Some,
        final(collected)@ == match received {
            Some(value) => old(collected)@.push(value),
            None => old(collected)@,
        },
{
    match received {
        Some(value) => {
            collected.push(value);
            true
        },
        None => false,
    }
}

/// Takes every value that is waiting in the channel, in the order in which
/// they were sent, without blocking.
pub fn receive_all<T>(receiver: &Receiver<T>) -> (result: Vec<T>) {
    let mut result: Vec<T> = Vec::new();
    let mut more: bool = true;
    while more && result.len() < usize::MAX
        invariant
            result.len() <= usize::MAX,
        decreases usize::MAX - result.len() + if more { 1int } else { 0int },
    {
        let received = try_receive(receiver);
        more = collect_received(&mut result, received);
    }
    result
}

} // verus!
