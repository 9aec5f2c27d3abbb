//! Numbers and encodings of the Unix process interface.
use vstd::prelude::*;

verus! {

/// `libc::WIFEXITED`: the low seven bits of a wait status are zero when the process
/// returned.
pub assume_specification[ libc::WIFEXITED ](status: i32) -> (exited: bool)
    ensures
        exited == (status & 0x7f == 0),
;

/// `libc::WEXITSTATUS`: the exit code is the second byte of a wait status.
pub assume_specification[ libc::WEXITSTATUS ](status: i32) -> (code: i32)
    ensures
        code == (status >> 8) & 0xff,
;

/// `libc::WIFSIGNALED`: the low seven bits of a wait status are neither zero nor all
/// ones when a signal ended the process.
pub assume_specification[ libc::WIFSIGNALED ](status: i32) -> (signaled: bool)
    ensures
        signaled == (status & 0x7f != 0 && status & 0x7f != 0x7f),
;

/// `libc::WTERMSIG`: the signal is the low seven bits of a wait status.
pub assume_specification[ libc::WTERMSIG ](status: i32) -> (signal: i32)
    ensures
        signal == status & 0x7f,
;

/// Error and signal numbers of the platform.
#[derive(Clone, Copy, Debug, PartialEq, Eq, Structural)]
pub struct Codes {
    pub einval: i32,
    pub eio: i32,
    pub ecanceled: i32,
    pub eintr: i32,
    pub echild: i32,
    pub sigkill: i32,
    pub sigterm: i32,
}

/// The constants `EINVAL`, `EIO`, `ECANCELED`, `EINTR`, `ECHILD`, `SIGKILL` and `SIGTERM` of
/// `libc`.
/// Their values depend on the platform, so nothing is claimed of them.
#[verifier::external_body]
pub(crate) fn native_codes() -> Codes {
    Codes {
        einval: libc::EINVAL,
        eio: libc::EIO,
        ecanceled: libc::ECANCELED,
        eintr: libc::EINTR,
        echild: libc::ECHILD,
        sigkill: libc::SIGKILL,
        sigterm: libc::SIGTERM,
    }
}

/// The exit code of a process that returned, the negated signal of one that a signal
/// ended, and the least integer for any other status.
pub open spec fn wait_code(status: i32) -> i32 {
    let signal = status & 0x7f;
    if signal == 0 {
        (status >> 8) & 0xff
    } else if signal != 0x7f {
        (-signal) as i32
    } else {
        i32::MIN
    }
}

/// Decodes a wait status.
pub fn decode_wait_status(status: i32) -> (code: i32)
    ensures
        code == wait_code(status),
{
    assert(0 <= status & 0x7f <= 0x7f) by (bit_vector);
    if libc::WIFEXITED(status) {
        libc::WEXITSTATUS(status)
    } else if libc::WIFSIGNALED(status) {
        -libc::WTERMSIG(status)
    } else {
        i32::MIN
    }
}

/// Returning, being ended by a signal and everything else are told apart by the sign
/// of the code: exit codes are at most 255, signals negative and above the least
/// integer.
pub proof fn wait_codes_are_disjoint(status: i32)
    ensures
        status & 0x7f == 0 ==> 0 <= wait_code(status) <= 255,
        status & 0x7f != 0 && status & 0x7f != 0x7f ==> -127 < wait_code(status) < 0,
        status & 0x7f == 0x7f ==> wait_code(status) == i32::MIN,
{
    assert(0 <= status & 0x7f <= 0x7f) by (bit_vector);
    assert(0 <= (status >> 8) & 0xff <= 255) by (bit_vector);
}

/// The end of a child survives the encoding of wait statuses: an exit code in the second byte
/// and a signal in the low bits, with or without the mark of a core dump, mean what they were.
pub proof fn wait_codes_keep_the_end(number: i32, status: i32)
    ensures
        0 <= number <= 255 && status == number * 256 ==> wait_code(status) == number,
        1 <= number <= 126 && (status == number || status == number + 128) ==> wait_code(status)
            == -number,
{
    if 0 <= number <= 255 && status == number * 256 {
        assert(status & 0x7f == 0 && (status >> 8) & 0xff == number) by (bit_vector)
            requires
                0 <= number <= 255,
                status == number * 256,
        ;
    }
    if 1 <= number <= 126 && (status == number || status == number + 128) {
        assert(status & 0x7f == number) by (bit_vector)
            requires
                1 <= number <= 126,
                status == number || status == number + 128,
        ;
    }
}

/// Whatever a decoding of a wait status gives, it is the exit code or the negated signal that
/// the status was made of.
pub proof fn wait_statuses_round_trip(number: i32, status: i32, code: i32)
    requires
        call_ensures(decode_wait_status, (status,), code),
    ensures
        0 <= number <= 255 && status == number * 256 ==> code == number,
        1 <= number <= 126 && (status == number || status == number + 128) ==> code == -number,
{
    wait_codes_keep_the_end(number, status);
}

/// Different ends of a child are told apart: two children whose statuses decode to the same
/// code returned the same exit code, or were ended by the same signal.
pub proof fn different_ends_are_told_apart(first: i32, second: i32, code: i32)
    requires
        0 <= first <= 0xffff,
        0 <= second <= 0xffff,
        code != i32::MIN,
        call_ensures(decode_wait_status, (first,), code),
        call_ensures(decode_wait_status, (second,), code),
    ensures
        first % 128 == second % 128,
        first % 128 == 0 ==> first / 256 == second / 256 && code == first / 256,
        first % 128 != 0 ==> code == -(first % 128),
{
    assert(first & 0x7f == first % 128 && (first >> 8) & 0xff == first / 256) by (bit_vector)
        requires
            0 <= first <= 0xffff,
    ;
    assert(second & 0x7f == second % 128 && (second >> 8) & 0xff == second / 256) by (bit_vector)
        requires
            0 <= second <= 0xffff,
    ;
}

} // verus!
