//! Turning the return value of a system call into a `Result`.

use vstd::prelude::*;

verus! {

#[verifier::external_type_specification]
#[verifier::external_body]
pub struct ExIoError(std::io::Error);

/// `std::io::Error::last_os_error`: the error that the calling thread's
/// `errno` names. It depends on the thread's state, so nothing is stated of it.
#[verifier::external_body]
fn last_os_error() -> std::io::Error {
    std::io::Error::last_os_error()
}

/// A negative return value is a failure, reported with the thread's last OS
/// error; any other value is passed through.
pub fn ok_or_get_error(result: i32) -> (r: std::result::Result<i32, std::io::Error>)
    ensures
        r is Err <==> result < 0,
        r matches Ok(v) ==> v == result,
{
    if result < 0 {
        Err(last_os_error())
    } else {
        Ok(result)
    }
}

/// The number of reports that a successful `epoll_wait` returned, as a count.
pub fn ready_count(result: i32) -> (r: std::result::Result<usize, std::io::Error>)
    ensures
        r is Err <==> result < 0,
        r matches Ok(n) ==> n == result,
{
    match ok_or_get_error(result) {
        Ok(n) => Ok(n as usize),
        Err(e) => Err(e),
    }
}

} // verus!
