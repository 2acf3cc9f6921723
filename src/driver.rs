use vstd::prelude::*;

use crate::error::SfmError;

verus! {

/// A serial line to the module, as the protocol needs it.
///
/// Implemented by the hardware adapter in production and by scripted fakes in tests.
/// Every failure of the line is reported as `SfmError::Esp`, carrying the
/// driver's error code.
pub trait SfmUart {
    /// Number of bytes buffered and ready to read without blocking.
    fn remaining_read(&self) -> (r: Result<usize, SfmError>)
        ensures
            r is Err ==> r->Err_0 is Esp,
    ;

    /// Discards the bytes buffered for reading.
    fn flush_read(&self) -> (r: Result<(), SfmError>)
        ensures
            r is Err ==> r->Err_0 is Esp,
    ;

    /// Discards the bytes queued for writing.
    fn flush_write(&self) -> (r: Result<(), SfmError>)
        ensures
            r is Err ==> r->Err_0 is Esp,
    ;

    /// Blocking read bounded by `timeout_ms`; `Ok(0)` means nothing arrived in time.
    fn read(&self, buf: &mut [u8], timeout_ms: u32) -> (r: Result<usize, SfmError>)
        ensures
            r is Err ==> r->Err_0 is Esp,
    ;

    /// Blocking write, which may accept fewer bytes than given.
    fn write(&self, buf: &[u8]) -> (r: Result<usize, SfmError>)
        ensures
            r is Err ==> r->Err_0 is Esp,
    ;
}

/// Suspends the calling thread between two polls of the serial line.
pub trait Delay {
    fn delay_ms(&self, ms: u32);
}

} // verus!
