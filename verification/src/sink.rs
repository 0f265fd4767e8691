//! A container of bytes as a sink that bytes are written to.

use crate::vec::Vec;
use vstd::prelude::*;

verus! {

/// `std::io::Error` of the standard library, carried through as a value
/// that nothing is known of.
#[verifier::external_type_specification]
#[verifier::external_body]
pub struct ExIoError(std::io::Error);

/// `std::io::Error::new` of the standard library, which here makes the error
/// that stands for an allocation failure. Nothing is claimed of its value.
#[verifier::external_body]
fn oom() -> std::io::Error {
    std::io::Error::new(std::io::ErrorKind::Other, "OOM")
}

impl std::io::Write for Vec<u8> {
    /// Appends all of `buf` and reports its length, or appends nothing and
    /// reports the allocation failure.
    fn write(&mut self, buf: &[u8]) -> (r: Result<usize, std::io::Error>)
        ensures
            buf@.len() == 0 ==> r is Ok,
            r matches Ok(n) ==> n == buf@.len() && final(self)@ == old(self)@ + buf@,
            r is Ok ==> final(self).capacity() == old(self).capacity() + buf@.len(),
            r is Err ==> final(self)@ == old(self)@,
            r is Err ==> old(self).capacity() <= final(self).capacity() < old(self).capacity()
                + buf@.len(),
    {
        match self.extend_from_slice(buf) {
            Ok(()) => Ok(buf.len()),
            Err(()) => Err(oom()),
        }
    }

    /// Appends all of `buf`, or appends nothing and reports the allocation
    /// failure.
    fn write_all(&mut self, buf: &[u8]) -> (r: Result<(), std::io::Error>)
        ensures
            buf@.len() == 0 ==> r is Ok,
            r is Ok ==> final(self)@ == old(self)@ + buf@,
            r is Ok ==> final(self).capacity() == old(self).capacity() + buf@.len(),
            r is Err ==> final(self)@ == old(self)@,
            r is Err ==> old(self).capacity() <= final(self).capacity() < old(self).capacity()
                + buf@.len(),
    {
        match self.extend_from_slice(buf) {
            Ok(()) => Ok(()),
            Err(()) => Err(oom()),
        }
    }

    /// Nothing is buffered outside the container, so there is nothing to do.
    fn flush(&mut self) -> (r: Result<(), std::io::Error>)
        ensures
            r is Ok,
            *final(self) == *old(self),
    {
        Ok(())
    }
}

} // verus!
