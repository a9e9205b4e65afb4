//! What the machine may ask of the process it drives.
use vstd::prelude::*;

verus! {

/// `std::io::Error`, carried through unread: the error of a failed transfer on
/// the traced process's pipes.
#[verifier::external_type_specification]
#[verifier::external_body]
pub struct ExIoError(std::io::Error);

/// `nix::errno::Errno`, carried through unread: the error number of a failed
/// system call.
#[verifier::external_type_specification]
#[verifier::external_body]
pub struct ExErrno(nix::errno::Errno);

/// How a tracer fails.
#[derive(Debug)]
pub enum TracerError {
    /// The address is not mapped in the traced process.
    InvalidInferiorAddress,
    /// The traced process's memory could not be accessed for another reason.
    InferiorMemoryAccessError,
    /// A transfer on the traced process's input or output failed.
    Io(std::io::Error),
    /// A system call failed.
    Os(nix::errno::Errno),
}

/// The channel to the traced process: bytes to its standard input, bytes from
/// its standard output.
///
/// What a call does is the implementor's to say, through `wrote` and `read`:
/// the machine's contracts speak of the tracer through these two relations and
/// promise nothing of a tracer beyond them. An implementor that does not say
/// accepts every outcome.
pub trait Tracer: Sized {
    /// Whether a call of `write_out` with `data`, on the tracer `before`, may
    /// leave the tracer `after` and return `outcome`.
    open spec fn wrote(
        before: Self,
        data: Seq<u8>,
        after: Self,
        outcome: Result<usize, TracerError>,
    ) -> bool {
        true
    }

    /// Delivers `buf` to the traced process's input and returns the number of
    /// bytes taken.
    fn write_out(&mut self, buf: &[u8]) -> (outcome: Result<usize, TracerError>)
        ensures
            Self::wrote(*old(self), buf@, *final(self), outcome),
    ;

    /// Whether a call of `read_in` on the tracer `before`, with a buffer that
    /// holds `buffer`, may leave the tracer `after` and the buffer holding
    /// `filled`, and return `outcome`.
    open spec fn read(
        before: Self,
        buffer: Seq<u8>,
        after: Self,
        filled: Seq<u8>,
        outcome: Result<usize, TracerError>,
    ) -> bool {
        true
    }

    /// Fills `buf` from the traced process's output and returns the number of
    /// bytes read, which may be fewer than `buf` holds.
    fn read_in(&mut self, buf: &mut [u8]) -> (outcome: Result<usize, TracerError>)
        ensures
            final(buf)@.len() == old(buf)@.len(),
            Self::read(*old(self), old(buf)@, *final(self), final(buf)@, outcome),
    ;
}

} // verus!
