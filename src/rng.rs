//! Random sources: the capability every source offers, its error type, and
//! the two sources that draw from the `rand` crate's generators.
use vstd::prelude::*;

use crate::entropy::{entropy_count_of, parse_entropy_count};

verus! {

#[verifier::external_type_specification]
#[verifier::external_body]
pub struct ExIoError(std::io::Error);

#[verifier::external_type_specification]
#[verifier::external_body]
pub struct ExErrno(nix::errno::Errno);

#[verifier::external_type_specification]
#[verifier::external_body]
pub struct ExRandError(rand::Error);

#[verifier::external_type_specification]
#[verifier::external_body]
pub struct ExThreadRng(rand::rngs::ThreadRng);

#[verifier::external_type_specification]
#[verifier::external_body]
pub struct ExOsRng(rand::rngs::OsRng);

/// Why a random source could not draw or report its entropy level.
pub enum UrandomError {
    /// Reading from the random device failed.
    Io(std::io::Error),
    /// The control call that queries the device's entropy counter failed.
    Ioctl(nix::errno::Errno),
    /// The generator of the `rand` crate refused to fill the buffer.
    Rand(rand::Error),
    /// The entropy counter's content is not an unsigned 32-bit decimal.
    Malformed,
}

/// A source of random bytes whose entropy level can be observed.
pub trait Rng {
    /// Fills `bytes` completely with random bytes and returns how many were
    /// written, or fails: a partial fill is never a success.
    fn get_random(&mut self, bytes: &mut [u8]) -> (r: Result<usize, UrandomError>)
        ensures
            final(bytes)@.len() == old(bytes)@.len(),
            r is Ok ==> r->Ok_0 == old(bytes)@.len(),
    ;

    /// Returns the source's current entropy level. `counter` is the content of
    /// the system-wide entropy counter file; a source that queries a counter
    /// of its own device may ignore it.
    fn get_entropy_count(&self, counter: &[u8]) -> (r: Result<u32, UrandomError>);
}

/// The entropy level that the system-wide counter's content states, or
/// `Malformed` when that content is not a number.
pub fn counter_entropy_count(counter: &[u8]) -> (r: Result<u32, UrandomError>)
    ensures
        r is Ok <==> entropy_count_of(counter@) is Some,
        r is Ok ==> entropy_count_of(counter@) == Some(r->Ok_0),
        r is Err ==> r->Err_0 is Malformed,
{
    match parse_entropy_count(counter) {
        Some(v) => Ok(v),
        None => Err(UrandomError::Malformed),
    }
}

/// Relies on rand::thread_rng: a handle to this thread's generator, seeded by
/// the runtime.
#[verifier::external_body]
fn thread_generator() -> rand::rngs::ThreadRng {
    rand::thread_rng()
}

/// Relies on RngCore::try_fill_bytes of rand's ThreadRng: its block generator
/// fills the whole slice and always returns `Ok`.
#[verifier::external_body]
fn fill_from_thread_generator(g: &mut rand::rngs::ThreadRng, bytes: &mut [u8]) -> (r: Result<
    (),
    rand::Error,
>)
    ensures
        final(bytes)@.len() == old(bytes)@.len(),
        r is Ok,
{
    rand::RngCore::try_fill_bytes(g, bytes)
}

/// Relies on rand's OsRng, a unit value that stands for the operating
/// system's generator.
#[verifier::external_body]
fn os_generator() -> rand::rngs::OsRng {
    rand::rngs::OsRng
}

/// Relies on RngCore::try_fill_bytes of rand's OsRng: fills the slice from the
/// operating system's generator or returns its error; an empty slice is left
/// alone and succeeds without asking the system.
#[verifier::external_body]
fn fill_from_os_generator(g: &mut rand::rngs::OsRng, bytes: &mut [u8]) -> (r: Result<
    (),
    rand::Error,
>)
    ensures
        final(bytes)@.len() == old(bytes)@.len(),
        old(bytes)@.len() == 0 ==> r is Ok,
{
    rand::RngCore::try_fill_bytes(g, bytes)
}

/// The in-process generator: this thread's generator of the `rand` crate.
pub struct ThreadRngSource(rand::rngs::ThreadRng);

impl ThreadRngSource {
    pub fn new() -> Self {
        ThreadRngSource(thread_generator())
    }
}

impl Rng for ThreadRngSource {
    /// Never fails: this generator always fills the whole buffer.
    fn get_random(&mut self, bytes: &mut [u8]) -> (r: Result<usize, UrandomError>)
        ensures
            r is Ok && r->Ok_0 == old(bytes)@.len(),
    {
        match fill_from_thread_generator(&mut self.0, bytes) {
            Ok(()) => Ok(bytes.len()),
            Err(e) => Err(UrandomError::Rand(e)),
        }
    }

    fn get_entropy_count(&self, counter: &[u8]) -> (r: Result<u32, UrandomError>)
        ensures
            r is Ok <==> entropy_count_of(counter@) is Some,
            r is Ok ==> entropy_count_of(counter@) == Some(r->Ok_0),
            r is Err ==> r->Err_0 is Malformed,
    {
        counter_entropy_count(counter)
    }
}

/// The operating system's cryptographic generator, through the `rand` crate.
pub struct OsRngSource(rand::rngs::OsRng);

impl OsRngSource {
    pub fn new() -> Self {
        OsRngSource(os_generator())
    }
}

impl Rng for OsRngSource {
    /// Fails only with the operating system generator's own error, and never
    /// on an empty buffer.
    fn get_random(&mut self, bytes: &mut [u8]) -> (r: Result<usize, UrandomError>)
        ensures
            r is Err ==> r->Err_0 is Rand,
            old(bytes)@.len() == 0 ==> r is Ok,
    {
        match fill_from_os_generator(&mut self.0, bytes) {
            Ok(()) => Ok(bytes.len()),
            Err(e) => Err(UrandomError::Rand(e)),
        }
    }

    fn get_entropy_count(&self, counter: &[u8]) -> (r: Result<u32, UrandomError>)
        ensures
            r is Ok <==> entropy_count_of(counter@) is Some,
            r is Ok ==> entropy_count_of(counter@) == Some(r->Ok_0),
            r is Err ==> r->Err_0 is Malformed,
    {
        counter_entropy_count(counter)
    }
}

} // verus!
