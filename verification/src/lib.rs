//! Verified hardware control-plane for a 64-bit x86 bootstrap: the static
//! address-translation table builder, the descriptor-table bootstrap, and the
//! legacy chained interrupt-controller driver, together with the diagnostic
//! sink they report through.
//!
//! Everything the CPU reads is a plain bit pattern; the contracts here pin
//! those patterns down exactly. The privileged instructions that install the
//! structures, and the port accesses that reach the real controller, live
//! outside this library.

use vstd::prelude::*;

pub mod gdt;
pub mod interrupts;
pub mod memory;
pub mod numfmt;
pub mod paging;
pub mod pic8259;
pub mod vga;

verus! {

/// A place to write diagnostic text, one line at a time.
///
/// This is the single capability the control-plane consumes from the
/// surrounding platform (a serial port, a text console, or a plain buffer).
/// The view is the sequence of lines appended so far.
pub trait Plat {
    /// The lines this sink has accepted, oldest first. A sink that keeps no
    /// record may leave the default, which stands for the empty record.
    open spec fn log_view(&self) -> Seq<Seq<char>> {
        Seq::empty()
    }

    /// Appends one line; reports whether the sink accepted it.
    fn log_line(&mut self, line: &str) -> (ok: bool)
        ensures
            ok ==> final(self).log_view() == old(self).log_view().push(line@),
            !ok ==> final(self).log_view() == old(self).log_view(),
    ;
}

/// An in-memory diagnostic sink that keeps every line; it never refuses one.
pub struct LogBuffer {
    lines: Vec<String>,
}

impl LogBuffer {
    /// An empty sink.
    pub fn new() -> (r: LogBuffer)
        ensures
            r.log_view() == Seq::<Seq<char>>::empty(),
    {
        let r = LogBuffer { lines: Vec::new() };
        proof {
            assert(r.log_view() =~= Seq::<Seq<char>>::empty());
        }
        r
    }

    /// The lines collected so far.
    pub fn lines(&self) -> (r: &Vec<String>)
        ensures
            r@.len() == self.log_view().len(),
            forall|i: int| 0 <= i < r@.len() ==> r@[i]@ == self.log_view()[i],
    {
        &self.lines
    }
}

/// Why no random value could be produced.
#[derive(Clone, Copy, Debug, PartialEq, Eq, Structural)]
pub enum EntropyError {
    /// The operating system's random source failed.
    Unavailable,
}

/// Why `print_random_val` reported nothing.
#[derive(Clone, Copy, Debug, PartialEq, Eq, Structural)]
pub enum PrintError {
    /// The operating system's random source failed.
    Entropy,
    /// The diagnostic sink refused the line.
    Sink,
}

/// Declares the error type of the getrandom crate, so a wrapper can hand it
/// through.
#[verifier::external_type_specification]
#[verifier::external_body]
pub struct ExGetrandomError(getrandom::Error);

/// Relies on getrandom::fill: on success the whole buffer was filled with
/// random bytes from the operating system's preferred source, its length
/// unchanged. Nothing can be promised about the bytes themselves.
#[verifier::external_body]
fn fill_random(n: usize) -> (r: Result<Vec<u8>, getrandom::Error>)
    ensures
        r matches Ok(v) ==> v@.len() == n,
{
    let mut buf: Vec<u8> = vec![0u8; n];
    match getrandom::fill(&mut buf) {
        Ok(()) => Ok(buf),
        Err(e) => Err(e),
    }
}

/// The word spelled by eight bytes, least significant byte first — the byte
/// order of the machine this library targets.
pub fn word_from_le(bytes: &Vec<u8>) -> (r: u64)
    requires
        bytes@.len() == 8,
    ensures
        r == bytes@[0] + bytes@[1] * 0x100 + bytes@[2] * 0x1_0000 + bytes@[3] * 0x100_0000
            + bytes@[4] * 0x1_0000_0000 + bytes@[5] * 0x100_0000_0000 + bytes@[6]
            * 0x1_0000_0000_0000 + bytes@[7] * 0x100_0000_0000_0000,
{
    (bytes[0] as u64) + (bytes[1] as u64) * 0x100 + (bytes[2] as u64) * 0x1_0000 + (bytes[3] as u64)
        * 0x100_0000 + (bytes[4] as u64) * 0x1_0000_0000 + (bytes[5] as u64) * 0x100_0000_0000 + (
    bytes[6] as u64) * 0x1_0000_0000_0000 + (bytes[7] as u64) * 0x100_0000_0000_0000
}

/// Draws one machine word from the operating system's random source: the
/// assembly, by `word_from_le`, of eight drawn bytes. The bytes are random,
/// so nothing is promised about the value, and no two calls are related.
pub fn random_usize() -> (r: Result<usize, EntropyError>) {
    let bytes = match fill_random(8) {
        Ok(b) => b,
        Err(_) => {
            return Err(EntropyError::Unavailable);
        },
    };
    Ok(word_from_le(&bytes) as usize)
}

/// Writes one element of `a`, drawn at a random index, to the sink in
/// decimal. Which element is the random source's choice; on success the
/// sink gained exactly one line holding some element of `a`.
pub fn print_random_val<P: Plat>(plat: &mut P, a: &[usize]) -> (r: Result<(), PrintError>)
    requires
        a@.len() > 0,
    ensures
        r is Ok ==> exists|i: int|
            0 <= i < a@.len() && final(plat).log_view() == old(plat).log_view().push(
                crate::numfmt::spec_decimal(a@[i] as nat),
            ),
        r is Err ==> final(plat).log_view() == old(plat).log_view(),
{
    let word = match random_usize() {
        Ok(w) => w,
        Err(_) => {
            return Err(PrintError::Entropy);
        },
    };
    let idx = word % a.len();
    let val = *vstd::slice::slice_index_get(a, idx);
    let line = crate::numfmt::decimal_string(val as u64);
    if plat.log_line(line.as_str()) {
        Ok(())
    } else {
        Err(PrintError::Sink)
    }
}

impl Plat for LogBuffer {
    closed spec fn log_view(&self) -> Seq<Seq<char>> {
        Seq::new(self.lines@.len(), |i: int| self.lines@[i]@)
    }

    fn log_line(&mut self, line: &str) -> (ok: bool) {
        self.lines.push(String::from_str(line));
        proof {
            assert(self.log_view() =~= old(self).log_view().push(line@));
        }
        true
    }
}

} // verus!
