//! The CPU a firmware image targets, and the magic value that names it.

use crate::error::BootHeaderError;
use vstd::prelude::*;

verus! {

/// Indicates which CPU the firmware is for.
#[derive(Debug, Clone, Copy, PartialEq, Eq, Structural)]
pub enum Cpu {
    /// The primary core, magic `BFNP`.
    Cpu0,
    /// The application core, magic `BFAP`.
    Cpu1,
}

/// The magic bytes `BFNP`, in file order.
pub open spec fn cpu0_magic() -> Seq<u8> {
    seq![0x42u8, 0x46u8, 0x4eu8, 0x50u8]
}

/// The magic bytes `BFAP`, in file order.
pub open spec fn cpu1_magic() -> Seq<u8> {
    seq![0x42u8, 0x46u8, 0x41u8, 0x50u8]
}

/// The magic value a header for `cpu` starts with.
pub open spec fn magic_of(cpu: Cpu) -> Seq<u8> {
    match cpu {
        Cpu::Cpu0 => cpu0_magic(),
        Cpu::Cpu1 => cpu1_magic(),
    }
}

/// The CPU whose magic value `m` is, if any.
pub open spec fn cpu_of_magic(m: Seq<u8>) -> Option<Cpu> {
    if m == cpu0_magic() {
        Some(Cpu::Cpu0)
    } else if m == cpu1_magic() {
        Some(Cpu::Cpu1)
    } else {
        None
    }
}

/// Reading a CPU's magic value gives that CPU back.
pub proof fn lemma_cpu_of_magic_of(cpu: Cpu)
    ensures
        cpu_of_magic(magic_of(cpu)) == Some(cpu),
{
    assert(cpu0_magic() != cpu1_magic()) by {
        assert(cpu0_magic()[2] != cpu1_magic()[2]);
    }
}

/// A magic value that names a CPU is exactly that CPU's magic value, so no
/// two magic values name the same CPU.
pub proof fn lemma_magic_of_cpu_of(m: Seq<u8>)
    requires
        cpu_of_magic(m) is Some,
    ensures
        magic_of(cpu_of_magic(m)->Some_0) == m,
{
}

impl Cpu {
    /// Converts the CPU to its magic header value, in file order.
    pub fn to_magic_bytes(self) -> (r: [u8; 4])
        ensures
            r@ == magic_of(self),
    {
        let r = match self {
            Cpu::Cpu0 => [0x42u8, 0x46u8, 0x4eu8, 0x50u8],
            Cpu::Cpu1 => [0x42u8, 0x46u8, 0x41u8, 0x50u8],
        };
        assert(r@ =~= magic_of(self));
        r
    }

    /// The CPU that the magic header value `magic` names.
    pub fn from_magic_bytes(magic: [u8; 4]) -> (r: Result<Cpu, BootHeaderError>)
        ensures
            cpu_of_magic(magic@) is Some ==> r == Ok::<Cpu, BootHeaderError>(
                cpu_of_magic(magic@)->Some_0,
            ),
            cpu_of_magic(magic@) is None ==> r == Err::<Cpu, BootHeaderError>(
                BootHeaderError::InvalidMagicHeader(magic),
            ),
    {
        let cpu0 = Cpu::Cpu0.to_magic_bytes();
        let cpu1 = Cpu::Cpu1.to_magic_bytes();
        if bytes4_eq(&magic, &cpu0) {
            Ok(Cpu::Cpu0)
        } else if bytes4_eq(&magic, &cpu1) {
            Ok(Cpu::Cpu1)
        } else {
            Err(BootHeaderError::InvalidMagicHeader(magic))
        }
    }
}

/// Whether two four-byte values hold the same bytes.
pub(crate) fn bytes4_eq(a: &[u8; 4], b: &[u8; 4]) -> (r: bool)
    ensures
        r == (a@ == b@),
{
    let r = a[0] == b[0] && a[1] == b[1] && a[2] == b[2] && a[3] == b[3];
    if r {
        assert(a@ =~= b@);
    }
    r
}

impl Default for Cpu {
    fn default() -> (r: Cpu)
        ensures
            r == Cpu::Cpu0,
    {
        Cpu::Cpu0
    }
}

} // verus!
