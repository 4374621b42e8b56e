//! The architecture syscall table: a pure mapping from the raw numeric
//! identifier found in the syscall-number register to a symbolic name,
//! one table per supported instruction-set architecture.

use vstd::prelude::*;
use crate::textfmt;

verus! {

/// The instruction-set architectures whose syscall tables are known.
#[derive(Clone, Copy, PartialEq, Eq, Structural, Debug)]
pub enum Arch {
    X86_64,
    Aarch64,
}

/// The symbolic name the x86-64 syscall table gives to `id`, if it knows
/// one.
pub uninterp spec fn x86_64_syscall_name(id: u64) -> Option<Seq<char>>;

/// The symbolic name the 64-bit ARM syscall table gives to `id`, if it
/// knows one.
pub uninterp spec fn aarch64_syscall_name(id: u64) -> Option<Seq<char>>;

/// Relies on `syscalls::x86_64::Sysno::new` and `Sysno::name`: together a
/// lookup in a fixed generated table, so the result depends on the
/// identifier alone.
#[verifier::external_body]
fn x86_64_name_lookup(id: u64) -> (r: Option<String>)
    ensures
        match r {
            Some(s) => x86_64_syscall_name(id) == Some(s@),
            None => x86_64_syscall_name(id) is None,
        },
{
    match syscalls::x86_64::Sysno::new(id as usize) {
        Some(s) => Some(s.name().to_string()),
        None => None,
    }
}

/// Relies on `syscalls::aarch64::Sysno::new` and `Sysno::name`: together a
/// lookup in a fixed generated table, so the result depends on the
/// identifier alone.
#[verifier::external_body]
fn aarch64_name_lookup(id: u64) -> (r: Option<String>)
    ensures
        match r {
            Some(s) => aarch64_syscall_name(id) == Some(s@),
            None => aarch64_syscall_name(id) is None,
        },
{
    match syscalls::aarch64::Sysno::new(id as usize) {
        Some(s) => Some(s.name().to_string()),
        None => None,
    }
}

/// Relies on `syscalls::x86_64::Sysno::exit_group`, whose value in the
/// generated x86-64 table is 231.
#[verifier::external_body]
fn x86_64_exit_group() -> (r: u64)
    ensures
        r == 231,
{
    syscalls::x86_64::Sysno::exit_group as u64
}

/// Relies on `syscalls::aarch64::Sysno::exit_group`, whose value in the
/// generated 64-bit ARM table is 94.
#[verifier::external_body]
fn aarch64_exit_group() -> (r: u64)
    ensures
        r == 94,
{
    syscalls::aarch64::Sysno::exit_group as u64
}

/// The name the table of `arch` gives to `id`, or the numeral of `id`
/// itself where the table knows no name.
pub open spec fn decode_spec(arch: Arch, id: u64) -> Seq<char> {
    match arch {
        Arch::X86_64 => match x86_64_syscall_name(id) {
            Some(n) => n,
            None => textfmt::dec_digits(id as nat),
        },
        Arch::Aarch64 => match aarch64_syscall_name(id) {
            Some(n) => n,
            None => textfmt::dec_digits(id as nat),
        },
    }
}

/// Maps a raw numeric syscall identifier to its symbolic name for `arch`.
/// An identifier the table does not know decodes to its own decimal
/// numeral: decoding never fails and never aborts a session.
pub fn decode(arch: Arch, id: u64) -> (name: String)
    ensures
        name@ == decode_spec(arch, id),
{
    let looked: Option<String> = match arch {
        Arch::X86_64 => x86_64_name_lookup(id),
        Arch::Aarch64 => aarch64_name_lookup(id),
    };
    match looked {
        Some(s) => s,
        None => textfmt::u64_string(id),
    }
}

/// The identifier `arch` gives the process-termination call: the syscall
/// that ends the whole process rather than a single thread.
pub open spec fn termination_id_spec(arch: Arch) -> u64 {
    match arch {
        Arch::X86_64 => 231,
        Arch::Aarch64 => 94,
    }
}

/// The numeric identifier of the process-termination call for `arch`,
/// taken from the same table that `decode` consults.
pub fn termination_syscall_id(arch: Arch) -> (id: u64)
    ensures
        id == termination_id_spec(arch),
{
    match arch {
        Arch::X86_64 => x86_64_exit_group(),
        Arch::Aarch64 => aarch64_exit_group(),
    }
}

} // verus!
