//! Instruction-set architecture of the host and of a target process, and the
//! selection of the privileged injector binary and companion module.
//!
//! Machine identities use the image-file machine codes that the process query
//! reports. A process code of `MACHINE_UNKNOWN` means the process runs
//! natively, under no emulation layer, so its effective architecture is the
//! host's.

use vstd::prelude::*;

verus! {

/// Machine code for "no emulation: same as the host".
pub const MACHINE_UNKNOWN: u16 = 0;
/// Machine code for 32-bit x86.
pub const MACHINE_I386: u16 = 0x014c;
/// Machine code for 64-bit x86.
pub const MACHINE_AMD64: u16 = 0x8664;

/// The (host, target-process) instruction-set pair for a process.
#[derive(Clone, Copy, PartialEq, Eq, Structural, Debug)]
pub struct ArchitectureInfo {
    /// Machine code of the host system.
    pub host: u16,
    /// Machine code the target process runs under; `MACHINE_UNKNOWN` means
    /// native, that is, the same as the host.
    pub process: u16,
}

/// Everything the architecture resolver learns from the operating system
/// about one process: whether the process could be opened with query rights,
/// whether the architecture query succeeded, and the two machine codes it
/// reported.
#[derive(Clone, Copy, PartialEq, Eq, Structural, Debug)]
pub struct ProcessProbe {
    /// The process could be opened with least-privilege query access.
    pub opened: bool,
    /// The emulation/architecture query on the opened process succeeded.
    pub query_ok: bool,
    /// Machine code of the host, as the query reported it.
    pub native_machine: u16,
    /// Machine code the process runs under, as the query reported it.
    pub process_machine: u16,
}

/// The architecture pair a probe yields: nothing unless both the open and
/// the query succeeded.
pub open spec fn spec_arch_from_process(q: ProcessProbe) -> Option<ArchitectureInfo> {
    if q.opened && q.query_ok {
        Some(ArchitectureInfo { host: q.native_machine, process: q.process_machine })
    } else {
        None
    }
}

/// Turns the outcome of the process-architecture query into an architecture
/// pair. A process that cannot be opened, or whose query errors, yields no
/// value rather than an error: the caller treats it as "hide failed".
pub fn arch_from_process(q: &ProcessProbe) -> (r: Option<ArchitectureInfo>)
    ensures
        r == spec_arch_from_process(*q),
{
    if q.opened && q.query_ok {
        Some(ArchitectureInfo { host: q.native_machine, process: q.process_machine })
    } else {
        None
    }
}

/// Which privileged injector binary serves an architecture pair:
/// a 32-bit host always uses the 32-bit injector; a 64-bit host uses the
/// 64-bit one for a native process and the 32-bit (WOW) one for a 32-bit
/// process; every other pair is unsupported.
pub open spec fn spec_mavinject_path(a: ArchitectureInfo) -> Option<Seq<char>> {
    if a.host == MACHINE_I386 || (a.host == MACHINE_AMD64 && a.process == MACHINE_UNKNOWN) {
        Some("C:\\Windows\\System32\\mavinject.exe"@)
    } else if a.host == MACHINE_AMD64 && a.process == MACHINE_I386 {
        Some("C:\\Windows\\SysWOW64\\mavinject.exe"@)
    } else {
        None
    }
}

/// Path of the privileged injector for an architecture pair, or nothing when
/// the pair is unsupported.
pub fn mavinject_path_from_arch(arch: ArchitectureInfo) -> (r: Option<&'static str>)
    ensures
        r is Some <==> spec_mavinject_path(arch) is Some,
        r matches Some(p) ==> spec_mavinject_path(arch) == Some(p@),
{
    if arch.host == MACHINE_I386 || (arch.host == MACHINE_AMD64 && arch.process == MACHINE_UNKNOWN) {
        Some("C:\\Windows\\System32\\mavinject.exe")
    } else if arch.host == MACHINE_AMD64 && arch.process == MACHINE_I386 {
        Some("C:\\Windows\\SysWOW64\\mavinject.exe")
    } else {
        None
    }
}

/// The architecture the target process effectively runs: its own code when
/// known, else the host's.
pub open spec fn spec_effective_arch(a: ArchitectureInfo) -> u16 {
    if a.process == MACHINE_UNKNOWN {
        a.host
    } else {
        a.process
    }
}

/// Which companion module matches an architecture pair: the 32-bit or 64-bit
/// module by the effective target architecture; every other effective
/// architecture is unsupported.
pub open spec fn spec_dll_name(a: ArchitectureInfo) -> Option<Seq<char>> {
    if spec_effective_arch(a) == MACHINE_I386 {
        Some("dllsub.x86.dll"@)
    } else if spec_effective_arch(a) == MACHINE_AMD64 {
        Some("dllsub.x64.dll"@)
    } else {
        None
    }
}

/// Name of the companion module to inject for an architecture pair, or
/// nothing when the effective target architecture is unsupported.
pub fn dll_name_from_arch(arch: ArchitectureInfo) -> (r: Option<&'static str>)
    ensures
        r is Some <==> spec_dll_name(arch) is Some,
        r matches Some(n) ==> spec_dll_name(arch) == Some(n@),
{
    let effective: u16 = if arch.process == MACHINE_UNKNOWN {
        arch.host
    } else {
        arch.process
    };
    if effective == MACHINE_I386 {
        Some("dllsub.x86.dll")
    } else if effective == MACHINE_AMD64 {
        Some("dllsub.x64.dll")
    } else {
        None
    }
}

/// An architecture pair is supported exactly when both an injector and a
/// companion module exist for it.
pub open spec fn spec_arch_supported(a: ArchitectureInfo) -> bool {
    spec_mavinject_path(a) is Some && spec_dll_name(a) is Some
}

/// Injector and module selection is a function of the architecture pair
/// alone: each of the four supported combinations yields the documented
/// injector and module, and a pair whose host is neither 32-bit nor 64-bit
/// x86, or whose 64-bit host carries an unexpected process code, is
/// unsupported.
pub proof fn lemma_selection_cases(a: ArchitectureInfo)
    ensures
        a.host == MACHINE_I386 && a.process == MACHINE_UNKNOWN ==> {
            &&& spec_mavinject_path(a) == Some("C:\\Windows\\System32\\mavinject.exe"@)
            &&& spec_dll_name(a) == Some("dllsub.x86.dll"@)
        },
        a.host == MACHINE_I386 && a.process == MACHINE_I386 ==> {
            &&& spec_mavinject_path(a) == Some("C:\\Windows\\System32\\mavinject.exe"@)
            &&& spec_dll_name(a) == Some("dllsub.x86.dll"@)
        },
        a.host == MACHINE_AMD64 && a.process == MACHINE_UNKNOWN ==> {
            &&& spec_mavinject_path(a) == Some("C:\\Windows\\System32\\mavinject.exe"@)
            &&& spec_dll_name(a) == Some("dllsub.x64.dll"@)
        },
        a.host == MACHINE_AMD64 && a.process == MACHINE_I386 ==> {
            &&& spec_mavinject_path(a) == Some("C:\\Windows\\SysWOW64\\mavinject.exe"@)
            &&& spec_dll_name(a) == Some("dllsub.x86.dll"@)
        },
        a.host != MACHINE_I386 && a.host != MACHINE_AMD64 ==> !spec_arch_supported(a),
        a.host == MACHINE_AMD64 && a.process != MACHINE_UNKNOWN && a.process != MACHINE_I386
            ==> !spec_arch_supported(a),
{
}

} // verus!
