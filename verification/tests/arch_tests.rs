use exclude_from_capture::arch::ArchitectureInfo;
use exclude_from_capture::arch::MACHINE_AMD64;
use exclude_from_capture::arch::MACHINE_I386;
use exclude_from_capture::arch::MACHINE_UNKNOWN;
use exclude_from_capture::arch::ProcessProbe;
use exclude_from_capture::arch::arch_from_process;
use exclude_from_capture::arch::dll_name_from_arch;
use exclude_from_capture::arch::mavinject_path_from_arch;

const MACHINE_ARM64: u16 = 0xAA64;

fn pair(host: u16, process: u16) -> ArchitectureInfo {
    ArchitectureInfo { host, process }
}

#[test]
fn host_32_bit_uses_the_32_bit_injector() {
    let a = pair(MACHINE_I386, MACHINE_UNKNOWN);
    assert_eq!(mavinject_path_from_arch(a), Some("C:\\Windows\\System32\\mavinject.exe"));
    assert_eq!(dll_name_from_arch(a), Some("dllsub.x86.dll"));
    let b = pair(MACHINE_I386, MACHINE_I386);
    assert_eq!(mavinject_path_from_arch(b), Some("C:\\Windows\\System32\\mavinject.exe"));
    assert_eq!(dll_name_from_arch(b), Some("dllsub.x86.dll"));
}

#[test]
fn native_64_bit_process_uses_the_64_bit_injector() {
    let a = pair(MACHINE_AMD64, MACHINE_UNKNOWN);
    assert_eq!(mavinject_path_from_arch(a), Some("C:\\Windows\\System32\\mavinject.exe"));
    assert_eq!(dll_name_from_arch(a), Some("dllsub.x64.dll"));
}

#[test]
fn emulated_32_bit_process_uses_the_wow_injector() {
    let a = pair(MACHINE_AMD64, MACHINE_I386);
    assert_eq!(mavinject_path_from_arch(a), Some("C:\\Windows\\SysWOW64\\mavinject.exe"));
    assert_eq!(dll_name_from_arch(a), Some("dllsub.x86.dll"));
}

#[test]
fn any_other_combination_is_unsupported() {
    let arm_host = pair(MACHINE_ARM64, MACHINE_UNKNOWN);
    assert_eq!(mavinject_path_from_arch(arm_host), None);
    assert_eq!(dll_name_from_arch(arm_host), None);
    let arm_on_amd64 = pair(MACHINE_AMD64, MACHINE_ARM64);
    assert_eq!(mavinject_path_from_arch(arm_on_amd64), None);
    assert_eq!(dll_name_from_arch(arm_on_amd64), None);
}

#[test]
fn unopenable_process_resolves_to_none() {
    let denied = ProcessProbe {
        opened: false,
        query_ok: false,
        native_machine: MACHINE_AMD64,
        process_machine: MACHINE_UNKNOWN,
    };
    assert_eq!(arch_from_process(&denied), None);
}

#[test]
fn failed_architecture_query_resolves_to_none() {
    let failed = ProcessProbe {
        opened: true,
        query_ok: false,
        native_machine: MACHINE_AMD64,
        process_machine: MACHINE_UNKNOWN,
    };
    assert_eq!(arch_from_process(&failed), None);
}

#[test]
fn successful_probe_yields_the_reported_pair() {
    let probe = ProcessProbe {
        opened: true,
        query_ok: true,
        native_machine: MACHINE_AMD64,
        process_machine: MACHINE_I386,
    };
    assert_eq!(arch_from_process(&probe), Some(pair(MACHINE_AMD64, MACHINE_I386)));
}
