//! The resolution table, the machine-identifier vocabularies, the driver
//! override, and determinism, all through a fabricated host snapshot.

use python3_dll_a::GenerationError;
use python3_dll_a::HostContext;
use python3_dll_a::ToolchainVariant;
use python3_dll_a::text::split_whitespace_tokens;
use python3_dll_a::toolchain::driver_command_overrides;
use python3_dll_a::toolchain::find_vendor_archiver;
use python3_dll_a::toolchain::resolve_with_host;

fn quiet_host() -> HostContext {
    HostContext { driver_command: None, vendor_archiver: None }
}

#[test]
fn gnu_targets_take_mingw() {
    match resolve_with_host("x86_64", "gnu", &quiet_host()) {
        Ok(ToolchainVariant::Mingw { tool }) => {
            assert_eq!(tool, "x86_64-w64-mingw32-dlltool");
        }
        _ => panic!("expected the 64-bit MinGW dlltool"),
    }
    match resolve_with_host("x86", "gnu", &quiet_host()) {
        Ok(ToolchainVariant::Mingw { tool }) => {
            assert_eq!(tool, "i686-w64-mingw32-dlltool");
        }
        _ => panic!("expected the 32-bit MinGW dlltool"),
    }
}

#[test]
fn msvc_without_vendor_archiver_takes_llvm() {
    match resolve_with_host("x86_64", "msvc", &quiet_host()) {
        Ok(ToolchainVariant::Llvm { tool, machine }) => {
            assert_eq!(tool, "llvm-dlltool");
            assert_eq!(machine, "i386:x86-64");
        }
        _ => panic!("expected llvm-dlltool"),
    }
    match resolve_with_host("aarch64", "msvc", &quiet_host()) {
        Ok(ToolchainVariant::Llvm { tool, machine }) => {
            assert_eq!(tool, "llvm-dlltool");
            assert_eq!(machine, "arm64");
        }
        _ => panic!("expected llvm-dlltool"),
    }
}

#[test]
fn msvc_with_vendor_archiver_takes_it() {
    let host = HostContext {
        driver_command: None,
        vendor_archiver: Some(String::from("C:/tools/lib.exe")),
    };
    match resolve_with_host("x86_64", "msvc", &host) {
        Ok(ToolchainVariant::VendorLib { path, machine }) => {
            assert_eq!(path, "C:/tools/lib.exe");
            assert_eq!(machine, "X64");
        }
        _ => panic!("expected the vendor archiver"),
    }
    match resolve_with_host("x86", "msvc", &host) {
        Ok(ToolchainVariant::VendorLib { machine, .. }) => assert_eq!(machine, "X86"),
        _ => panic!("expected the vendor archiver"),
    }
    match resolve_with_host("aarch64", "msvc", &host) {
        Ok(ToolchainVariant::VendorLib { machine, .. }) => assert_eq!(machine, "ARM64"),
        _ => panic!("expected the vendor archiver"),
    }
}

#[test]
fn unknown_architecture_passes_through() {
    match resolve_with_host("riscv64", "msvc", &quiet_host()) {
        Ok(ToolchainVariant::Llvm { machine, .. }) => assert_eq!(machine, "riscv64"),
        _ => panic!("expected llvm-dlltool with pass-through machine"),
    }
}

#[test]
fn unsupported_target_is_rejected() {
    match resolve_with_host("x86_64", "linux", &quiet_host()) {
        Err(GenerationError::UnsupportedTarget { arch, env }) => {
            assert_eq!(arch, "x86_64");
            assert_eq!(env, "linux");
        }
        _ => panic!("expected UnsupportedTarget"),
    }
    let e = resolve_with_host("powerpc", "gnu", &quiet_host()).unwrap_err();
    assert_eq!(
        e.message(),
        "Unsupported target arch 'powerpc' or env ABI 'gnu'"
    );
}

#[test]
fn driver_override_wins_everywhere() {
    let host = HostContext {
        driver_command: Some(String::from("zig")),
        vendor_archiver: None,
    };
    match resolve_with_host("x86_64", "gnu", &host) {
        Ok(ToolchainVariant::Zig { program, pre_args, machine }) => {
            assert_eq!(program, "zig");
            assert!(pre_args.is_empty());
            assert_eq!(machine, "i386:x86-64");
        }
        _ => panic!("expected the driver override"),
    }
    // The override also wins for a combination the table rejects.
    match resolve_with_host("riscv64", "linux", &host) {
        Ok(ToolchainVariant::Zig { machine, .. }) => assert_eq!(machine, "riscv64"),
        _ => panic!("expected the driver override"),
    }
}

#[test]
fn driver_command_is_tokenized() {
    let host = HostContext {
        driver_command: Some(String::from("  python3  -m  ziglang ")),
        vendor_archiver: None,
    };
    match resolve_with_host("aarch64", "msvc", &host) {
        Ok(ToolchainVariant::Zig { program, pre_args, machine }) => {
            assert_eq!(program, "python3");
            assert_eq!(pre_args, vec![String::from("-m"), String::from("ziglang")]);
            assert_eq!(machine, "arm64");
        }
        _ => panic!("expected the driver override"),
    }
}

#[test]
fn blank_driver_command_falls_through() {
    let host = HostContext {
        driver_command: Some(String::from(" \t ")),
        vendor_archiver: None,
    };
    match resolve_with_host("x86_64", "gnu", &host) {
        Ok(ToolchainVariant::Mingw { tool }) => {
            assert_eq!(tool, "x86_64-w64-mingw32-dlltool");
        }
        _ => panic!("expected the table to decide"),
    }
}

#[test]
fn tokenizer_splits_on_ascii_whitespace() {
    let empty: Vec<String> = Vec::new();
    assert_eq!(split_whitespace_tokens(""), empty);
    assert_eq!(split_whitespace_tokens("  \t\n "), empty);
    assert_eq!(split_whitespace_tokens("zig"), vec![String::from("zig")]);
    assert_eq!(
        split_whitespace_tokens("a  b\tc\nd"),
        vec![
            String::from("a"),
            String::from("b"),
            String::from("c"),
            String::from("d"),
        ]
    );
}

#[test]
fn resolution_is_deterministic_on_a_fixed_host() {
    let first = resolve_with_host("x86_64", "msvc", &quiet_host());
    let second = resolve_with_host("x86_64", "msvc", &quiet_host());
    match (first, second) {
        (Ok(ToolchainVariant::Llvm { tool: t1, machine: m1 }),
         Ok(ToolchainVariant::Llvm { tool: t2, machine: m2 })) => {
            assert_eq!(t1, t2);
            assert_eq!(m1, m2);
        }
        _ => panic!("expected the same variant twice"),
    }
}

#[test]
fn driver_override_detection() {
    assert!(!driver_command_overrides(&None));
    assert!(!driver_command_overrides(&Some(String::from(""))));
    assert!(!driver_command_overrides(&Some(String::from(" \t\n"))));
    assert!(driver_command_overrides(&Some(String::from("zig"))));
    assert!(driver_command_overrides(&Some(String::from("  python3 -m ziglang"))));
}

#[test]
fn vendor_archiver_probe() {
    // Outside the closed architecture set no probe is attempted at all.
    assert!(find_vendor_archiver("riscv64").is_none());
    assert!(find_vendor_archiver("m68k").is_none());
    // This test environment carries no vendor toolchain and no vcvars-style
    // variables, so the documented architectures report "not found" too.
    assert!(find_vendor_archiver("x86_64").is_none());
    assert!(find_vendor_archiver("aarch64").is_none());
}
