//! Whole generation plans: file names, paths and exact command lines per
//! target, error precedence, and idempotence, all from fabricated host
//! snapshots.

use python3_dll_a::GenerationError;
use python3_dll_a::HostContext;
use python3_dll_a::ImportLibraryGenerator;
use python3_dll_a::command::command_text;
use python3_dll_a::generator::interpret_tool_exit;
use python3_dll_a::generator::invocation_failure;

fn quiet_host() -> HostContext {
    HostContext { driver_command: None, vendor_archiver: None }
}

#[test]
fn gnu64_plan_is_the_documented_command() {
    let generator = ImportLibraryGenerator::new("x86_64", "gnu");
    let plan = generator.plan("target/python3-dll", &quiet_host()).unwrap();
    assert_eq!(plan.def_file_name, "python3.def");
    assert_eq!(plan.def_path, "target/python3-dll/python3.def");
    assert_eq!(plan.implib_path, "target/python3-dll/python3.dll.a");
    assert_eq!(plan.command.program, "x86_64-w64-mingw32-dlltool");
    assert_eq!(
        plan.command.args,
        vec![
            String::from("--input-def"),
            String::from("target/python3-dll/python3.def"),
            String::from("--output-lib"),
            String::from("target/python3-dll/python3.dll.a"),
        ]
    );
}

#[test]
fn gnu64_versioned_plans() {
    for minor in 7..=11u8 {
        let mut generator = ImportLibraryGenerator::new("x86_64", "gnu");
        generator.version(Some((3, minor)));
        let plan = generator.plan("out", &quiet_host()).unwrap();
        assert_eq!(plan.def_file_name, format!("python3{}.def", minor));
        assert_eq!(plan.def_path, format!("out/python3{}.def", minor));
        assert_eq!(plan.implib_path, format!("out/python3{}.dll.a", minor));
        assert_eq!(plan.command.program, "x86_64-w64-mingw32-dlltool");
    }
}

#[test]
fn gnu32_plan_takes_the_32_bit_tool() {
    let generator = ImportLibraryGenerator::new("x86", "gnu");
    let plan = generator.plan("out", &quiet_host()).unwrap();
    assert_eq!(plan.command.program, "i686-w64-mingw32-dlltool");
    assert_eq!(plan.implib_path, "out/python3.dll.a");
}

#[test]
fn msvc_plans_without_vendor_archiver_take_llvm() {
    for (arch, machine) in [
        ("x86_64", "i386:x86-64"),
        ("x86", "i386"),
        ("aarch64", "arm64"),
    ] {
        let generator = ImportLibraryGenerator::new(arch, "msvc");
        let plan = generator.plan("out", &quiet_host()).unwrap();
        assert_eq!(plan.def_path, "out/python3.def");
        assert_eq!(plan.implib_path, "out/python3.lib");
        assert_eq!(plan.command.program, "llvm-dlltool");
        assert_eq!(
            plan.command.args,
            vec![
                String::from("-m"),
                String::from(machine),
                String::from("-d"),
                String::from("out/python3.def"),
                String::from("-l"),
                String::from("out/python3.lib"),
            ]
        );
    }
}

#[test]
fn msvc_plan_with_vendor_archiver_takes_its_layout() {
    let host = HostContext {
        driver_command: None,
        vendor_archiver: Some(String::from("C:/tools/lib.exe")),
    };
    let generator = ImportLibraryGenerator::new("aarch64", "msvc");
    let plan = generator.plan("out", &host).unwrap();
    assert_eq!(plan.command.program, "C:/tools/lib.exe");
    assert_eq!(
        plan.command.args,
        vec![
            String::from("/MACHINE:ARM64"),
            String::from("/DEF:out/python3.def"),
            String::from("/OUT:out/python3.lib"),
        ]
    );
}

#[test]
fn msvc_versioned_plans() {
    for minor in 7..=11u8 {
        let mut generator = ImportLibraryGenerator::new("x86_64", "msvc");
        generator.version(Some((3, minor)));
        let plan = generator.plan("out", &quiet_host()).unwrap();
        assert_eq!(plan.def_path, format!("out/python3{}.def", minor));
        assert_eq!(plan.implib_path, format!("out/python3{}.lib", minor));
    }
}

#[test]
fn driver_override_plan_wraps_the_llvm_layout() {
    let generator = ImportLibraryGenerator::new("x86_64", "gnu");
    let host = HostContext {
        driver_command: Some(String::from("python3 -m ziglang")),
        vendor_archiver: None,
    };
    let plan = generator.plan("out", &host).unwrap();
    assert_eq!(plan.command.program, "python3");
    assert_eq!(
        plan.command.args,
        vec![
            String::from("-m"),
            String::from("ziglang"),
            String::from("dlltool"),
            String::from("-m"),
            String::from("i386:x86-64"),
            String::from("-d"),
            String::from("out/python3.def"),
            String::from("-l"),
            String::from("out/python3.dll.a"),
        ]
    );
}

#[test]
fn planning_twice_is_identical() {
    let generator = ImportLibraryGenerator::new("x86_64", "gnu");
    let first = generator.plan("out", &quiet_host()).unwrap();
    let second = generator.plan("out", &quiet_host()).unwrap();
    assert_eq!(first.def_file_name, second.def_file_name);
    assert_eq!(first.def_content, second.def_content);
    assert_eq!(first.def_path, second.def_path);
    assert_eq!(first.implib_path, second.implib_path);
}

#[test]
fn unsupported_target_fails_before_any_write() {
    let generator = ImportLibraryGenerator::new("x86_64", "linux");
    match generator.plan("out", &quiet_host()) {
        Err(GenerationError::UnsupportedTarget { arch, env }) => {
            assert_eq!(arch, "x86_64");
            assert_eq!(env, "linux");
        }
        _ => panic!("expected UnsupportedTarget"),
    }
}

#[test]
fn unsupported_version_fails_first() {
    let mut generator = ImportLibraryGenerator::new("x86_64", "linux");
    generator.version(Some((3, 99)));
    // Both the version and the target are unsupported: the version decides.
    match generator.plan("out", &quiet_host()) {
        Err(GenerationError::UnsupportedVersion { major, minor }) => {
            assert_eq!(major, 3);
            assert_eq!(minor, 99);
        }
        _ => panic!("expected UnsupportedVersion"),
    }
}

#[test]
fn override_resolves_even_an_unsupported_target() {
    let generator = ImportLibraryGenerator::new("m68k", "linux");
    let host = HostContext {
        driver_command: Some(String::from("zig")),
        vendor_archiver: None,
    };
    let plan = generator.plan("out", &host).unwrap();
    assert_eq!(plan.command.program, "zig");
    // The undocumented architecture passes through as the machine name.
    assert!(plan.command.args.contains(&String::from("m68k")));
}

#[test]
fn command_text_joins_program_and_arguments() {
    let generator = ImportLibraryGenerator::new("x86_64", "gnu");
    let plan = generator.plan("out", &quiet_host()).unwrap();
    assert_eq!(
        command_text(&plan.command),
        "x86_64-w64-mingw32-dlltool --input-def out/python3.def --output-lib out/python3.dll.a"
    );
}

#[test]
fn tool_exit_interpretation() {
    assert!(interpret_tool_exit(true, String::from("tool"), String::from("ok")).is_ok());
    let e = interpret_tool_exit(
        false,
        String::from("llvm-dlltool -m arm64"),
        String::from("exit status: 1"),
    )
    .unwrap_err();
    assert_eq!(e.message(), "llvm-dlltool -m arm64 failed with exit status: 1");
}

#[test]
fn invocation_failure_carries_the_command_line() {
    let e = invocation_failure(
        String::from("x86_64-w64-mingw32-dlltool --input-def out/python3.def"),
        String::from("No such file or directory (os error 2)"),
    );
    assert_eq!(
        e.message(),
        "x86_64-w64-mingw32-dlltool --input-def out/python3.def failed with No such file or directory (os error 2)"
    );
}
