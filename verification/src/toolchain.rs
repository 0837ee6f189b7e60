//! The toolchain resolver: from an architecture and an environment ABI,
//! together with a snapshot of the impure host surface, to the one utility
//! variant that must produce the import library.

use vstd::prelude::*;

use crate::error::ErrorModel;
use crate::error::GenerationError;
use crate::text::str_eq;
use crate::text::split_whitespace_tokens;
use crate::text::whitespace_tokens;

verus! {

/// Canonical MinGW-w64 `dlltool` program name.
pub const DLLTOOL_GNU: &'static str = "x86_64-w64-mingw32-dlltool";

/// Canonical MinGW-w64 `dlltool` program name, 32-bit flavor.
pub const DLLTOOL_GNU_32: &'static str = "i686-w64-mingw32-dlltool";

/// Canonical LLVM `dlltool` program name, used for the vendor ABI when no
/// vendor archiver is installed.
pub const DLLTOOL_MSVC: &'static str = "llvm-dlltool";

/// The vendor archiver program name looked for on the host.
pub const LIB_MSVC: &'static str = "lib.exe";

/// The closed set of utility families that can produce an import library,
/// each carrying what its invocation convention needs.
#[derive(Debug)]
pub enum ToolchainVariant {
    /// A prefixed MinGW-w64 `dlltool`.
    Mingw {
        /// The prefixed program name.
        tool: String,
    },
    /// LLVM's `dlltool` flavor, which needs an explicit machine identifier.
    Llvm {
        /// The program name.
        tool: String,
        /// The machine identifier in LLVM's vocabulary.
        machine: String,
    },
    /// The vendor's own archiver located on the host.
    VendorLib {
        /// The located program.
        path: String,
        /// The machine identifier in the vendor's vocabulary.
        machine: String,
    },
    /// An alternate-toolchain driver wrapping the LLVM convention behind a
    /// `dlltool` sub-command.
    Zig {
        /// The driver program.
        program: String,
        /// The driver's own leading arguments.
        pre_args: Vec<String>,
        /// The machine identifier in LLVM's vocabulary.
        machine: String,
    },
}

/// The mathematical shadow of `ToolchainVariant` over character sequences.
#[verifier::ext_equal]
pub enum VariantModel {
    Mingw { tool: Seq<char> },
    Llvm { tool: Seq<char>, machine: Seq<char> },
    VendorLib { path: Seq<char>, machine: Seq<char> },
    Zig { program: Seq<char>, pre_args: Seq<Seq<char>>, machine: Seq<char> },
}

impl View for ToolchainVariant {
    type V = VariantModel;

    open spec fn view(&self) -> VariantModel {
        match self {
            ToolchainVariant::Mingw { tool } => VariantModel::Mingw { tool: tool@ },
            ToolchainVariant::Llvm { tool, machine } => VariantModel::Llvm {
                tool: tool@,
                machine: machine@,
            },
            ToolchainVariant::VendorLib { path, machine } => VariantModel::VendorLib {
                path: path@,
                machine: machine@,
            },
            ToolchainVariant::Zig { program, pre_args, machine } => VariantModel::Zig {
                program: program@,
                pre_args: pre_args.deep_view(),
                machine: machine@,
            },
        }
    }
}

/// The variant families, for statements that only care which utility kind
/// was chosen.
pub enum VariantTag {
    Mingw,
    Llvm,
    VendorLib,
    Zig,
}

/// The family of a resolved variant.
pub open spec fn tag_of(v: VariantModel) -> VariantTag {
    match v {
        VariantModel::Mingw { .. } => VariantTag::Mingw,
        VariantModel::Llvm { .. } => VariantTag::Llvm,
        VariantModel::VendorLib { .. } => VariantTag::VendorLib,
        VariantModel::Zig { .. } => VariantTag::Zig,
    }
}

/// A snapshot of the impure host surface the resolver consults: the
/// alternate-toolchain driver command line from the environment, and the
/// vendor archiver located on the host, if either exists.  Taking these as
/// plain values keeps the decision table itself deterministic and lets it be
/// exercised with a fabricated host.
pub struct HostContext {
    /// The alternate-toolchain driver command line, exactly as the
    /// environment variable gives it.
    pub driver_command: Option<String>,
    /// The vendor archiver program found on the host.
    pub vendor_archiver: Option<String>,
}

/// The view of an optional string.
pub open spec fn opt_view(o: Option<String>) -> Option<Seq<char>> {
    match o {
        Some(s) => Some(s@),
        None => None,
    }
}

/// The machine identifier in the vocabulary of the LLVM, MinGW and wrapper
/// families.  Undocumented architectures pass through unchanged: the invoked
/// utility itself surfaces the failure.
pub open spec fn spec_llvm_machine(arch: Seq<char>) -> Seq<char> {
    if arch == "x86_64"@ {
        "i386:x86-64"@
    } else if arch == "x86"@ {
        "i386"@
    } else if arch == "aarch64"@ {
        "arm64"@
    } else {
        arch
    }
}

/// The machine identifier in the vendor archiver's own vocabulary, which is
/// incompatible with the LLVM one even for the same architecture.
pub open spec fn spec_vendor_machine(arch: Seq<char>) -> Seq<char> {
    if arch == "x86_64"@ {
        "X64"@
    } else if arch == "x86"@ {
        "X86"@
    } else if arch == "aarch64"@ {
        "ARM64"@
    } else {
        arch
    }
}

/// The full vendor target triple for the closed set of architectures whose
/// vendor archiver is ever looked for; `None` outside that set.
pub open spec fn spec_vendor_triple(arch: Seq<char>) -> Option<Seq<char>> {
    if arch == "x86_64"@ {
        Some("x86_64-pc-windows-msvc"@)
    } else if arch == "x86"@ {
        Some("i686-pc-windows-msvc"@)
    } else if arch == "aarch64"@ {
        Some("aarch64-pc-windows-msvc"@)
    } else {
        None
    }
}

/// Whether a driver command line is set and names at least a program: only
/// then does the override rule apply.
pub open spec fn driver_overrides(driver: Option<Seq<char>>) -> bool {
    match driver {
        Some(s) => whitespace_tokens(s).len() > 0,
        None => false,
    }
}

/// Whether the architecture and ABI have a row in the resolution table.
pub open spec fn spec_target_supported(arch: Seq<char>, env: Seq<char>) -> bool {
    ||| (arch == "x86_64"@ && env == "gnu"@)
    ||| (arch == "x86"@ && env == "gnu"@)
    ||| env == "msvc"@
}

/// The architecture-by-ABI resolution table, consulted when no driver
/// override applies.
pub open spec fn spec_resolve_table(
    arch: Seq<char>,
    env: Seq<char>,
    vendor: Option<Seq<char>>,
) -> Result<VariantModel, ErrorModel> {
    if arch == "x86_64"@ && env == "gnu"@ {
        Ok(VariantModel::Mingw { tool: DLLTOOL_GNU@ })
    } else if arch == "x86"@ && env == "gnu"@ {
        Ok(VariantModel::Mingw { tool: DLLTOOL_GNU_32@ })
    } else if env == "msvc"@ {
        match vendor {
            Some(path) => Ok(
                VariantModel::VendorLib { path, machine: spec_vendor_machine(arch) },
            ),
            None => Ok(
                VariantModel::Llvm { tool: DLLTOOL_MSVC@, machine: spec_llvm_machine(arch) },
            ),
        }
    } else {
        Err(ErrorModel::UnsupportedTarget { arch, env })
    }
}

/// The whole resolution rule: a driver override wins unconditionally; else
/// the table decides.
pub open spec fn spec_resolve(
    arch: Seq<char>,
    env: Seq<char>,
    driver: Option<Seq<char>>,
    vendor: Option<Seq<char>>,
) -> Result<VariantModel, ErrorModel> {
    match driver {
        Some(s) => if whitespace_tokens(s).len() > 0 {
            Ok(
                VariantModel::Zig {
                    program: whitespace_tokens(s)[0],
                    pre_args: whitespace_tokens(s).drop_first(),
                    machine: spec_llvm_machine(arch),
                },
            )
        } else {
            spec_resolve_table(arch, env, vendor)
        },
        None => spec_resolve_table(arch, env, vendor),
    }
}

/// The view of a resolution outcome.
pub open spec fn resolve_result_view(r: Result<ToolchainVariant, GenerationError>) -> Result<
    VariantModel,
    ErrorModel,
> {
    match r {
        Ok(v) => Ok(v@),
        Err(e) => Err(e@),
    }
}

/// The machine identifier for the LLVM, MinGW and wrapper families.
pub fn llvm_machine(arch: &str) -> (r: String)
    ensures
        r@ == spec_llvm_machine(arch@),
{
    if str_eq(arch, "x86_64") {
        "i386:x86-64".to_owned()
    } else if str_eq(arch, "x86") {
        "i386".to_owned()
    } else if str_eq(arch, "aarch64") {
        "arm64".to_owned()
    } else {
        arch.to_owned()
    }
}

/// The machine identifier for the vendor archiver family.
pub fn vendor_machine(arch: &str) -> (r: String)
    ensures
        r@ == spec_vendor_machine(arch@),
{
    if str_eq(arch, "x86_64") {
        "X64".to_owned()
    } else if str_eq(arch, "x86") {
        "X86".to_owned()
    } else if str_eq(arch, "aarch64") {
        "ARM64".to_owned()
    } else {
        arch.to_owned()
    }
}

/// Relies on `cc::windows_registry::find`: probes the host for a tool of an
/// installed vendor toolchain for the given target triple — on a Windows
/// host via a developer prompt's environment or the registry, on any other
/// host via vcvars-style environment variables (`VCINSTALLDIR` and
/// `VSINSTALLDIR`, then `PATH`).  It does not itself gate on the host OS
/// family, so callers that want vendor discovery restricted to the vendor's
/// own OS must not call it elsewhere.  Whether a tool is found depends on
/// the host alone, so nothing is promised of the outcome; callers state
/// what holds either way.
#[verifier::external_body]
fn locate_vendor_tool(target: &str, tool: &str) -> (r: Option<String>)
{
    cc::windows_registry::find(target, tool).map(
        |command| command.get_program().to_string_lossy().into_owned(),
    )
}

/// Looks for the vendor archiver for the given architecture.  Discovery is
/// attempted only for the closed set of architectures with a vendor target
/// triple; any other architecture reports "not found" without a probe.
///
/// The host-OS gate is the caller's: probe only on the vendor's own OS
/// family, and hand the outcome to `resolve_with_host` as part of the host
/// snapshot.
pub fn find_vendor_archiver(arch: &str) -> (r: Option<String>)
    ensures
        spec_vendor_triple(arch@) is None ==> r is None,
{
    if str_eq(arch, "x86_64") {
        locate_vendor_tool("x86_64-pc-windows-msvc", LIB_MSVC)
    } else if str_eq(arch, "x86") {
        locate_vendor_tool("i686-pc-windows-msvc", LIB_MSVC)
    } else if str_eq(arch, "aarch64") {
        locate_vendor_tool("aarch64-pc-windows-msvc", LIB_MSVC)
    } else {
        None
    }
}

/// Resolves the toolchain variant from a fully explicit host snapshot.
/// Deterministic: the outcome is a function of the four inputs alone.
pub fn resolve_with_host(arch: &str, env: &str, host: &HostContext) -> (r: Result<
    ToolchainVariant,
    GenerationError,
>)
    ensures
        resolve_result_view(r) == spec_resolve(
            arch@,
            env@,
            opt_view(host.driver_command),
            opt_view(host.vendor_archiver),
        ),
{
    if let Some(cmdline) = &host.driver_command {
        let mut tokens = split_whitespace_tokens(cmdline.as_str());
        if tokens.len() > 0 {
            let ghost toks = whitespace_tokens(cmdline@);
            let program = tokens.remove(0);
            proof {
                assert(tokens.deep_view() =~= toks.drop_first());
            }
            let machine = llvm_machine(arch);
            return Ok(ToolchainVariant::Zig { program, pre_args: tokens, machine });
        }
    }
    if str_eq(env, "gnu") && str_eq(arch, "x86_64") {
        Ok(ToolchainVariant::Mingw { tool: DLLTOOL_GNU.to_owned() })
    } else if str_eq(env, "gnu") && str_eq(arch, "x86") {
        Ok(ToolchainVariant::Mingw { tool: DLLTOOL_GNU_32.to_owned() })
    } else if str_eq(env, "msvc") {
        match &host.vendor_archiver {
            Some(path) => Ok(
                ToolchainVariant::VendorLib { path: path.clone(), machine: vendor_machine(arch) },
            ),
            None => Ok(
                ToolchainVariant::Llvm { tool: DLLTOOL_MSVC.to_owned(), machine: llvm_machine(arch) },
            ),
        }
    } else {
        Err(GenerationError::UnsupportedTarget { arch: arch.to_owned(), env: env.to_owned() })
    }
}

/// Whether the given alternate-toolchain driver snapshot applies: it is set
/// and names at least a program.  Callers that only probe the host where the
/// resolution table will be consulted decide with this.
pub fn driver_command_overrides(driver_command: &Option<String>) -> (r: bool)
    ensures
        r == driver_overrides(opt_view(*driver_command)),
{
    match driver_command {
        Some(cmdline) => split_whitespace_tokens(cmdline.as_str()).len() > 0,
        None => false,
    }
}

/// Override precedence: a driver command line that names at least a program
/// wins for every architecture and environment ABI, including combinations
/// the table itself rejects, and wraps the LLVM convention with the LLVM
/// machine identifier.
pub proof fn lemma_override_precedence(
    arch: Seq<char>,
    env: Seq<char>,
    cmdline: Seq<char>,
    vendor: Option<Seq<char>>,
)
    requires
        whitespace_tokens(cmdline).len() > 0,
    ensures
        spec_resolve(arch, env, Some(cmdline), vendor) == Ok::<VariantModel, ErrorModel>(
            VariantModel::Zig {
                program: whitespace_tokens(cmdline)[0],
                pre_args: whitespace_tokens(cmdline).drop_first(),
                machine: spec_llvm_machine(arch),
            },
        ),
{
}

/// Resolver determinism: with no driver override, the variant family chosen
/// for a fixed architecture and environment ABI is the same on any two hosts
/// that agree on whether a vendor archiver is installed; in particular it
/// never changes between runs on one host.
pub proof fn lemma_resolver_deterministic(
    arch: Seq<char>,
    env: Seq<char>,
    d1: Option<Seq<char>>,
    d2: Option<Seq<char>>,
    v1: Option<Seq<char>>,
    v2: Option<Seq<char>>,
)
    requires
        !driver_overrides(d1),
        !driver_overrides(d2),
        v1 is Some <==> v2 is Some,
    ensures
        spec_resolve(arch, env, d1, v1) is Ok <==> spec_resolve(arch, env, d2, v2) is Ok,
        spec_resolve(arch, env, d1, v1) matches Ok(a) ==> (spec_resolve(
            arch,
            env,
            d2,
            v2,
        ) matches Ok(b) && tag_of(a) == tag_of(b)),
        spec_resolve(arch, env, d1, v1) matches Err(e1) ==> spec_resolve(arch, env, d2, v2)
            == Err::<VariantModel, ErrorModel>(e1),
{
}

/// The machine-identifier table, exhaustively, under both naming
/// conventions, with pass-through for every undocumented architecture.
pub proof fn lemma_machine_identifier_table(arch: Seq<char>)
    ensures
        spec_llvm_machine("x86_64"@) == "i386:x86-64"@,
        spec_llvm_machine("x86"@) == "i386"@,
        spec_llvm_machine("aarch64"@) == "arm64"@,
        spec_vendor_machine("x86_64"@) == "X64"@,
        spec_vendor_machine("x86"@) == "X86"@,
        spec_vendor_machine("aarch64"@) == "ARM64"@,
        arch != "x86_64"@ && arch != "x86"@ && arch != "aarch64"@ ==> spec_llvm_machine(arch)
            == arch && spec_vendor_machine(arch) == arch,
{
    reveal_strlit("x86_64");
    reveal_strlit("x86");
    reveal_strlit("aarch64");
    assert("x86"@.len() == 3);
    assert("x86_64"@.len() == 6);
    assert("aarch64"@.len() == 7);
}

} // verus!
