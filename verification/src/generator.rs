//! The generation engine: from a target descriptor and an output directory
//! to everything a `generate` run needs decided — the definition document to
//! write, the artifact path, and the exact utility invocation.
//!
//! Everything here is a pure decision over its inputs, except that planning
//! probes the host for the vendor archiver where the resolution table calls
//! for it.  The filesystem writes and the process invocation belong to the
//! caller, which performs them in the planned order.

use vstd::prelude::*;
use vstd::string::StringExecFns;

use crate::command::CommandModel;
use crate::command::CommandSpec;
use crate::command::build;
use crate::command::spec_build;
use crate::defs::lookup;
use crate::defs::spec_def_content;
use crate::defs::spec_def_file_name;
use crate::defs::supported_version;
use crate::error::ErrorModel;
use crate::error::GenerationError;
use crate::text::decimal_of;
use crate::text::decimal_string;
use crate::text::join_path;
use crate::text::spec_join_path;
use crate::text::str_eq;
use crate::toolchain::HostContext;
use crate::toolchain::driver_overrides;
use crate::toolchain::opt_view;
use crate::toolchain::resolve_with_host;
use crate::toolchain::spec_resolve;
use crate::toolchain::spec_target_supported;

verus! {

/// Import library file extension for the GNU environment ABI.
pub const IMPLIB_EXT_GNU: &'static str = ".dll.a";

/// Import library file extension for the vendor (MSVC) environment ABI.
pub const IMPLIB_EXT_MSVC: &'static str = ".lib";

/// The artifact extension is a pure function of the environment ABI: `.lib`
/// for the vendor ABI, `.dll.a` for anything else.
pub open spec fn spec_implib_ext(env: Seq<char>) -> Seq<char> {
    if env == "msvc"@ {
        IMPLIB_EXT_MSVC@
    } else {
        IMPLIB_EXT_GNU@
    }
}

/// The artifact base name is a pure function of version presence: the fixed
/// version-agnostic base, or the base with the version digits joined on.
pub open spec fn spec_implib_base(version: Option<(u8, u8)>) -> Seq<char> {
    match version {
        Some((major, minor)) => "python"@ + decimal_of(major as nat) + decimal_of(minor as nat),
        None => "python3"@,
    }
}

/// The artifact file name.
pub open spec fn spec_implib_file_name(version: Option<(u8, u8)>, env: Seq<char>) -> Seq<char> {
    spec_implib_base(version) + spec_implib_ext(env)
}

/// The target descriptor: architecture and environment ABI in the compiler
/// target-triple vocabulary, plus an optional (major, minor) interpreter
/// version.  Immutable once constructed except through `version`.
#[derive(Debug, Clone)]
pub struct ImportLibraryGenerator {
    /// The compile target architecture name.
    pub arch: String,
    /// The compile target environment ABI name.
    pub env: String,
    /// Major and minor interpreter version, for the version-specific
    /// artifact only.
    pub version: Option<(u8, u8)>,
}

/// Everything one generation run needs decided, in the order the steps are
/// performed: write `def_content` to `def_path`, then invoke `command`,
/// which produces the artifact at `implib_path`.
pub struct GenerationPlan {
    /// The canonical definition file name.
    pub def_file_name: &'static str,
    /// The definition document text, written verbatim.
    pub def_content: &'static str,
    /// Where the definition document is written, under the output directory.
    pub def_path: String,
    /// Where the utility is told to put the artifact.
    pub implib_path: String,
    /// The exact utility invocation.
    pub command: CommandSpec,
}

/// The mathematical shadow of `GenerationPlan`.
#[verifier::ext_equal]
pub struct PlanModel {
    pub def_file_name: Seq<char>,
    pub def_content: Seq<char>,
    pub def_path: Seq<char>,
    pub implib_path: Seq<char>,
    pub command: CommandModel,
}

impl View for GenerationPlan {
    type V = PlanModel;

    open spec fn view(&self) -> PlanModel {
        PlanModel {
            def_file_name: self.def_file_name@,
            def_content: self.def_content@,
            def_path: self.def_path@,
            implib_path: self.implib_path@,
            command: self.command@,
        }
    }
}

/// The plan once the version is known supported: the resolution outcome
/// decides between a plan and `UnsupportedTarget`.
pub open spec fn spec_plan_resolved(
    arch: Seq<char>,
    env: Seq<char>,
    version: Option<(u8, u8)>,
    out_dir: Seq<char>,
    driver: Option<Seq<char>>,
    vendor: Option<Seq<char>>,
) -> Result<PlanModel, ErrorModel> {
    match spec_resolve(arch, env, driver, vendor) {
        Err(e) => Err(e),
        Ok(variant) => Ok(
            PlanModel {
                def_file_name: spec_def_file_name(version),
                def_content: spec_def_content(version),
                def_path: spec_join_path(out_dir, spec_def_file_name(version)),
                implib_path: spec_join_path(out_dir, spec_implib_file_name(version, env)),
                command: spec_build(
                    variant,
                    spec_join_path(out_dir, spec_def_file_name(version)),
                    spec_join_path(out_dir, spec_implib_file_name(version, env)),
                ),
            },
        ),
    }
}

/// The whole planning rule.  An unsupported version fails first, carrying
/// the request; then the resolver decides; nothing else can fail.
pub open spec fn spec_plan(
    arch: Seq<char>,
    env: Seq<char>,
    version: Option<(u8, u8)>,
    out_dir: Seq<char>,
    driver: Option<Seq<char>>,
    vendor: Option<Seq<char>>,
) -> Result<PlanModel, ErrorModel> {
    match version {
        Some((major, minor)) => if !(major == 3 && 7 <= minor <= 11) {
            Err(ErrorModel::UnsupportedVersion { major, minor })
        } else {
            spec_plan_resolved(arch, env, version, out_dir, driver, vendor)
        },
        None => spec_plan_resolved(arch, env, version, out_dir, driver, vendor),
    }
}

/// The view of a planning outcome.
pub open spec fn plan_result_view(r: Result<GenerationPlan, GenerationError>) -> Result<
    PlanModel,
    ErrorModel,
> {
    match r {
        Ok(p) => Ok(p@),
        Err(e) => Err(e@),
    }
}

impl ImportLibraryGenerator {
    /// Creates a generator for the given compile target, for the
    /// version-agnostic artifact.
    pub fn new(arch: &str, env: &str) -> (r: Self)
        ensures
            r.arch@ == arch@,
            r.env@ == env@,
            r.version == None::<(u8, u8)>,
    {
        ImportLibraryGenerator { arch: arch.to_owned(), env: env.to_owned(), version: None }
    }

    /// Selects the version-specific artifact, or with `None` the
    /// version-agnostic one again.
    pub fn version(&mut self, version: Option<(u8, u8)>)
        ensures
            final(self).arch == old(self).arch,
            final(self).env == old(self).env,
            final(self).version == version,
    {
        self.version = version;
    }

    /// The full artifact path under the output directory: base name by
    /// version, extension by environment ABI.
    pub fn implib_file_path(&self, out_dir: &str) -> (r: String)
        ensures
            r@ == spec_join_path(out_dir@, spec_implib_file_name(self.version, self.env@)),
    {
        let ext = if str_eq(self.env.as_str(), "msvc") {
            IMPLIB_EXT_MSVC
        } else {
            IMPLIB_EXT_GNU
        };
        let name = match self.version {
            Some((major, minor)) => {
                let mut n = "python".to_owned();
                n.append(decimal_string(major).as_str());
                n.append(decimal_string(minor).as_str());
                n.append(ext);
                n
            },
            None => {
                let mut n = "python3".to_owned();
                n.append(ext);
                n
            },
        };
        join_path(out_dir, name.as_str())
    }

    /// Decides one whole generation run from the target, the output
    /// directory and the caller's host snapshot: the definition document and
    /// its path, the artifact path, and the utility invocation, in the order
    /// the caller performs them.  Fails with `UnsupportedVersion` before
    /// anything else, then with the resolver's `UnsupportedTarget`; a plan
    /// is returned exactly when neither applies.  Deterministic: the outcome
    /// is a function of the inputs alone.
    ///
    /// The snapshot is the caller's because only the caller knows the impure
    /// host surface: the driver environment variable, and — on the vendor's
    /// own OS family only — what `find_vendor_archiver` located.
    pub fn plan(&self, out_dir: &str, host: &HostContext) -> (r: Result<
        GenerationPlan,
        GenerationError,
    >)
        ensures
            plan_result_view(r) == spec_plan(
                self.arch@,
                self.env@,
                self.version,
                out_dir@,
                opt_view(host.driver_command),
                opt_view(host.vendor_archiver),
            ),
            r is Ok <==> (supported_version(self.version) && (driver_overrides(
                opt_view(host.driver_command),
            ) || spec_target_supported(self.arch@, self.env@))),
    {
        let asset = match lookup(&self.version) {
            Ok(asset) => asset,
            Err(e) => {
                return Err(e);
            },
        };
        let def_path = join_path(out_dir, asset.file_name);
        let implib_path = self.implib_file_path(out_dir);
        let variant = match resolve_with_host(self.arch.as_str(), self.env.as_str(), host) {
            Ok(variant) => variant,
            Err(e) => {
                return Err(e);
            },
        };
        let command = build(variant, def_path.as_str(), implib_path.as_str());
        let plan = GenerationPlan {
            def_file_name: asset.file_name,
            def_content: asset.content,
            def_path,
            implib_path,
            command,
        };
        proof {
            assert(plan_result_view(Ok(plan)) matches Ok(p) && spec_plan(
                self.arch@,
                self.env@,
                self.version,
                out_dir@,
                opt_view(host.driver_command),
                opt_view(host.vendor_archiver),
            ) matches Ok(q) && p =~~= q);
        }
        Ok(plan)
    }
}

/// The error for a utility that could not be started at all: it carries the
/// attempted command line and the underlying failure text, so the caller of
/// the spawn builds it from exactly those two.
pub fn invocation_failure(command_line: String, detail: String) -> (r: GenerationError)
    ensures
        r@ == (ErrorModel::ToolInvocationFailed { command: command_line@, detail: detail@ }),
{
    GenerationError::ToolInvocationFailed { command: command_line, detail }
}

/// Interprets the invoked utility's exit: a successful status is the only
/// success signal; any other exit is terminal and carries the attempted
/// command line and the status text.
pub fn interpret_tool_exit(success: bool, command_line: String, status_text: String) -> (r: Result<
    (),
    GenerationError,
>)
    ensures
        r is Ok <==> success,
        r matches Err(e) ==> e@ == (ErrorModel::ToolExitedWithFailure {
            command: command_line@,
            detail: status_text@,
        }),
{
    if success {
        Ok(())
    } else {
        Err(GenerationError::ToolExitedWithFailure { command: command_line, detail: status_text })
    }
}

/// For every supported version and every environment ABI: the definition
/// file name encodes the version digits (or is the fixed version-agnostic
/// name), and the artifact name is the version base with extension `.lib`
/// exactly for the vendor ABI.
pub proof fn lemma_artifact_naming(version: Option<(u8, u8)>, env: Seq<char>)
    requires
        supported_version(version),
    ensures
        version matches Some((major, minor)) ==> spec_def_file_name(version) == "python"@
            + decimal_of(major as nat) + decimal_of(minor as nat) + ".def"@,
        version is None ==> spec_def_file_name(version) == "python3.def"@,
        spec_implib_file_name(version, env) == spec_implib_base(version) + spec_implib_ext(env),
        spec_implib_ext(env) == ".lib"@ <==> env == "msvc"@,
{
    reveal_strlit(".lib");
    reveal_strlit(".dll.a");
    assert(".lib"@.len() == 4);
    assert(".dll.a"@.len() == 6);
}

/// Idempotence: two runs planned from identical inputs write the identical
/// definition document under the identical name and path and name the
/// identical artifact path, whatever each run's host probing returned.
pub proof fn lemma_generation_idempotent(
    arch: Seq<char>,
    env: Seq<char>,
    version: Option<(u8, u8)>,
    out_dir: Seq<char>,
    driver: Option<Seq<char>>,
    vendor1: Option<Seq<char>>,
    vendor2: Option<Seq<char>>,
    p1: PlanModel,
    p2: PlanModel,
)
    requires
        spec_plan(arch, env, version, out_dir, driver, vendor1) == Ok::<PlanModel, ErrorModel>(p1),
        spec_plan(arch, env, version, out_dir, driver, vendor2) == Ok::<PlanModel, ErrorModel>(p2),
    ensures
        p1.def_file_name == p2.def_file_name,
        p1.def_content == p2.def_content,
        p1.def_path == p2.def_path,
        p1.implib_path == p2.implib_path,
{
}

} // verus!
