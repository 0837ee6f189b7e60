//! The command builder: from a resolved toolchain variant and the two file
//! paths to the exact argument vector of the utility invocation.

use vstd::prelude::*;
use vstd::string::StringExecFns;

use crate::text::spec_space_joined;
use crate::text::space_join;
use crate::toolchain::ToolchainVariant;
use crate::toolchain::VariantModel;

verus! {

/// An invocable command: the program and its ordered argument vector.  Paths
/// are discrete arguments, never concatenated into a shell string; no
/// quoting or escaping is performed here.
pub struct CommandSpec {
    /// The program to invoke.
    pub program: String,
    /// The ordered arguments.
    pub args: Vec<String>,
}

/// The mathematical shadow of `CommandSpec`.
#[verifier::ext_equal]
pub struct CommandModel {
    pub program: Seq<char>,
    pub args: Seq<Seq<char>>,
}

impl View for CommandSpec {
    type V = CommandModel;

    open spec fn view(&self) -> CommandModel {
        CommandModel { program: self.program@, args: self.args.deep_view() }
    }
}

/// The argument layout of each variant family: MinGW names its two files by
/// long options; LLVM takes `-m`, `-d`, `-l`; the vendor archiver takes
/// slash options with the value joined on; the wrapper prepends its own
/// leading arguments and a `dlltool` sub-command to the LLVM layout.
pub open spec fn spec_build(
    variant: VariantModel,
    def_path: Seq<char>,
    lib_path: Seq<char>,
) -> CommandModel {
    match variant {
        VariantModel::Mingw { tool } => CommandModel {
            program: tool,
            args: seq!["--input-def"@, def_path, "--output-lib"@, lib_path],
        },
        VariantModel::Llvm { tool, machine } => CommandModel {
            program: tool,
            args: seq!["-m"@, machine, "-d"@, def_path, "-l"@, lib_path],
        },
        VariantModel::VendorLib { path, machine } => CommandModel {
            program: path,
            args: seq![
                "/MACHINE:"@ + machine,
                "/DEF:"@ + def_path,
                "/OUT:"@ + lib_path,
            ],
        },
        VariantModel::Zig { program, pre_args, machine } => CommandModel {
            program,
            args: pre_args + seq![
                "dlltool"@,
                "-m"@,
                machine,
                "-d"@,
                def_path,
                "-l"@,
                lib_path,
            ],
        },
    }
}

/// Builds the complete utility invocation for the resolved variant.
pub fn build(variant: ToolchainVariant, def_path: &str, lib_path: &str) -> (r: CommandSpec)
    ensures
        r@ == spec_build(variant@, def_path@, lib_path@),
{
    let ghost vm = variant@;
    match variant {
        ToolchainVariant::Mingw { tool } => {
            let mut args: Vec<String> = Vec::new();
            args.push("--input-def".to_owned());
            args.push(def_path.to_owned());
            args.push("--output-lib".to_owned());
            args.push(lib_path.to_owned());
            let r = CommandSpec { program: tool, args };
            proof {
                assert(r@.args =~= seq!["--input-def"@, def_path@, "--output-lib"@, lib_path@]);
                assert(r@ =~= spec_build(vm, def_path@, lib_path@));
            }
            r
        },
        ToolchainVariant::Llvm { tool, machine } => {
            let ghost m = machine@;
            let mut args: Vec<String> = Vec::new();
            args.push("-m".to_owned());
            args.push(machine);
            args.push("-d".to_owned());
            args.push(def_path.to_owned());
            args.push("-l".to_owned());
            args.push(lib_path.to_owned());
            let r = CommandSpec { program: tool, args };
            proof {
                assert(r@.args =~= seq!["-m"@, m, "-d"@, def_path@, "-l"@, lib_path@]);
                assert(r@ =~= spec_build(vm, def_path@, lib_path@));
            }
            r
        },
        ToolchainVariant::VendorLib { path, machine } => {
            let mut machine_arg = "/MACHINE:".to_owned();
            machine_arg.append(machine.as_str());
            let mut def_arg = "/DEF:".to_owned();
            def_arg.append(def_path);
            let mut out_arg = "/OUT:".to_owned();
            out_arg.append(lib_path);
            let mut args: Vec<String> = Vec::new();
            args.push(machine_arg);
            args.push(def_arg);
            args.push(out_arg);
            let r = CommandSpec { program: path, args };
            proof {
                assert(r@.args =~= seq![
                    "/MACHINE:"@ + machine@,
                    "/DEF:"@ + def_path@,
                    "/OUT:"@ + lib_path@,
                ]);
                assert(r@ =~= spec_build(vm, def_path@, lib_path@));
            }
            r
        },
        ToolchainVariant::Zig { program, pre_args, machine } => {
            let ghost lead = pre_args.deep_view();
            let ghost m = machine@;
            let mut args = pre_args;
            args.push("dlltool".to_owned());
            args.push("-m".to_owned());
            args.push(machine);
            args.push("-d".to_owned());
            args.push(def_path.to_owned());
            args.push("-l".to_owned());
            args.push(lib_path.to_owned());
            let r = CommandSpec { program, args };
            proof {
                assert(r@.args =~= lead + seq![
                    "dlltool"@,
                    "-m"@,
                    m,
                    "-d"@,
                    def_path@,
                    "-l"@,
                    lib_path@,
                ]);
                assert(r@ =~= spec_build(vm, def_path@, lib_path@));
            }
            r
        },
    }
}

/// The attempted command line as one diagnostic string: the program and the
/// arguments joined with spaces.
pub open spec fn spec_command_text(c: CommandModel) -> Seq<char> {
    spec_space_joined(seq![c.program] + c.args)
}

/// Renders the command line for error messages.
pub fn command_text(c: &CommandSpec) -> (r: String)
    ensures
        r@ == spec_command_text(c@),
{
    let mut parts: Vec<String> = Vec::new();
    parts.push(c.program.clone());
    let n = c.args.len();
    let mut i: usize = 0;
    while i < n
        invariant
            n == c.args.len(),
            i <= n,
            parts.deep_view() =~= seq![c.program@] + c.args.deep_view().subrange(0, i as int),
        decreases n - i,
    {
        let ghost pd = parts.deep_view();
        parts.push(c.args[i].clone());
        proof {
            let adv = c.args.deep_view();
            assert(adv[i as int] == c.args@[i as int]@);
            assert(parts.deep_view() =~= pd.push(adv[i as int]));
            assert(adv.subrange(0, (i + 1) as int) =~= adv.subrange(0, i as int).push(
                adv[i as int],
            ));
            assert(pd.push(adv[i as int]) =~= seq![c.program@] + adv.subrange(0, (i + 1) as int));
        }
        i = i + 1;
    }
    proof {
        assert(c.args.deep_view().subrange(0, n as int) =~= c.args.deep_view());
        assert(parts.deep_view() =~= seq![c.program@] + c.args.deep_view());
    }
    space_join(&parts)
}

} // verus!
