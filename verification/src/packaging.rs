//! The step that builds the probe's bytecode.

use vstd::prelude::*;

verus! {

/// Why the build of the probe counts as failed.
#[derive(Clone, Copy, Debug, PartialEq, Eq, Structural)]
pub enum BuildError {
    /// The build tool ran and reported failure.
    Failed,
}

/// The command that builds the probe's bytecode.
pub struct BuildCommand {
    /// The program to run.
    pub program: &'static str,
    /// The directory to run it in.
    pub directory: &'static str,
    /// Its arguments, in order.
    pub args: Vec<&'static str>,
}

/// The arguments of the build: the nightly toolchain, the bytecode target,
/// the core library built from source, and the release profile if asked for.
pub open spec fn build_args(release: bool) -> Seq<Seq<char>> {
    let debug = seq![
        "+nightly"@,
        "build"@,
        "--target"@,
        "bpfel-unknown-none"@,
        "-Z"@,
        "build-std=core"@,
    ];
    if release {
        debug.push("--release"@)
    } else {
        debug
    }
}

/// The command that builds the probe, for the debug or the release profile.
pub fn build_command(release: bool) -> (command: BuildCommand)
    ensures
        command.program@ == "cargo"@,
        command.directory@ == "ebpf"@,
        command.args@.len() == build_args(release).len(),
        forall|i: int|
            0 <= i < command.args@.len() ==> (#[trigger] command.args@[i])@ == build_args(
                release,
            )[i],
{
    let mut args: Vec<&'static str> = Vec::new();
    args.push("+nightly");
    args.push("build");
    args.push("--target");
    args.push("bpfel-unknown-none");
    args.push("-Z");
    args.push("build-std=core");
    if release {
        args.push("--release");
    }
    BuildCommand { program: "cargo", directory: "ebpf", args }
}

/// Judges a finished build by whether the build tool reported success.
pub fn build_outcome(success: bool) -> (outcome: Result<(), BuildError>)
    ensures
        outcome is Ok <==> success,
        outcome matches Err(e) ==> e == BuildError::Failed,
{
    if success {
        Ok(())
    } else {
        Err(BuildError::Failed)
    }
}

impl BuildError {
    /// What to tell the operator.
    pub fn message(&self) -> (text: &'static str)
        ensures
            text@ == "Failed to build eBPF program"@,
    {
        "Failed to build eBPF program"
    }
}

} // verus!
