//! Names that depend on the build target: the sidecar's executable and the
//! command that sweeps up stray instances of it.

use vstd::prelude::*;

verus! {

/// The target platforms that the supervisor tells apart.
#[derive(Clone, Copy, Debug, PartialEq, Eq, Structural)]
pub enum Platform {
    Windows,
    Other,
}

/// The sidecar's base name, without any platform suffix.
pub open spec fn sidecar_name() -> Seq<char> {
    "geenii-srv"@
}

/// The file name of the sidecar's executable on `platform`.
pub open spec fn binary_name(platform: Platform) -> Seq<char> {
    match platform {
        Platform::Windows => "geenii-srv.exe"@,
        Platform::Other => "geenii-srv"@,
    }
}

/// The words of the sweep command on `platform`, program first.
pub open spec fn sweep_argv(platform: Platform) -> Seq<Seq<char>> {
    match platform {
        Platform::Windows => seq!["taskkill"@, "/F"@, "/IM"@, binary_name(platform)],
        Platform::Other => seq!["pkill"@, "-f"@, binary_name(platform)],
    }
}

/// The words of the command that spawns the sidecar: the base name alone,
/// without path, suffix or arguments. The host's lookup of bundled
/// executables finds the file.
pub open spec fn sidecar_argv() -> Seq<Seq<char>> {
    seq![sidecar_name()]
}

/// A command for the host to run: a program and its arguments.
#[derive(Debug, PartialEq, Eq)]
pub struct CommandLine {
    pub program: &'static str,
    pub args: Vec<&'static str>,
}

impl CommandLine {
    /// The command line as a sequence of words, program first.
    pub open spec fn argv(&self) -> Seq<Seq<char>> {
        seq![self.program@] + Seq::new(self.args@.len(), |i: int| self.args@[i]@)
    }
}

/// Returns the platform-specific name of the sidecar's executable.
pub fn server_binary_name(platform: Platform) -> (name: &'static str)
    ensures
        name@ == binary_name(platform),
{
    match platform {
        Platform::Windows => "geenii-srv.exe",
        Platform::Other => "geenii-srv",
    }
}

/// Returns the sidecar's base name, under which the host spawns it.
pub fn sidecar_program() -> (name: &'static str)
    ensures
        name@ == sidecar_name(),
{
    "geenii-srv"
}

/// Returns the command that spawns the sidecar: its base name and no
/// arguments.
pub fn sidecar_command() -> (cmd: CommandLine)
    ensures
        cmd.program@ == sidecar_name(),
        cmd.args@.len() == 0,
        cmd.argv() == sidecar_argv(),
{
    let cmd = CommandLine { program: sidecar_program(), args: Vec::new() };
    assert(cmd.argv() =~= sidecar_argv());
    cmd
}

/// Returns the command that kills every process named like the sidecar:
/// `taskkill /F /IM <name>.exe` on Windows, `pkill -f <name>` elsewhere.
/// Its outcome is of no interest to the supervisor: it is run and forgotten.
pub fn sweep_command(platform: Platform) -> (cmd: CommandLine)
    ensures
        cmd.argv() == sweep_argv(platform),
{
    let name = server_binary_name(platform);
    let mut args: Vec<&'static str> = Vec::new();
    let program = match platform {
        Platform::Windows => {
            args.push("/F");
            args.push("/IM");
            "taskkill"
        },
        Platform::Other => {
            args.push("-f");
            "pkill"
        },
    };
    args.push(name);
    let cmd = CommandLine { program, args };
    assert(cmd.argv() =~= sweep_argv(platform));
    cmd
}

/// The Windows executable is the base name followed by `.exe`; on every
/// other platform it is the base name itself.
pub proof fn lemma_binary_name_suffix(platform: Platform)
    ensures
        platform == Platform::Windows ==> binary_name(platform) == sidecar_name() + ".exe"@,
        platform != Platform::Windows ==> binary_name(platform) == sidecar_name(),
{
    reveal_strlit("geenii-srv");
    reveal_strlit("geenii-srv.exe");
    reveal_strlit(".exe");
    if platform == Platform::Windows {
        assert(binary_name(platform) =~= sidecar_name() + ".exe"@);
    }
}

} // verus!
