//! Confinement of scripts.
//!
//! A script may run inside bubblewrap or firejail. When the user asks for
//! one of them, that tool must be there: running the script unconfined
//! instead would defeat the setting.

use vstd::prelude::*;
use vstd::string::*;
use crate::config::SandboxMode;
use crate::text::texts_of;

verus! {

/// What can go wrong when a script is run.
#[derive(Clone, Debug, PartialEq, Eq)]
pub enum SandboxError {
    /// The script file does not exist.
    ScriptNotFound(String),
    /// The script could not be run.
    ExecutionFailed(String),
    /// The tool that confines the script is not installed.
    SandboxNotAvailable(String),
}

/// Runs scripts under the configured confinement.
pub struct SandboxRunner {
    mode: SandboxMode,
}

impl Default for SandboxRunner {
    fn default() -> (r: Self)
        ensures
            r.mode_spec() == SandboxMode::Off,
    {
        SandboxRunner { mode: SandboxMode::Off }
    }
}

impl SandboxRunner {
    /// The mode in force.
    pub closed spec fn mode_spec(&self) -> SandboxMode {
        self.mode
    }

    /// The program that confines scripts in `mode`, if it needs one.
    pub open spec fn tool_for(mode: SandboxMode) -> Option<Seq<char>> {
        match mode {
            SandboxMode::Off => None,
            SandboxMode::Bubblewrap => Some("bwrap"@),
            SandboxMode::Firejail => Some("firejail"@),
        }
    }

    /// A runner in the mode `mode`.
    pub fn new(mode: SandboxMode) -> (r: Self)
        ensures
            r.mode_spec() == mode,
    {
        SandboxRunner { mode }
    }

    /// Changes the mode.
    pub fn set_mode(&mut self, mode: SandboxMode)
        ensures
            final(self).mode_spec() == mode,
    {
        self.mode = mode;
    }

    /// The mode in force.
    pub fn mode(&self) -> (r: SandboxMode)
        ensures
            r == self.mode_spec(),
    {
        self.mode
    }

    /// The program that the mode in force needs, if it needs one.
    pub fn required_tool(&self) -> (r: Option<&'static str>)
        ensures
            r is Some == Self::tool_for(self.mode_spec()) is Some,
            r matches Some(tool) ==> Self::tool_for(self.mode_spec()) == Some(tool@),
    {
        match self.mode {
            SandboxMode::Off => None,
            SandboxMode::Bubblewrap => Some("bwrap"),
            SandboxMode::Firejail => Some("firejail"),
        }
    }

    /// Whether scripts can be run in the mode in force: no tool is needed, or
    /// the needed tool was found. `tool_found` says whether the program named
    /// by `required_tool` is installed.
    pub fn is_available(&self, tool_found: bool) -> (r: bool)
        ensures
            r == (self.mode_spec() == SandboxMode::Off || tool_found),
    {
        match self.mode {
            SandboxMode::Off => true,
            SandboxMode::Bubblewrap => tool_found,
            SandboxMode::Firejail => tool_found,
        }
    }
}

/// The arguments with which bubblewrap runs a script: the system
/// directories bound read-only, `/lib64` among them where it exists, the
/// script bound read-only, fresh `/tmp`, `/proc` and `/dev`, the network
/// shared, a new session and new user, process and IPC namespaces; then the
/// script and its own arguments.
pub open spec fn bubblewrap_arguments(script: Seq<char>, args: Seq<Seq<char>>, lib64: bool) -> Seq<
    Seq<char>,
> {
    seq!["--ro-bind"@, "/usr"@, "/usr"@, "--ro-bind"@, "/lib"@, "/lib"@] + (if lib64 {
        seq!["--ro-bind"@, "/lib64"@, "/lib64"@]
    } else {
        Seq::empty()
    }) + seq![
        "--ro-bind"@,
        "/bin"@,
        "/bin"@,
        "--ro-bind"@,
        "/sbin"@,
        "/sbin"@,
        "--ro-bind"@,
        "/etc/resolv.conf"@,
        "/etc/resolv.conf"@,
        "--ro-bind"@,
        "/etc/hosts"@,
        "/etc/hosts"@,
        "--ro-bind"@,
        "/etc/passwd"@,
        "/etc/passwd"@,
        "--ro-bind"@,
        "/etc/group"@,
        "/etc/group"@,
    ] + seq![
        "--ro-bind"@,
        script,
        script,
        "--tmpfs"@,
        "/tmp"@,
        "--proc"@,
        "/proc"@,
        "--dev"@,
        "/dev"@,
        "--share-net"@,
        "--new-session"@,
        "--unshare-user"@,
        "--unshare-pid"@,
        "--unshare-ipc"@,
        "--die-with-parent"@,
        script,
    ] + args
}

/// The arguments with which firejail runs a script: quiet, without a
/// profile, all capabilities dropped, no root, a private `/tmp`, the file
/// system read-only, no D-Bus; then the script and its own arguments.
pub open spec fn firejail_arguments(script: Seq<char>, args: Seq<Seq<char>>) -> Seq<Seq<char>> {
    seq![
        "--quiet"@,
        "--noprofile"@,
        "--caps.drop=all"@,
        "--noroot"@,
        "--private-tmp"@,
        "--read-only=/"@,
        "--nodbus"@,
        script,
    ] + args
}

fn push_text(out: &mut Vec<String>, text: &str)
    ensures
        texts_of(final(out)@) == texts_of(old(out)@).push(text@),
{
    out.push(String::from_str(text));
    assert(texts_of(out@) =~= texts_of(old(out)@).push(text@));
}

fn push_bind(out: &mut Vec<String>, path: &str)
    ensures
        texts_of(final(out)@) == texts_of(old(out)@) + seq!["--ro-bind"@, path@, path@],
{
    push_text(out, "--ro-bind");
    push_text(out, path);
    push_text(out, path);
    assert(texts_of(out@) =~= texts_of(old(out)@) + seq!["--ro-bind"@, path@, path@]);
}

fn push_all(out: &mut Vec<String>, args: &[String])
    ensures
        texts_of(final(out)@) == texts_of(old(out)@) + texts_of(args@),
{
    let mut i: usize = 0;
    assert(texts_of(out@) =~= texts_of(old(out)@) + texts_of(args@).subrange(0, 0));
    while i < args.len()
        invariant
            i <= args@.len(),
            texts_of(out@) == texts_of(old(out)@) + texts_of(args@).subrange(0, i as int),
        decreases args@.len() - i,
    {
        let ghost before = texts_of(out@);
        out.push(args[i].clone());
        assert(texts_of(out@) =~= before.push(args@[i as int]@));
        assert(texts_of(out@) =~= texts_of(old(out)@) + texts_of(args@).subrange(0, i + 1));
        i += 1;
    }
    assert(texts_of(args@).subrange(0, i as int) =~= texts_of(args@));
}

impl SandboxRunner {
    /// The arguments for bubblewrap to run `script_path` with `args`.
    /// `lib64_exists` says whether the system has a directory `/lib64`.
    pub fn bubblewrap_command(script_path: &str, args: &[String], lib64_exists: bool) -> (r: Vec<
        String,
    >)
        ensures
            texts_of(r@) == bubblewrap_arguments(script_path@, texts_of(args@), lib64_exists),
    {
        let mut out: Vec<String> = Vec::new();
        assert(texts_of(out@) =~= Seq::<Seq<char>>::empty());
        push_bind(&mut out, "/usr");
        push_bind(&mut out, "/lib");
        assert(texts_of(out@) =~= seq![
            "--ro-bind"@,
            "/usr"@,
            "/usr"@,
            "--ro-bind"@,
            "/lib"@,
            "/lib"@,
        ]);
        if lib64_exists {
            push_bind(&mut out, "/lib64");
        }
        let ghost head = texts_of(out@);
        push_bind(&mut out, "/bin");
        push_bind(&mut out, "/sbin");
        push_bind(&mut out, "/etc/resolv.conf");
        push_bind(&mut out, "/etc/hosts");
        push_bind(&mut out, "/etc/passwd");
        push_bind(&mut out, "/etc/group");
        let ghost binds = texts_of(out@);
        assert(binds =~= head + seq![
            "--ro-bind"@,
            "/bin"@,
            "/bin"@,
            "--ro-bind"@,
            "/sbin"@,
            "/sbin"@,
            "--ro-bind"@,
            "/etc/resolv.conf"@,
            "/etc/resolv.conf"@,
            "--ro-bind"@,
            "/etc/hosts"@,
            "/etc/hosts"@,
            "--ro-bind"@,
            "/etc/passwd"@,
            "/etc/passwd"@,
            "--ro-bind"@,
            "/etc/group"@,
            "/etc/group"@,
        ]);
        push_bind(&mut out, script_path);
        push_text(&mut out, "--tmpfs");
        push_text(&mut out, "/tmp");
        push_text(&mut out, "--proc");
        push_text(&mut out, "/proc");
        push_text(&mut out, "--dev");
        push_text(&mut out, "/dev");
        push_text(&mut out, "--share-net");
        push_text(&mut out, "--new-session");
        push_text(&mut out, "--unshare-user");
        push_text(&mut out, "--unshare-pid");
        push_text(&mut out, "--unshare-ipc");
        push_text(&mut out, "--die-with-parent");
        push_text(&mut out, script_path);
        assert(texts_of(out@) =~= binds + seq![
            "--ro-bind"@,
            script_path@,
            script_path@,
            "--tmpfs"@,
            "/tmp"@,
            "--proc"@,
            "/proc"@,
            "--dev"@,
            "/dev"@,
            "--share-net"@,
            "--new-session"@,
            "--unshare-user"@,
            "--unshare-pid"@,
            "--unshare-ipc"@,
            "--die-with-parent"@,
            script_path@,
        ]);
        push_all(&mut out, args);
        out
    }

    /// The arguments for firejail to run `script_path` with `args`.
    pub fn firejail_command(script_path: &str, args: &[String]) -> (r: Vec<String>)
        ensures
            texts_of(r@) == firejail_arguments(script_path@, texts_of(args@)),
    {
        let mut out: Vec<String> = Vec::new();
        assert(texts_of(out@) =~= Seq::<Seq<char>>::empty());
        push_text(&mut out, "--quiet");
        push_text(&mut out, "--noprofile");
        push_text(&mut out, "--caps.drop=all");
        push_text(&mut out, "--noroot");
        push_text(&mut out, "--private-tmp");
        push_text(&mut out, "--read-only=/");
        push_text(&mut out, "--nodbus");
        push_text(&mut out, script_path);
        assert(texts_of(out@) =~= seq![
            "--quiet"@,
            "--noprofile"@,
            "--caps.drop=all"@,
            "--noroot"@,
            "--private-tmp"@,
            "--read-only=/"@,
            "--nodbus"@,
            script_path@,
        ]);
        push_all(&mut out, args);
        out
    }
}

} // verus!
