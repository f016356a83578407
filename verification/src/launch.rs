//! The command lines that start the llama server, the Pi agent and the
//! agent's installation, and the cleaning of canonical Windows paths.

use vstd::prelude::*;
use vstd::string::*;
use crate::layout::Location;
use crate::text::{decimal, decimal_string, digit_char, has_prefix, starts_with_text};

verus! {

/// Process creation flag: no console window.
pub const CREATE_NO_WINDOW: u32 = 0x08000000u32;

/// Process creation flag: a console window of its own.
pub const CREATE_NEW_CONSOLE: u32 = 0x00000010u32;

/// How to start the llama server.
pub struct ServerLaunch {
    /// The server executable.
    pub exe: Location,
    pub args: Vec<String>,
    /// The Windows process creation flags.
    pub creation_flags: u32,
}

/// A command to run.
pub struct CommandLine {
    pub program: String,
    pub args: Vec<String>,
    /// Environment variables set for the command, in order.
    pub env: Vec<(String, String)>,
    /// The folder the command runs in.
    pub working_dir: Location,
}

/// Why the llama server cannot be started.
#[derive(Debug, PartialEq, Eq, Structural)]
pub enum LaunchError {
    /// `llama-server.exe` is not installed for the backend.
    ServerMissing,
}

/// The llama server's arguments: the model, the address, the context window
/// and the number of GPU layers.
pub open spec fn server_args(model_path: Seq<char>, host: Seq<char>, port: u16, ctx_size: usize, n_gpu_layers: usize) -> Seq<Seq<char>> {
    seq![
        "-m"@,
        model_path,
        "--host"@,
        host,
        "--port"@,
        decimal(port as nat),
        "-c"@,
        decimal(ctx_size as nat),
        "-ngl"@,
        decimal(n_gpu_layers as nat),
    ]
}

/// The creation flags for the server: hidden, or in a console of its own.
pub open spec fn server_flags(hide_second_terminal: bool) -> u32 {
    if hide_second_terminal {
        CREATE_NO_WINDOW
    } else {
        CREATE_NEW_CONSOLE
    }
}

/// How to start the llama server of `backend` on the model at `model_path`;
/// refused when the backend's `llama-server.exe` does not exist.
pub fn llama_server_launch(
    backend: &str,
    server_exists: bool,
    model_path: &str,
    host: &str,
    port: u16,
    ctx_size: usize,
    n_gpu_layers: usize,
    hide_second_terminal: bool,
) -> (res: Result<ServerLaunch, LaunchError>)
    ensures
        !server_exists ==> res == Err::<ServerLaunch, LaunchError>(LaunchError::ServerMissing),
        server_exists ==> (res matches Ok(l) && {
            &&& (l.exe matches Location::ServerExe(b) && b@ == backend@)
            &&& l.args.deep_view() == server_args(model_path@, host@, port, ctx_size, n_gpu_layers)
            &&& l.creation_flags == server_flags(hide_second_terminal)
        }),
        server_exists ==> (res matches Ok(l) && {
            let a = l.args.deep_view();
            &&& a.len() == 10
            &&& a[0] == "-m"@ && a[1] == model_path@
            &&& a[2] == "--host"@ && a[3] == host@
            &&& a[4] == "--port"@ && a[5] == decimal(port as nat)
            &&& a[6] == "-c"@ && a[7] == decimal(ctx_size as nat)
            &&& a[8] == "-ngl"@ && a[9] == decimal(n_gpu_layers as nat)
            &&& l.creation_flags == (if hide_second_terminal { CREATE_NO_WINDOW } else { CREATE_NEW_CONSOLE })
        }),
{
    if !server_exists {
        return Err(LaunchError::ServerMissing);
    }
    let flags = if hide_second_terminal {
        CREATE_NO_WINDOW
    } else {
        CREATE_NEW_CONSOLE
    };
    let args = vec![
        String::from_str("-m"),
        String::from_str(model_path),
        String::from_str("--host"),
        String::from_str(host),
        String::from_str("--port"),
        decimal_string(port as u64),
        String::from_str("-c"),
        decimal_string(ctx_size as u64),
        String::from_str("-ngl"),
        decimal_string(n_gpu_layers as u64),
    ];
    assert(args.deep_view() =~= server_args(model_path@, host@, port, ctx_size, n_gpu_layers));
    Ok(ServerLaunch { exe: Location::ServerExe(String::from_str(backend)), args, creation_flags: flags })
}

/// The `PATH` of the agent: the portable Node.js first, then the inherited path.
pub open spec fn agent_path_env(node_dir: Seq<char>, current_path: Seq<char>) -> Seq<char> {
    node_dir + ";"@ + current_path
}

/// How to start the Pi agent: `run_pi.bat` through `cmd`, from the project
/// folder, with the agent's home as the user profile and the portable Node.js
/// first on the path. `home` and `node_dir` are the absolute folders.
pub fn pi_agent_launch(home: &str, node_dir: &str, current_path: &str) -> (res: CommandLine)
    ensures
        res.program@ == "cmd"@,
        res.args.deep_view() == seq!["/C"@, "..\\run_pi.bat"@],
        res.env.deep_view() == seq![
            ("USERPROFILE"@, home@),
            ("HOME"@, home@),
            ("PATH"@, agent_path_env(node_dir@, current_path@)),
        ],
        res.working_dir == Location::ProjectDir,
{
    let path = String::from_str(node_dir).concat(";").concat(current_path);
    let res = CommandLine {
        program: String::from_str("cmd"),
        args: vec![String::from_str("/C"), String::from_str("..\\run_pi.bat")],
        env: vec![
            (String::from_str("USERPROFILE"), String::from_str(home)),
            (String::from_str("HOME"), String::from_str(home)),
            (String::from_str("PATH"), path),
        ],
        working_dir: Location::ProjectDir,
    };
    assert(res.args.deep_view() =~= seq!["/C"@, "..\\run_pi.bat"@]);
    assert(res.env.deep_view() =~= seq![
        ("USERPROFILE"@, home@),
        ("HOME"@, home@),
        ("PATH"@, agent_path_env(node_dir@, current_path@)),
    ]);
    res
}

/// How to install the Pi agent with npm into the workspace, without running
/// package scripts. `npm_path` is the path of the portable `npm.cmd`.
pub fn pi_agent_install(npm_path: &str) -> (res: CommandLine)
    ensures
        res.program@ == "cmd"@,
        res.args.deep_view() == seq![
            "/C"@,
            npm_path@,
            "install"@,
            "--ignore-scripts"@,
            "@earendil-works/pi-coding-agent"@,
        ],
        res.env@.len() == 0,
        res.working_dir == Location::Workspace,
{
    let res = CommandLine {
        program: String::from_str("cmd"),
        args: vec![
            String::from_str("/C"),
            String::from_str(npm_path),
            String::from_str("install"),
            String::from_str("--ignore-scripts"),
            String::from_str("@earendil-works/pi-coding-agent"),
        ],
        env: Vec::new(),
        working_dir: Location::Workspace,
    };
    assert(res.args.deep_view() =~= seq![
        "/C"@,
        npm_path@,
        "install"@,
        "--ignore-scripts"@,
        "@earendil-works/pi-coding-agent"@,
    ]);
    res
}

/// The prefix that marks a Windows verbatim path.
pub open spec fn verbatim_prefix() -> Seq<char> {
    "\\\\?\\"@
}

/// A canonical path without its verbatim prefix: the rest of the text when it
/// starts with `\\?\`, `None` when it does not (and the path stays as it is).
pub fn strip_verbatim_prefix(canonical: &str) -> (res: Option<String>)
    ensures
        has_prefix(canonical@, verbatim_prefix()) ==> (res matches Some(r) && r@ == canonical@.skip(
            verbatim_prefix().len() as int,
        )),
        !has_prefix(canonical@, verbatim_prefix()) ==> res is None,
{
    let prefix = "\\\\?\\";
    if starts_with_text(canonical, prefix) {
        let from = prefix.unicode_len();
        let to = canonical.unicode_len();
        let rest = canonical.substring_char(from, to);
        assert(rest@ =~= canonical@.skip(verbatim_prefix().len() as int));
        Some(String::from_str(rest))
    } else {
        None
    }
}

/// Each setting reaches the server as the value after its flag: the model
/// path after `-m`, the host after `--host`, and the port, the context size
/// and the GPU layer count in decimal after `--port`, `-c` and `-ngl`.
pub proof fn server_args_carry_the_settings(
    model_path: Seq<char>,
    host: Seq<char>,
    port: u16,
    ctx_size: usize,
    n_gpu_layers: usize,
)
    ensures
        ({
            let a = server_args(model_path, host, port, ctx_size, n_gpu_layers);
            &&& a.len() == 10
            &&& a[0] == "-m"@ && a[1] == model_path
            &&& a[2] == "--host"@ && a[3] == host
            &&& a[4] == "--port"@ && a[5] == decimal(port as nat)
            &&& a[6] == "-c"@ && a[7] == decimal(ctx_size as nat)
            &&& a[8] == "-ngl"@ && a[9] == decimal(n_gpu_layers as nat)
        }),
{
}

/// Distinct numbers have distinct decimal texts, so a setting cannot be
/// rendered as the text of another value.
pub proof fn decimal_is_injective(m: nat, n: nat)
    requires
        m != n,
    ensures
        decimal(m) != decimal(n),
    decreases m + n,
{
    if m < 10 && n < 10 {
        assert(decimal(m)[0] != decimal(n)[0]);
    } else if m < 10 {
        decimal_len_grows(n);
        assert(decimal(m).len() == 1);
    } else if n < 10 {
        decimal_len_grows(m);
        assert(decimal(n).len() == 1);
    } else {
        let dm = decimal(m);
        let dn = decimal(n);
        if dm == dn {
            assert(dm.last() == dn.last());
            assert(dm.drop_last() == decimal(m / 10));
            assert(dn.drop_last() == decimal(n / 10));
            if m / 10 != n / 10 {
                decimal_is_injective(m / 10, n / 10);
                assert(dm.drop_last() != dn.drop_last());
            } else {
                assert(m % 10 != n % 10);
                assert(digit_char((m % 10) as int) != digit_char((n % 10) as int));
            }
        }
    }
}

/// Numbers of two or more digits render with at least two characters.
proof fn decimal_len_grows(n: nat)
    requires
        n >= 10,
    ensures
        decimal(n).len() >= 2,
    decreases n,
{
    if n / 10 >= 10 {
        decimal_len_grows(n / 10);
    } else {
        assert(decimal(n / 10).len() == 1);
    }
    assert(decimal(n) == decimal(n / 10).push(digit_char((n % 10) as int)));
}

} // verus!
