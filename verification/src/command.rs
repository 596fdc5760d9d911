//! Resolving the command line that launches the Haskell language server.
//!
//! The host editor supplies three inputs per resolution: the project's
//! language-server settings (which may carry a user override for the
//! binary), the result of searching the shell's executable path for the
//! toolchain wrapper binary, and the project's inherited shell
//! environment. Resolution is a pure decision over those inputs.

use vstd::prelude::*;

verus! {

/// A user override for the language-server binary: an executable path and
/// an optional argument list.
pub struct BinarySettings {
    pub path: Option<String>,
    pub arguments: Option<Vec<String>>,
}

/// The slice of the project's language-server settings that resolution
/// reads: an optional binary override.
pub struct LspSettings {
    pub binary: Option<BinarySettings>,
}

/// Everything the host needs to spawn the language server: the executable,
/// its arguments, and the environment variables for the child process.
#[derive(Debug)]
pub struct LaunchCommand {
    pub command: String,
    pub args: Vec<String>,
    pub env: Vec<(String, String)>,
}

/// The executable path that the settings override supplies, if any. An
/// override without a path counts as no override.
pub open spec fn override_path(settings: LspSettings) -> Option<String> {
    match settings.binary {
        Some(binary) => binary.path,
        None => None,
    }
}

/// The argument list that an override resolves to: the explicit list if one
/// was given, the empty list otherwise.
pub open spec fn override_args(settings: LspSettings) -> Seq<Seq<char>> {
    match settings.binary {
        Some(binary) => match binary.arguments {
            Some(args) => args.deep_view(),
            None => Seq::empty(),
        },
        None => Seq::empty(),
    }
}

/// Name of the toolchain-managed wrapper binary that the resolver expects
/// the host to look up on the executable search path when no override is
/// configured.
pub fn wrapper_binary_name() -> (r: &'static str)
    ensures
        r@ == "haskell-language-server-wrapper"@,
{
    "haskell-language-server-wrapper"
}

/// Resolve the launch command for the language server.
///
/// An explicit executable path in the settings wins unconditionally, with
/// the explicit argument list or none. Otherwise the wrapper binary found
/// on the search path is used with the single argument that selects its
/// protocol-serving subcommand. Either way the command inherits the shell
/// environment. With neither an override nor a discovered wrapper,
/// resolution fails with a message pointing at the toolchain installer.
pub fn language_server_command(
    settings: LspSettings,
    wrapper_path: Option<String>,
    shell_env: Vec<(String, String)>,
) -> (r: Result<LaunchCommand, String>)
    ensures
        override_path(settings) matches Some(path) ==> (r matches Ok(c) && c.command@ == path@
            && c.args.deep_view() == override_args(settings) && c.env == shell_env),
        override_path(settings) is None ==> (match wrapper_path {
            Some(path) => r matches Ok(c) && c.command@ == path@ && c.args.deep_view() =~= seq![
                "lsp"@,
            ] && c.env == shell_env,
            None => r matches Err(e) && e@ == "hls must be installed via ghcup"@,
        }),
{
    let ghost expected_args = override_args(settings);
    if let Some(binary) = settings.binary {
        if let Some(path) = binary.path {
            let args: Vec<String> = match binary.arguments {
                Some(explicit) => explicit,
                None => Vec::new(),
            };
            proof {
                assert(args.deep_view() =~= expected_args);
            }
            return Ok(LaunchCommand { command: path, args, env: shell_env });
        }
    }
    match wrapper_path {
        Some(path) => {
            let mut args: Vec<String> = Vec::new();
            args.push("lsp".to_owned());
            proof {
                assert(args.deep_view() =~= seq!["lsp"@]);
            }
            Ok(LaunchCommand { command: path, args, env: shell_env })
        },
        None => Err("hls must be installed via ghcup".to_owned()),
    }
}

} // verus!
