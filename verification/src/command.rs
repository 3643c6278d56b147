//! Translation of a resolved binary into the command the host launches.

use vstd::prelude::*;
use vstd::string::*;

verus! {

/// The launchable command surface handed to the host: a program, its
/// ordered arguments — the protocol-mode flag always comes last — and an
/// environment override map, empty by default.
pub struct ResolvedCommand {
    pub program: String,
    pub args: Vec<String>,
    pub env: Vec<(String, String)>,
}

/// Name of the variable through which an operator supplies an explicit host
/// runtime binary.
pub fn host_runtime_variable_name() -> (r: String)
    ensures
        r@ == "WC_NODE_BINARY"@,
{
    String::from_str("WC_NODE_BINARY")
}

/// The host runtime to launch interpreted artifacts with: the operator's
/// explicit choice when present, otherwise the one the host discovered.
pub fn choose_host_runtime(override_path: Option<String>, discovered: String) -> (r: String)
    ensures
        match override_path {
            Some(p) => r@ == p@,
            None => r@ == discovered@,
        },
{
    match override_path {
        Some(p) => p,
        None => discovered,
    }
}

/// Builds the launch command for a resolved binary.
///
/// A directly executable binary is the program itself; an interpreted one is
/// run through the host runtime with its path as the first argument. Either
/// way the protocol-mode flag is appended last and the environment is empty.
pub fn build_command(
    binary_path: &String,
    requires_host_runtime: bool,
    host_runtime: &String,
) -> (c: ResolvedCommand)
    ensures
        c.env@.len() == 0,
        c.args@.len() > 0 && c.args@.last()@ == "--stdio"@,
        requires_host_runtime ==> c.program@ == host_runtime@ && c.args@.len() == 2 && c.args@[0]@
            == binary_path@,
        !requires_host_runtime ==> c.program@ == binary_path@ && c.args@.len() == 1,
{
    let mut args: Vec<String> = Vec::new();
    let program = if requires_host_runtime {
        args.push(binary_path.clone());
        host_runtime.clone()
    } else {
        binary_path.clone()
    };
    args.push(String::from_str("--stdio"));
    ResolvedCommand { program, args, env: Vec::new() }
}

} // verus!
