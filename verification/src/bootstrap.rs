//! The lifecycle bootstrapper: how a worker gets launched.
//!
//! The launch strategy is fixed at build/configuration time: either a bundled
//! self-contained worker executable, or an interpreter pointed at a worker
//! script (development configurations only). Whichever is chosen, the worker
//! runs in daemon mode and is spawned with one environment override that
//! forces the legacy, non-restricted model-deserialization behaviour, because
//! the worker loads trusted model artifacts in a format that newer
//! default-secure loaders reject. The surrounding program performs the actual
//! spawn from the plan built here.

use vstd::prelude::*;
use vstd::string::StringExecFns;

verus! {

/// How the worker binary is located, decided once at build/configuration
/// time, never at runtime.
#[derive(Debug, PartialEq, Eq)]
pub enum LaunchStrategy {
    /// A bundled self-contained worker executable, launched directly.
    Packaged { program: String },
    /// An interpreter binary pointed at a worker script, with unbuffered
    /// output so lines arrive as the worker emits them.
    Interpreter { interpreter: String, script: String },
}

/// Everything a spawn needs: the program, its arguments in order, and the
/// one environment override to apply before spawning.
#[derive(Debug, PartialEq, Eq)]
pub struct LaunchPlan {
    pub program: String,
    pub args: Vec<String>,
    pub env_key: String,
    pub env_value: String,
}

/// The environment override forcing legacy model deserialization in the
/// worker.
pub open spec fn legacy_load_env_key() -> Seq<char> {
    "TORCH_FORCE_NO_WEIGHTS_ONLY_LOAD"@
}

/// Builds the spawn plan for a strategy: the worker is always started in
/// daemon mode, and the plan always carries the legacy-deserialization
/// override set to `1`.
pub fn launch_plan(strategy: &LaunchStrategy) -> (p: LaunchPlan)
    ensures
        p.env_key@ == legacy_load_env_key(),
        p.env_value@ == "1"@,
        strategy matches LaunchStrategy::Packaged { program } ==> {
            &&& p.program@ == program@
            &&& p.args@.len() == 1
            &&& p.args@[0]@ == "--daemon"@
        },
        strategy matches LaunchStrategy::Interpreter { interpreter, script } ==> {
            &&& p.program@ == interpreter@
            &&& p.args@.len() == 3
            &&& p.args@[0]@ == "-u"@
            &&& p.args@[1]@ == script@
            &&& p.args@[2]@ == "--daemon"@
        },
{
    let mut args: Vec<String> = Vec::new();
    let program: String;
    match strategy {
        LaunchStrategy::Packaged { program: prog } => {
            program = prog.clone();
            args.push(String::from_str("--daemon"));
        },
        LaunchStrategy::Interpreter { interpreter, script } => {
            program = interpreter.clone();
            args.push(String::from_str("-u"));
            args.push(script.clone());
            args.push(String::from_str("--daemon"));
        },
    }
    LaunchPlan {
        program,
        args,
        env_key: String::from_str("TORCH_FORCE_NO_WEIGHTS_ONLY_LOAD"),
        env_value: String::from_str("1"),
    }
}

} // verus!
