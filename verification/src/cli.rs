//! Construction of a configuration from command-line arguments.
//!
//! Argument handling is thin glue around the core: flag recognition and help
//! text live with the caller, which hands the chosen settings to
//! [`crate::config::ConfigBuilder`] one by one. This entry point only
//! supplies the defaults for an invocation that sets nothing.

use vstd::prelude::*;
use crate::config::{Config, ConfigBuilder, is_default_config};

verus! {

/// Parse the CLI arguments to construct the desired configuration for this
/// execution of the program. Arguments carry no settings of their own here:
/// the result is the default configuration, and callers that recognise flags
/// apply them through [`ConfigBuilder`] afterwards.
pub fn parse_cli_args(args: Vec<String>) -> (c: Config)
    ensures
        is_default_config(c),
{
    let _ = args;
    let config_builder = ConfigBuilder::default();
    config_builder.build()
}

} // verus!
