//! Where the configuration is read from.

use vstd::prelude::*;

verus! {

/// The file holding the settings of every run mode.
pub open spec fn base_config_file() -> Seq<char> {
    "resources/config/config"@
}

/// The optional file holding the settings of one run mode.
pub open spec fn mode_config_file(run_mode: Seq<char>) -> Seq<char> {
    "resources/config/config-"@ + run_mode
}

/// `resources/config/config`.
pub fn base_config_path() -> (r: String)
    ensures
        r@ == base_config_file(),
{
    String::from_str("resources/config/config")
}

/// `resources/config/config-<run_mode>`.
pub fn mode_config_path(run_mode: &str) -> (r: String)
    ensures
        r@ == mode_config_file(run_mode@),
{
    let mut s = String::from_str("resources/config/config-");
    s.append(run_mode);
    s
}

} // verus!
