//! Resolution of the target file path: an environment override when one is
//! set, a fixed default path otherwise.

use vstd::prelude::*;
use vstd::string::*;

verus! {

/// The default path of the managed file.
pub open spec fn spec_default_path() -> Seq<char> {
    "/etc/resolvconf/resolv.conf.d/head"@
}

/// The name of the environment variable that overrides the target path.
pub fn resolvconf_head_env_var() -> (r: &'static str)
    ensures
        r@ == "RESOLVCONF_HEAD_PATH"@,
{
    "RESOLVCONF_HEAD_PATH"
}

pub fn resolvconf_head_default_path() -> (r: &'static str)
    ensures
        r@ == spec_default_path(),
{
    "/etc/resolvconf/resolv.conf.d/head"
}

/// The target file path. `env_value` is the value of the override variable
/// where it is set (any value counts as set, the empty string included);
/// the result is exactly that value, or the fixed default when none is set.
pub fn get_path(env_value: Option<String>) -> (r: String)
    ensures
        match env_value {
            Some(v) => r@ == v@,
            None => r@ == spec_default_path(),
        },
{
    match env_value {
        Some(v) => v,
        None => String::from_str(resolvconf_head_default_path()),
    }
}

} // verus!
