//! The install subcommand's data: its arguments and the trigger script that
//! is written into the hook directory for every client-side hook.
use vstd::prelude::*;
use vstd::string::StringExecFns;

verus! {

/// Arguments of the install subcommand.
#[derive(Debug)]
pub struct Install {
    /// when a hook script of the same name exists, overwrite it
    pub force: bool,
}

/// The text of the trigger script.
pub open spec fn script_text() -> Seq<char> {
    (
    "
#!/bin/sh
hook_name=$(basename \"$0\")
git_args=\"$*\"
cargo +nightly run -q -- run $hook_name -- $git_args
")@
}

/// The trigger script installed for every client-side hook.
pub fn script() -> (r: String)
    ensures
        r@ == script_text(),
{
    String::from_str(
        "
#!/bin/sh
hook_name=$(basename \"$0\")
git_args=\"$*\"
cargo +nightly run -q -- run $hook_name -- $git_args
",
    )
}

} // verus!
