//! The scaffold subcommand's data: its (empty) argument set and the sample
//! configuration text it writes into a repository that has none yet.
use vstd::prelude::*;
use vstd::string::StringExecFns;

verus! {

/// Arguments of the scaffold subcommand.
#[derive(Debug)]
pub struct Init {}

/// The text of the sample configuration.
pub open spec fn sample_text() -> Seq<char> {
    (
    "
# prefix - a git hook manager
#
# git hook names are provided as top level yaml
# keys which contain
# named actions to run
#
# run `prefix install` to install this actions as git hooks
# you can manually invoke these by providing the name of the hook to run `prefix run pre-commit`
pre-commit:
  # short hand notation is just
  # the name of the action followed by a command to run
  test: echo \"it works\"

  # a more configurable notation
  # is as follows
  #test:
  #  exclude: *.tmp
  #  run: |
  #    echo \"it works\"
")@
}

/// The sample configuration written by the scaffold.
pub fn sample() -> (r: String)
    ensures
        r@ == sample_text(),
{
    String::from_str(
        "
# prefix - a git hook manager
#
# git hook names are provided as top level yaml
# keys which contain
# named actions to run
#
# run `prefix install` to install this actions as git hooks
# you can manually invoke these by providing the name of the hook to run `prefix run pre-commit`
pre-commit:
  # short hand notation is just
  # the name of the action followed by a command to run
  test: echo \"it works\"

  # a more configurable notation
  # is as follows
  #test:
  #  exclude: *.tmp
  #  run: |
  #    echo \"it works\"
",
    )
}

} // verus!
