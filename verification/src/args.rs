//! Command-line argument descriptions for the options forwarded to
//! `mmapplypolicy`.
//!
//! Argument parsing itself belongs to an external collaborator; this module
//! only fixes, as plain data, what each forwarded argument looks like: only
//! long options, all prefixed with `--mm`, grouped under one help heading and
//! hidden in short help. Each description corresponds one-to-one to a field
//! of [`crate::run::Options`].

use vstd::prelude::*;

verus! {

/// Description of one command-line argument.
pub struct ArgSpec {
    /// The argument's internal identifier.
    pub id: String,
    /// The long option name (without the leading dashes).
    pub long: String,
    /// The long help text.
    pub long_help: String,
    /// The name shown for the argument's value.
    pub value_name: String,
    /// The help heading the argument is grouped under.
    pub help_heading: String,
    /// Whether the argument is hidden in short help.
    pub hide_short_help: bool,
    /// Whether the value is a path rather than a plain string.
    pub takes_path: bool,
}

/// The help heading shared by all forwarded arguments.
pub open spec fn help_heading_text() -> Seq<char> {
    "Forwarded to `mmapplypolicy`"@
}

/// What every forwarded argument has in common: the shared heading, and
/// being hidden in short help.
pub open spec fn is_forwarded_arg(a: ArgSpec) -> bool {
    a.help_heading@ == help_heading_text() && a.hide_short_help
}

/// The argument forwarded to `mmapplypolicy -I`.
pub open spec fn is_action_arg(a: ArgSpec) -> bool {
    &&& is_forwarded_arg(a)
    &&& a.id@ == "mm-action"@
    &&& a.long@ == "mm-I"@
    &&& a.long_help@ == "Action performed on files, used with `mmapplypolicy -I`."@
    &&& a.value_name@ == "yes|defer|test|prepare"@
    &&& !a.takes_path
}

/// The argument forwarded to `mmapplypolicy --choice-algorithm`.
pub open spec fn is_choice_algorithm_arg(a: ArgSpec) -> bool {
    &&& is_forwarded_arg(a)
    &&& a.id@ == "mm-choice-algorithm"@
    &&& a.long@ == "mm-choice-algorithm"@
    &&& a.long_help@
        == "Algorithm to select candidate files, used with `mmapplypolicy --choice-algorithm`."@
    &&& a.value_name@ == "best|exact|fast"@
    &&& !a.takes_path
}

/// The argument forwarded to `mmapplypolicy -g`.
pub open spec fn is_global_work_dir_arg(a: ArgSpec) -> bool {
    &&& is_forwarded_arg(a)
    &&& a.id@ == "mm-global-work-dir"@
    &&& a.long@ == "mm-g"@
    &&& a.long_help@ == "Global work directory, used with `mmapplypolicy -g`."@
    &&& a.value_name@ == "DIR"@
    &&& a.takes_path
}

/// The argument forwarded to `mmapplypolicy -L`.
pub open spec fn is_information_level_arg(a: ArgSpec) -> bool {
    &&& is_forwarded_arg(a)
    &&& a.id@ == "mm-information-level"@
    &&& a.long@ == "mm-L"@
    &&& a.long_help@ == "Information level, used with `mmapplypolicy -L`."@
    &&& a.value_name@ == "0|1|...|6"@
    &&& !a.takes_path
}

/// The argument forwarded to `mmapplypolicy -s`.
pub open spec fn is_local_work_dir_arg(a: ArgSpec) -> bool {
    &&& is_forwarded_arg(a)
    &&& a.id@ == "mm-local-work-dir"@
    &&& a.long@ == "mm-s"@
    &&& a.long_help@ == "Local work directory, used with `mmapplypolicy -s`."@
    &&& a.value_name@ == "DIR"@
    &&& a.takes_path
}

/// The argument forwarded to `mmapplypolicy -N`.
pub open spec fn is_nodes_arg(a: ArgSpec) -> bool {
    &&& is_forwarded_arg(a)
    &&& a.id@ == "mm-nodes"@
    &&& a.long@ == "mm-N"@
    &&& a.long_help@ == "List of nodes, used with `mmapplypolicy -N`."@
    &&& a.value_name@ == "all|mount|Node,...|NodeFile|NodeClass"@
    &&& !a.takes_path
}

/// Returns the argument forwarded to `mmapplypolicy -I`.
pub fn arg_action() -> (a: ArgSpec)
    ensures
        is_action_arg(a),
{
    ArgSpec {
        id: "mm-action".to_owned(),
        long: "mm-I".to_owned(),
        long_help: "Action performed on files, used with `mmapplypolicy -I`.".to_owned(),
        value_name: "yes|defer|test|prepare".to_owned(),
        help_heading: "Forwarded to `mmapplypolicy`".to_owned(),
        hide_short_help: true,
        takes_path: false,
    }
}

/// Returns the argument forwarded to `mmapplypolicy --choice-algorithm`.
pub fn arg_choice_algorithm() -> (a: ArgSpec)
    ensures
        is_choice_algorithm_arg(a),
{
    ArgSpec {
        id: "mm-choice-algorithm".to_owned(),
        long: "mm-choice-algorithm".to_owned(),
        long_help: "Algorithm to select candidate files, used with `mmapplypolicy --choice-algorithm`.".to_owned(),
        value_name: "best|exact|fast".to_owned(),
        help_heading: "Forwarded to `mmapplypolicy`".to_owned(),
        hide_short_help: true,
        takes_path: false,
    }
}

/// Returns the argument forwarded to `mmapplypolicy -g`.
pub fn arg_global_work_dir() -> (a: ArgSpec)
    ensures
        is_global_work_dir_arg(a),
{
    ArgSpec {
        id: "mm-global-work-dir".to_owned(),
        long: "mm-g".to_owned(),
        long_help: "Global work directory, used with `mmapplypolicy -g`.".to_owned(),
        value_name: "DIR".to_owned(),
        help_heading: "Forwarded to `mmapplypolicy`".to_owned(),
        hide_short_help: true,
        takes_path: true,
    }
}

/// Returns the argument forwarded to `mmapplypolicy -L`.
pub fn arg_information_level() -> (a: ArgSpec)
    ensures
        is_information_level_arg(a),
{
    ArgSpec {
        id: "mm-information-level".to_owned(),
        long: "mm-L".to_owned(),
        long_help: "Information level, used with `mmapplypolicy -L`.".to_owned(),
        value_name: "0|1|...|6".to_owned(),
        help_heading: "Forwarded to `mmapplypolicy`".to_owned(),
        hide_short_help: true,
        takes_path: false,
    }
}

/// Returns the argument forwarded to `mmapplypolicy -s`.
pub fn arg_local_work_dir() -> (a: ArgSpec)
    ensures
        is_local_work_dir_arg(a),
{
    ArgSpec {
        id: "mm-local-work-dir".to_owned(),
        long: "mm-s".to_owned(),
        long_help: "Local work directory, used with `mmapplypolicy -s`.".to_owned(),
        value_name: "DIR".to_owned(),
        help_heading: "Forwarded to `mmapplypolicy`".to_owned(),
        hide_short_help: true,
        takes_path: true,
    }
}

/// Returns the argument forwarded to `mmapplypolicy -N`.
pub fn arg_nodes() -> (a: ArgSpec)
    ensures
        is_nodes_arg(a),
{
    ArgSpec {
        id: "mm-nodes".to_owned(),
        long: "mm-N".to_owned(),
        long_help: "List of nodes, used with `mmapplypolicy -N`.".to_owned(),
        value_name: "all|mount|Node,...|NodeFile|NodeClass".to_owned(),
        help_heading: "Forwarded to `mmapplypolicy`".to_owned(),
        hide_short_help: true,
        takes_path: false,
    }
}

/// Returns all arguments.
pub fn args_all() -> (args: Vec<ArgSpec>)
    ensures
        args@.len() == 6,
        is_nodes_arg(args@[0]),
        is_local_work_dir_arg(args@[1]),
        is_global_work_dir_arg(args@[2]),
        is_action_arg(args@[3]),
        is_information_level_arg(args@[4]),
        is_choice_algorithm_arg(args@[5]),
{
    let mut args: Vec<ArgSpec> = Vec::new();
    args.push(arg_nodes());
    args.push(arg_local_work_dir());
    args.push(arg_global_work_dir());
    args.push(arg_action());
    args.push(arg_information_level());
    args.push(arg_choice_algorithm());
    args
}

/// Returns the arguments used for parallel execution `-N`, `-s`, and `-g`.
pub fn args_parallel() -> (args: Vec<ArgSpec>)
    ensures
        args@.len() == 3,
        is_nodes_arg(args@[0]),
        is_local_work_dir_arg(args@[1]),
        is_global_work_dir_arg(args@[2]),
{
    let mut args: Vec<ArgSpec> = Vec::new();
    args.push(arg_nodes());
    args.push(arg_local_work_dir());
    args.push(arg_global_work_dir());
    args
}

} // verus!
