//! The orchestrator's decisions: validating the report prefix, building the
//! external command line, interpreting the process outcome and computing the
//! report paths.
//!
//! One policy run is a one-shot protocol: write the rendered policy to a
//! file, invoke the `mmapplypolicy` engine with a fixed-order argument
//! vector, wait for it, and on success derive the report paths from the
//! policy's rules and the report prefix. Everything the protocol decides is
//! computed here, with contracts; the caller performs the file and process
//! work and feeds the outcomes back (see [`exit_result`], [`spawn_error`],
//! [`wait_error`]).

use vstd::prelude::*;
use vstd::string::StringExecFns;

use crate::types::{Policy, Rule, RuleType};
use crate::write::{dec_int, policy_text, push_i32};

verus! {

/// Errors.
#[derive(Debug, PartialEq, Eq, Clone)]
#[non_exhaustive]
pub enum Error {
    /// Error when running `mmapplypolicy`: the process could not be started
    /// or waited on. Carries a phase label and the underlying cause.
    ApplyPolicy(String, String),
    /// Error when running `mmapplypolicy`: the process ran and reported
    /// failure. Carries a message including the exit code when available.
    ApplyPolicyFailed(String),
    /// Create policy file. Carries the path and the underlying cause.
    CreatePolicyFile(String, String),
    /// Invalid file list prefix.
    InvalidFileListPrefix(String),
    /// Write policy to file. Carries the path and the underlying cause.
    WritePolicy(String, String),
}

/// The human-readable message of an error value.
pub open spec fn error_text(e: Error) -> Seq<char> {
    match e {
        Error::ApplyPolicy(label, cause) => label@ + ": "@ + cause@,
        Error::ApplyPolicyFailed(message) => message@,
        Error::CreatePolicyFile(path, cause) => "creating policy file `"@ + path@ + "`: "@
            + cause@,
        Error::InvalidFileListPrefix(message) => message@,
        Error::WritePolicy(path, cause) => "writing policy file to `"@ + path@ + "`: "@ + cause@,
    }
}

impl Error {
    /// Returns the human-readable message for this error.
    pub fn message(&self) -> (r: String)
        ensures
            r@ == error_text(*self),
    {
        match self {
            Error::ApplyPolicy(label, cause) => {
                let mut out = label.clone();
                out.append(": ");
                out.append(cause.as_str());
                out
            },
            Error::ApplyPolicyFailed(message) => message.clone(),
            Error::CreatePolicyFile(path, cause) => {
                let mut out = String::from_str("creating policy file `");
                out.append(path.as_str());
                out.append("`: ");
                out.append(cause.as_str());
                out
            },
            Error::InvalidFileListPrefix(message) => message.clone(),
            Error::WritePolicy(path, cause) => {
                let mut out = String::from_str("writing policy file to `");
                out.append(path.as_str());
                out.append("`: ");
                out.append(cause.as_str());
                out
            },
        }
    }
}

/// Options for running `mmapplypolicy`.
///
/// Each field corresponds one-to-one to a command-line switch of the engine;
/// an absent field omits its switch.
#[derive(Clone, Debug)]
pub struct Options {
    /// The choice algorithm used with `--choice-algorithm`.
    pub choice_algorithm: Option<String>,
    /// The nodes for parallel execution used with `-N`.
    pub nodes: Option<String>,
    /// The local work directory for parallel execution used with `-s`.
    pub local_work_dir: Option<String>,
    /// The global work directory for parallel execution used with `-g`.
    pub global_work_dir: Option<String>,
    /// The action performed on files used with `-I`.
    pub action: Option<String>,
    /// The level of information displayed used with `-L`.
    pub information_level: Option<String>,
}

impl Default for Options {
    /// Returns options with every field absent.
    fn default() -> (o: Self)
        ensures
            o.choice_algorithm is None,
            o.nodes is None,
            o.local_work_dir is None,
            o.global_work_dir is None,
            o.action is None,
            o.information_level is None,
    {
        Options {
            choice_algorithm: None,
            nodes: None,
            local_work_dir: None,
            global_work_dir: None,
            action: None,
            information_level: None,
        }
    }
}

/// What the caller knows about the report-prefix path.
///
/// The orchestrator never touches the file system itself: the caller reports
/// here, as plain values, what the logic reads of the path it was given.
#[derive(Debug, Clone)]
pub struct ReportPrefix {
    /// The path as given.
    pub path: String,
    /// Whether the path exists as a directory.
    pub is_dir: bool,
    /// The final path component, if the path has one.
    pub file_name: Option<String>,
    /// The path with its final component removed (empty when there is no
    /// leading component), used when a sibling file name is substituted.
    pub parent: String,
}

/// The binary name of the external policy engine.
pub fn engine_binary() -> (r: &'static str)
    ensures
        r@ == "mmapplypolicy"@,
{
    "mmapplypolicy"
}

// ------------------------------------------------------------------------
// prefix validation
// ------------------------------------------------------------------------

/// A supplied report prefix is invalid when it neither exists as a directory
/// nor has a final path component usable as a file-name stem.
pub open spec fn prefix_is_invalid(prefix: Option<ReportPrefix>) -> bool {
    match prefix {
        Some(p) => !p.is_dir && p.file_name is None,
        None => false,
    }
}

/// The message carried by [`Error::InvalidFileListPrefix`].
pub open spec fn invalid_prefix_text() -> Seq<char> {
    "prefix needs to be either an existing directory or have a file name component in its path"@
}

/// Rejects an invalid report prefix, before any file or process work.
pub fn check_prefix(prefix: &Option<ReportPrefix>) -> (r: Result<(), Error>)
    ensures
        r is Err <==> prefix_is_invalid(*prefix),
        r matches Err(e) ==> e matches Error::InvalidFileListPrefix(m) && m@
            == invalid_prefix_text(),
{
    match prefix {
        Some(p) => {
            if !p.is_dir && p.file_name.is_none() {
                Err(
                    Error::InvalidFileListPrefix(
                        String::from_str(
                            "prefix needs to be either an existing directory or have a file name component in its path",
                        ),
                    ),
                )
            } else {
                Ok(())
            }
        },
        None => Ok(()),
    }
}

// ------------------------------------------------------------------------
// the command line
// ------------------------------------------------------------------------

/// The two-element argument segment for one optional switch: present iff the
/// value is present.
pub open spec fn opt_arg(flag: Seq<char>, value: Option<String>) -> Seq<Seq<char>> {
    match value {
        Some(s) => seq![flag, s@],
        None => Seq::empty(),
    }
}

/// The `-f` segment: present iff a report prefix was supplied.
pub open spec fn prefix_arg(prefix: Option<ReportPrefix>) -> Seq<Seq<char>> {
    match prefix {
        Some(p) => seq!["-f"@, p.path@],
        None => Seq::empty(),
    }
}

/// The full argument vector for the engine, in its fixed order: the
/// positional target, `-P <policy file>`, then one segment per populated
/// option.
pub open spec fn command_args_spec(
    target: Seq<char>,
    policy_path: Seq<char>,
    prefix: Option<ReportPrefix>,
    options: Options,
) -> Seq<Seq<char>> {
    seq![target, "-P"@, policy_path] + opt_arg("-I"@, options.action) + opt_arg(
        "-L"@,
        options.information_level,
    ) + opt_arg("--choice-algorithm"@, options.choice_algorithm) + prefix_arg(prefix) + opt_arg(
        "-N"@,
        options.nodes,
    ) + opt_arg("-s"@, options.local_work_dir) + opt_arg("-g"@, options.global_work_dir)
}

fn push_opt_arg(args: &mut Vec<String>, flag: &str, value: &Option<String>)
    ensures
        final(args).deep_view() == old(args).deep_view() + opt_arg(flag@, *value),
{
    match value {
        Some(s) => {
            args.push(flag.to_owned());
            args.push(s.clone());
            proof {
                assert(args.deep_view() =~= old(args).deep_view() + opt_arg(flag@, *value));
            }
        },
        None => {
            proof {
                assert(args.deep_view() =~= old(args).deep_view() + opt_arg(flag@, *value));
            }
        },
    }
}

/// Builds the engine's argument vector (everything after the binary name).
pub fn command_args(
    target: &str,
    policy_path: &str,
    prefix: &Option<ReportPrefix>,
    options: &Options,
) -> (args: Vec<String>)
    ensures
        args.deep_view() == command_args_spec(target@, policy_path@, *prefix, *options),
{
    let mut args: Vec<String> = Vec::new();
    args.push(target.to_owned());
    args.push("-P".to_owned());
    args.push(policy_path.to_owned());
    proof {
        assert(args.deep_view() =~= seq![target@, "-P"@, policy_path@]);
    }
    push_opt_arg(&mut args, "-I", &options.action);
    push_opt_arg(&mut args, "-L", &options.information_level);
    push_opt_arg(&mut args, "--choice-algorithm", &options.choice_algorithm);
    let ghost before_prefix = args.deep_view();
    match prefix {
        Some(p) => {
            args.push("-f".to_owned());
            args.push(p.path.clone());
            proof {
                assert(args.deep_view() =~= before_prefix + prefix_arg(*prefix));
            }
        },
        None => {
            proof {
                assert(args.deep_view() =~= before_prefix + prefix_arg(*prefix));
            }
        },
    }
    push_opt_arg(&mut args, "-N", &options.nodes);
    push_opt_arg(&mut args, "-s", &options.local_work_dir);
    push_opt_arg(&mut args, "-g", &options.global_work_dir);
    proof {
        assert(args.deep_view() =~= command_args_spec(target@, policy_path@, *prefix, *options));
    }
    args
}

// ------------------------------------------------------------------------
// standard output of the child
// ------------------------------------------------------------------------

/// How the child process's standard output is to be handled.
#[derive(Clone, Copy, Debug, PartialEq, Eq, Structural)]
pub enum StdoutMode {
    /// No information level was requested: leave standard output alone.
    Inherit,
    /// Information level `"0"`: discard standard output.
    Discard,
    /// Any other information level: forward standard output to the calling
    /// process's error stream.
    ToStderr,
}

/// The standard-output handling that the options call for: discarded exactly
/// when the information level is the literal `"0"`, forwarded to the error
/// stream for any other requested level.
pub open spec fn stdout_mode_spec(options: Options) -> StdoutMode {
    match options.information_level {
        None => StdoutMode::Inherit,
        Some(level) => if level@ == "0"@ {
            StdoutMode::Discard
        } else {
            StdoutMode::ToStderr
        },
    }
}

/// Decides how the child's standard output is to be handled.
pub fn stdout_mode(options: &Options) -> (m: StdoutMode)
    ensures
        m == stdout_mode_spec(*options),
{
    match &options.information_level {
        None => StdoutMode::Inherit,
        Some(level) => {
            let zero = String::from_str("0");
            if *level == zero {
                StdoutMode::Discard
            } else {
                StdoutMode::ToStderr
            }
        },
    }
}

// ------------------------------------------------------------------------
// process outcome
// ------------------------------------------------------------------------

/// The message carried by [`Error::ApplyPolicyFailed`]: it names the exit
/// code whenever the platform reported one.
pub open spec fn failed_text(code: Option<i32>) -> Seq<char> {
    match code {
        Some(rc) => "`mmapplypolicy` failed with exit status "@ + dec_int(rc as int),
        None => "`mmapplypolicy` failed"@,
    }
}

/// Interprets the engine's exit: success is owed exactly when the process
/// reported success; any failure carries the exit code when available, and
/// no report paths are ever returned for it.
pub fn exit_result(success: bool, code: Option<i32>) -> (r: Result<(), Error>)
    ensures
        r is Ok <==> success,
        !success ==> (r matches Err(e) && e matches Error::ApplyPolicyFailed(m) && m@
            == failed_text(code)),
{
    if success {
        Ok(())
    } else {
        match code {
            Some(rc) => {
                let mut message = String::from_str("`mmapplypolicy` failed with exit status ");
                push_i32(&mut message, rc);
                Err(Error::ApplyPolicyFailed(message))
            },
            None => Err(Error::ApplyPolicyFailed(String::from_str("`mmapplypolicy` failed"))),
        }
    }
}

/// The error for an engine process that could not be started.
pub fn spawn_error(cause: String) -> (e: Error)
    ensures
        e matches Error::ApplyPolicy(label, c) && label@ == "`mmapplypolicy` failed to start"@ && c
            == cause,
{
    Error::ApplyPolicy(String::from_str("`mmapplypolicy` failed to start"), cause)
}

/// The error for an engine process that could not be waited on.
pub fn wait_error(cause: String) -> (e: Error)
    ensures
        e matches Error::ApplyPolicy(label, c) && label@ == "failed waiting on `mmapplypolicy`"@
            && c == cause,
{
    Error::ApplyPolicy(String::from_str("failed waiting on `mmapplypolicy`"), cause)
}

// ------------------------------------------------------------------------
// report paths
// ------------------------------------------------------------------------

/// `parent` and `name` joined with a separator; a bare `name` when there is
/// no parent.
pub open spec fn joined_path(parent: Seq<char>, name: Seq<char>) -> Seq<char> {
    if parent.len() == 0 {
        name
    } else {
        parent + "/"@ + name
    }
}

/// The report path for one external-list rule: `<prefix>/list.<rule name>`
/// under an existing directory, otherwise a sibling of the prefix named
/// `<stem>.list.<rule name>`, where the stem is the prefix's final component
/// (or the policy name when it has none).
pub open spec fn report_path_text(
    policy_name: Seq<char>,
    prefix: ReportPrefix,
    rule_name: Seq<char>,
) -> Seq<char> {
    if prefix.is_dir {
        prefix.path@ + "/list."@ + rule_name
    } else {
        joined_path(
            prefix.parent@,
            (match prefix.file_name {
                Some(stem) => stem@,
                None => policy_name,
            }) + ".list."@ + rule_name,
        )
    }
}

/// The report paths one rule contributes: one for an external-list rule when
/// a prefix was supplied, none otherwise. List rules never contribute.
pub open spec fn rule_report(
    policy_name: Seq<char>,
    rule: Rule,
    prefix: Option<ReportPrefix>,
) -> Seq<Seq<char>> {
    match rule.1 {
        RuleType::ExternalList(name, _) => match prefix {
            Some(p) => seq![report_path_text(policy_name, p, name.0@)],
            None => Seq::empty(),
        },
        RuleType::List(_, _, _, _) => Seq::empty(),
    }
}

/// All report paths, in rule order.
pub open spec fn report_paths_spec(
    policy_name: Seq<char>,
    rules: Seq<Rule>,
    prefix: Option<ReportPrefix>,
) -> Seq<Seq<char>>
    decreases rules.len(),
{
    if rules.len() == 0 {
        Seq::empty()
    } else {
        report_paths_spec(policy_name, rules.drop_last(), prefix) + rule_report(
            policy_name,
            rules.last(),
            prefix,
        )
    }
}

fn report_path_for(policy_name: &String, prefix: &ReportPrefix, rule_name: &String) -> (r: String)
    ensures
        r@ == report_path_text(policy_name@, *prefix, rule_name@),
{
    if prefix.is_dir {
        let mut out = prefix.path.clone();
        out.append("/list.");
        out.append(rule_name.as_str());
        out
    } else {
        let mut name = match &prefix.file_name {
            Some(stem) => stem.clone(),
            None => policy_name.clone(),
        };
        name.append(".list.");
        name.append(rule_name.as_str());
        if prefix.parent.as_str().is_empty() {
            name
        } else {
            let mut out = prefix.parent.clone();
            out.append("/");
            out.append(name.as_str());
            proof {
                assert(out@ =~= report_path_text(policy_name@, *prefix, rule_name@));
            }
            out
        }
    }
}

impl Policy {
    /// Computes the report paths the engine will have produced: one per
    /// external-list rule, in rule order, when a report prefix was supplied;
    /// none otherwise.
    pub fn report_paths(&self, prefix: &Option<ReportPrefix>) -> (r: Vec<String>)
        ensures
            r.deep_view() == report_paths_spec(self.name.0@, self.rules@, *prefix),
    {
        let mut reports: Vec<String> = Vec::new();
        let mut i: usize = 0;
        while i < self.rules.len()
            invariant
                i <= self.rules@.len(),
                reports.deep_view() == report_paths_spec(
                    self.name.0@,
                    self.rules@.take(i as int),
                    *prefix,
                ),
            decreases self.rules@.len() - i,
        {
            let rule = &self.rules[i];
            match &rule.1 {
                RuleType::ExternalList(name, _) => {
                    match prefix {
                        Some(p) => {
                            let path = report_path_for(&self.name.0, p, &name.0);
                            reports.push(path);
                        },
                        None => {},
                    }
                },
                RuleType::List(_, _, _, _) => {},
            }
            proof {
                assert(self.rules@.take(i + 1).drop_last() =~= self.rules@.take(i as int));
                assert(self.rules@.take(i + 1).last() == self.rules@[i as int]);
                assert(reports.deep_view() =~= report_paths_spec(
                    self.name.0@,
                    self.rules@.take(i + 1),
                    *prefix,
                ));
            }
            i += 1;
        }
        proof {
            assert(self.rules@.take(self.rules@.len() as int) =~= self.rules@);
        }
        reports
    }
}

// ------------------------------------------------------------------------
// laws of the protocol
// ------------------------------------------------------------------------

/// The child's standard output is discarded exactly when the information
/// level is the literal `"0"`; any other requested level forwards it to the
/// error stream; without a requested level it is left alone.
pub proof fn lemma_stdout_handling(options: Options)
    ensures
        stdout_mode_spec(options) == StdoutMode::Discard <==> (options.information_level matches
            Some(level) && level@ == "0"@),
        stdout_mode_spec(options) == StdoutMode::ToStderr <==> (options.information_level matches
            Some(level) && level@ != "0"@),
        stdout_mode_spec(options) == StdoutMode::Inherit <==> options.information_level is None,
{
}

/// A failure message always begins with `` `mmapplypolicy` failed ``, and
/// whenever the platform reported an exit code the message carries exactly
/// that code's decimal rendering after it.
pub proof fn lemma_failure_message_names_exit_code(code: Option<i32>)
    ensures
        failed_text(code).take("`mmapplypolicy` failed"@.len() as int) == "`mmapplypolicy` failed"@,
        code matches Some(rc) ==> failed_text(code) == "`mmapplypolicy` failed"@
            + " with exit status "@ + dec_int(rc as int),
        code is None ==> failed_text(code) == "`mmapplypolicy` failed"@,
{
    reveal_strlit("`mmapplypolicy` failed");
    reveal_strlit(" with exit status ");
    reveal_strlit("`mmapplypolicy` failed with exit status ");
    assert("`mmapplypolicy` failed"@ + " with exit status "@ =~= "`mmapplypolicy` failed with exit status "@);
    match code {
        Some(rc) => {
            assert(failed_text(code).take("`mmapplypolicy` failed"@.len() as int)
                =~= "`mmapplypolicy` failed"@);
        },
        None => {
            assert(failed_text(code).take("`mmapplypolicy` failed"@.len() as int)
                =~= "`mmapplypolicy` failed"@);
        },
    }
}

// ------------------------------------------------------------------------
// the run plan
// ------------------------------------------------------------------------

/// Everything one engine invocation needs, computed up front.
pub struct RunPlan {
    /// The rendered policy text, to be written to the policy file.
    pub policy_text: String,
    /// The engine's argument vector, after the binary name.
    pub args: Vec<String>,
    /// How the child's standard output is to be handled.
    pub stdout: StdoutMode,
    /// The report paths the engine will have produced on success.
    pub reports: Vec<String>,
}

impl Policy {
    /// Plans one engine invocation: validates the report prefix, renders the
    /// policy, and computes the argument vector, the standard-output
    /// handling and the report paths.
    ///
    /// Fails exactly when the supplied prefix is invalid, before any file or
    /// process work can have happened.
    pub fn plan(
        &self,
        target: &str,
        policy_path: &str,
        prefix: &Option<ReportPrefix>,
        options: &Options,
    ) -> (r: Result<RunPlan, Error>)
        ensures
            r is Err <==> prefix_is_invalid(*prefix),
            r matches Err(e) ==> e matches Error::InvalidFileListPrefix(m) && m@
                == invalid_prefix_text(),
            r matches Ok(plan) ==> {
                &&& plan.policy_text@ == policy_text(*self)
                &&& plan.args.deep_view() == command_args_spec(
                    target@,
                    policy_path@,
                    *prefix,
                    *options,
                )
                &&& plan.stdout == stdout_mode_spec(*options)
                &&& plan.reports.deep_view() == report_paths_spec(
                    self.name.0@,
                    self.rules@,
                    *prefix,
                )
            },
    {
        match check_prefix(prefix) {
            Err(e) => Err(e),
            Ok(()) => Ok(
                RunPlan {
                    policy_text: self.to_text(),
                    args: command_args(target, policy_path, prefix, options),
                    stdout: stdout_mode(options),
                    reports: self.report_paths(prefix),
                },
            ),
        }
    }
}

} // verus!
