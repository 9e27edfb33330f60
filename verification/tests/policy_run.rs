use mmpolicy::{
    check_prefix, command_args, engine_binary, exit_result, spawn_error, stdout_mode, wait_error,
    Error, Exec, Name, Options, Policy, ReportPrefix, Rule, RuleType, StdoutMode,
};

fn size_policy() -> Policy {
    let mut policy = Policy::new("size");
    policy.rules.push(Rule::from(RuleType::ExternalList(
        Name("size".into()),
        Exec("myscript".into()),
    )));
    policy
}

fn dir_prefix(path: &str) -> ReportPrefix {
    let (parent, file_name) = split_path(path);
    ReportPrefix {
        path: path.into(),
        is_dir: true,
        file_name,
        parent,
    }
}

fn stem_prefix(path: &str) -> ReportPrefix {
    let (parent, file_name) = split_path(path);
    ReportPrefix {
        path: path.into(),
        is_dir: false,
        file_name,
        parent,
    }
}

fn split_path(path: &str) -> (String, Option<String>) {
    match path.rfind('/') {
        Some(i) => {
            let name = &path[i + 1..];
            (
                path[..i].to_string(),
                if name.is_empty() {
                    None
                } else {
                    Some(name.to_string())
                },
            )
        }
        None => (String::new(), Some(path.to_string())),
    }
}

#[test]
fn report_path_under_existing_directory() {
    let policy = size_policy();
    let reports = policy.report_paths(&Some(dir_prefix("/work/out")));
    assert_eq!(reports, vec!["/work/out/list.size".to_string()]);
}

#[test]
fn report_path_from_file_name_stem() {
    let policy = size_policy();
    let reports = policy.report_paths(&Some(stem_prefix("/work/out/prefix")));
    assert_eq!(reports, vec!["/work/out/prefix.list.size".to_string()]);
}

#[test]
fn report_paths_skip_list_rules_and_keep_order() {
    let mut policy = size_policy();
    policy.rules.push(Rule::from(RuleType::List(
        Name("report".into()),
        mmpolicy::DirectoriesPlus(true),
        vec![mmpolicy::Show::KbAllocated],
        None,
    )));
    policy.rules.push(Rule::from(RuleType::ExternalList(
        Name("second".into()),
        Exec(String::new()),
    )));
    let reports = policy.report_paths(&Some(dir_prefix("/work/out")));
    assert_eq!(
        reports,
        vec![
            "/work/out/list.size".to_string(),
            "/work/out/list.second".to_string()
        ]
    );
}

#[test]
fn no_prefix_no_report_paths() {
    let policy = size_policy();
    let reports = policy.report_paths(&None);
    assert!(reports.is_empty());
}

#[test]
fn stem_prefix_without_file_name_falls_back_to_policy_name() {
    let policy = size_policy();
    let prefix = ReportPrefix {
        path: "relative".into(),
        is_dir: false,
        file_name: None,
        parent: String::new(),
    };
    let reports = policy.report_paths(&Some(prefix));
    assert_eq!(reports, vec!["size.list.size".to_string()]);
}

#[test]
fn invalid_prefix_is_rejected_before_any_work() {
    let policy = size_policy();
    // a root-like path: not an existing directory, no file-name component
    let prefix = Some(ReportPrefix {
        path: "/".into(),
        is_dir: false,
        file_name: None,
        parent: String::new(),
    });
    let result = policy.plan("/data/test", "/work/policy.txt", &prefix, &Options::default());
    let expected = Error::InvalidFileListPrefix(
        "prefix needs to be either an existing directory or have a file name component in its path"
            .into(),
    );
    assert_eq!(result.err(), Some(expected.clone()));
    assert_eq!(check_prefix(&prefix), Err(expected));
}

#[test]
fn valid_prefixes_pass_the_check() {
    assert_eq!(check_prefix(&None), Ok(()));
    assert_eq!(check_prefix(&Some(dir_prefix("/work/out"))), Ok(()));
    assert_eq!(check_prefix(&Some(stem_prefix("/work/out/prefix"))), Ok(()));
}

#[test]
fn command_args_follow_the_fixed_order() {
    let options = Options {
        choice_algorithm: Some("fast".into()),
        nodes: Some("filer1,filer2".into()),
        local_work_dir: Some("/work/.policy/local".into()),
        global_work_dir: Some("/work/.policy/global".into()),
        action: Some("defer".into()),
        information_level: Some("0".into()),
    };
    let prefix = Some(dir_prefix("/work/out"));
    let args = command_args("/data/test", "/work/policy.txt", &prefix, &options);
    assert_eq!(
        args,
        vec![
            "/data/test",
            "-P",
            "/work/policy.txt",
            "-I",
            "defer",
            "-L",
            "0",
            "--choice-algorithm",
            "fast",
            "-f",
            "/work/out",
            "-N",
            "filer1,filer2",
            "-s",
            "/work/.policy/local",
            "-g",
            "/work/.policy/global",
        ]
    );
}

#[test]
fn absent_options_omit_their_switches() {
    let args = command_args("/data/test", "/work/policy.txt", &None, &Options::default());
    assert_eq!(args, vec!["/data/test", "-P", "/work/policy.txt"]);
}

#[test]
fn stdout_discarded_iff_information_level_is_zero() {
    let mut options = Options::default();
    assert_eq!(stdout_mode(&options), StdoutMode::Inherit);
    options.information_level = Some("0".into());
    assert_eq!(stdout_mode(&options), StdoutMode::Discard);
    options.information_level = Some("2".into());
    assert_eq!(stdout_mode(&options), StdoutMode::ToStderr);
    options.information_level = Some("6".into());
    assert_eq!(stdout_mode(&options), StdoutMode::ToStderr);
}

#[test]
fn failed_exit_reports_the_code() {
    assert_eq!(exit_result(true, Some(0)), Ok(()));
    assert_eq!(
        exit_result(false, Some(73)),
        Err(Error::ApplyPolicyFailed(
            "`mmapplypolicy` failed with exit status 73".into()
        ))
    );
    assert_eq!(
        exit_result(false, None),
        Err(Error::ApplyPolicyFailed("`mmapplypolicy` failed".into()))
    );
    assert_eq!(
        exit_result(false, Some(-1)),
        Err(Error::ApplyPolicyFailed(
            "`mmapplypolicy` failed with exit status -1".into()
        ))
    );
}

#[test]
fn error_messages() {
    assert_eq!(
        spawn_error("oops".into()).message(),
        "`mmapplypolicy` failed to start: oops"
    );
    assert_eq!(
        wait_error("oops".into()).message(),
        "failed waiting on `mmapplypolicy`: oops"
    );
    assert_eq!(
        Error::CreatePolicyFile("/p".into(), "denied".into()).message(),
        "creating policy file `/p`: denied"
    );
    assert_eq!(
        Error::WritePolicy("/p".into(), "full".into()).message(),
        "writing policy file to `/p`: full"
    );
    assert_eq!(
        Error::ApplyPolicyFailed("`mmapplypolicy` failed".into()).message(),
        "`mmapplypolicy` failed"
    );
    assert_eq!(Error::InvalidFileListPrefix("bad".into()).message(), "bad");
}

#[test]
fn plan_computes_everything_up_front() {
    let mut policy = size_policy();
    policy.rules.push(Rule::from(RuleType::List(
        Name("report".into()),
        mmpolicy::DirectoriesPlus(true),
        vec![mmpolicy::Show::KbAllocated],
        None,
    )));
    let mut options = Options::default();
    options.action = Some("defer".into());
    options.information_level = Some("0".into());

    let prefix = Some(stem_prefix("/work/.policy/report"));
    let plan = policy
        .plan("/data/test", "/work/.policy/size.policy", &prefix, &options)
        .unwrap();

    assert_eq!(
        plan.policy_text,
        "RULE\n  EXTERNAL LIST 'size'\n  EXEC 'myscript'\n\nRULE\n  LIST 'report'\n  DIRECTORIES_PLUS\n  SHOW(VARCHAR(KB_ALLOCATED))\n"
    );
    assert_eq!(
        plan.args,
        vec![
            "/data/test",
            "-P",
            "/work/.policy/size.policy",
            "-I",
            "defer",
            "-L",
            "0",
            "-f",
            "/work/.policy/report",
        ]
    );
    assert_eq!(plan.stdout, StdoutMode::Discard);
    assert_eq!(plan.reports, vec!["/work/.policy/report.list.size"]);
}

#[test]
fn engine_binary_is_fixed() {
    assert_eq!(engine_binary(), "mmapplypolicy");
}
