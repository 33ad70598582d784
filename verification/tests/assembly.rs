use req_packager::assemble::{
    AssembleError, AssemblyStep, Config, EntryPoint, PendingLaunch, VirtualResearchEnv, basename,
    complete_launch, plan_assembly, selection_contains, unmet_requirements,
};
use req_packager::domain::ErrorCode;

fn strings(items: &[&str]) -> Vec<String> {
    items.iter().map(|s| s.to_string()).collect()
}

fn inline_tool() -> VirtualResearchEnv {
    VirtualResearchEnv::EoscInline {
        tool_id: "jupyter".to_string(),
        version: "1.2".to_string(),
    }
}

fn hosted_tool(requirements: &[&str]) -> VirtualResearchEnv {
    VirtualResearchEnv::Hosted {
        tool_id: "galaxy".to_string(),
        version: "23.0".to_string(),
        requirements: strings(requirements),
    }
}

#[test]
fn basename_takes_the_part_after_the_last_slash() {
    assert_eq!(basename("data/sub/ref.fa"), "ref.fa");
    assert_eq!(basename("ref.fa"), "ref.fa");
    assert_eq!(basename("a//b"), "b");
    assert_eq!(basename("trailing/"), "");
    assert_eq!(basename(""), "");
}

#[test]
fn selection_contains_matches_basenames_only() {
    let sel = strings(&["data/ref.fa", "runs/reads.bam"]);
    assert!(selection_contains(&sel, &"ref.fa".to_string()));
    assert!(selection_contains(&sel, &"reads.bam".to_string()));
    assert!(!selection_contains(&sel, &"data/ref.fa".to_string()));
    assert!(!selection_contains(&sel, &"other.fa".to_string()));
}

#[test]
fn unmet_requirements_keep_requirement_order() {
    let reqs = strings(&["ref.fa", "reads.bam", "model.bin"]);
    let sel = strings(&["x/reads.bam"]);
    let unmet = unmet_requirements(&reqs, &sel);
    assert_eq!(unmet, strings(&["ref.fa", "model.bin"]));
}

#[test]
fn failed_resolution_fails_the_whole_request() {
    let step = plan_assembly(None, strings(&["data/ref.fa"]));
    match step {
        AssemblyStep::Failed(e) => {
            assert!(matches!(e, AssembleError::ToolResolutionFailed));
            assert!(matches!(e.code(), ErrorCode::ProviderUnavailable));
        }
        _ => panic!("expected a failure"),
    }
}

#[test]
fn inline_with_one_file_is_ready_with_that_file() {
    let step = plan_assembly(Some(inline_tool()), strings(&["data/ref.fa"]));
    match step {
        AssemblyStep::Ready(entry) => {
            assert_eq!(entry.tool_id, "jupyter");
            assert_eq!(entry.version, "1.2");
            match entry.entry_point {
                EntryPoint::EoscInline { callback, file } => {
                    assert_eq!(callback, "inline");
                    assert_eq!(file, "data/ref.fa");
                }
                _ => panic!("expected an inline entry point"),
            }
        }
        _ => panic!("expected a ready entry"),
    }
}

#[test]
fn inline_with_no_file_fails_validation_and_plans_no_launch() {
    let step = plan_assembly(Some(inline_tool()), Vec::new());
    assert!(!matches!(step, AssemblyStep::NeedsLaunch(_)));
    match step {
        AssemblyStep::Failed(e) => {
            match &e {
                AssembleError::WrongFileCount { actual } => assert_eq!(*actual, 0),
                _ => panic!("expected the wrong-file-count error"),
            }
            assert!(matches!(e.code(), ErrorCode::ValidationFailed));
        }
        _ => panic!("expected a failure"),
    }
}

#[test]
fn inline_with_two_files_fails_naming_the_count() {
    let step = plan_assembly(Some(inline_tool()), strings(&["a", "b"]));
    assert!(!matches!(step, AssemblyStep::NeedsLaunch(_)));
    match step {
        AssemblyStep::Failed(AssembleError::WrongFileCount { actual }) => assert_eq!(actual, 2),
        _ => panic!("expected the wrong-file-count error"),
    }
}

#[test]
fn hosted_with_requirements_met_plans_exactly_one_launch() {
    let sel = strings(&["data/ref.fa", "runs/reads.bam"]);
    let step = plan_assembly(Some(hosted_tool(&["ref.fa"])), sel.clone());
    match step {
        AssemblyStep::NeedsLaunch(pending) => {
            assert_eq!(pending.version, "23.0");
            assert_eq!(pending.request.tool_id, "galaxy");
            assert_eq!(pending.request.files, sel);
        }
        _ => panic!("expected a planned launch"),
    }
}

#[test]
fn hosted_with_missing_requirement_fails_and_never_launches() {
    let step = plan_assembly(
        Some(hosted_tool(&["ref.fa"])),
        strings(&["runs/reads.bam"]),
    );
    assert!(!matches!(step, AssemblyStep::NeedsLaunch(_)));
    match step {
        AssemblyStep::Failed(e) => {
            match &e {
                AssembleError::UnmetRequirements { unmet } => {
                    assert_eq!(*unmet, strings(&["ref.fa"]));
                }
                _ => panic!("expected the unmet-requirements error"),
            }
            assert!(matches!(e.code(), ErrorCode::ValidationFailed));
        }
        _ => panic!("expected a failure"),
    }
}

#[test]
fn hosted_requires_all_requirements_not_any() {
    let step = plan_assembly(
        Some(hosted_tool(&["ref.fa", "model.bin"])),
        strings(&["data/ref.fa"]),
    );
    match step {
        AssemblyStep::Failed(AssembleError::UnmetRequirements { unmet }) => {
            assert_eq!(unmet, strings(&["model.bin"]));
        }
        _ => panic!("expected the unmet-requirements error"),
    }
}

#[test]
fn successful_launch_yields_the_hosted_entry() {
    let step = plan_assembly(Some(hosted_tool(&["ref.fa"])), strings(&["d/ref.fa"]));
    let pending = match step {
        AssemblyStep::NeedsLaunch(p) => p,
        _ => panic!("expected a planned launch"),
    };
    let entry = complete_launch(pending, Some("http://dispatcher/cb/42".to_string()))
        .expect("launch succeeded");
    assert_eq!(entry.tool_id, "galaxy");
    assert_eq!(entry.version, "23.0");
    match entry.entry_point {
        EntryPoint::Hosted { callback_url } => {
            assert_eq!(callback_url, "http://dispatcher/cb/42");
        }
        _ => panic!("expected a hosted entry point"),
    }
}

#[test]
fn failed_launch_is_the_single_dispatcher_error() {
    let pending = PendingLaunch {
        version: "23.0".to_string(),
        request: req_packager::assemble::LaunchRequest {
            tool_id: "galaxy".to_string(),
            files: strings(&["d/ref.fa"]),
        },
    };
    let err = complete_launch(pending, None).expect_err("launch failed");
    assert!(matches!(err, AssembleError::DispatcherUnavailable));
    assert!(matches!(err.code(), ErrorCode::DispatcherUnavailable));
}

#[test]
fn browser_native_variant_is_rejected_explicitly() {
    let tool = VirtualResearchEnv::BrowserNative {
        tool_id: "viewer".to_string(),
        files: Vec::new(),
    };
    let step = plan_assembly(Some(tool), strings(&["a"]));
    match step {
        AssemblyStep::Failed(e) => {
            match &e {
                AssembleError::UnsupportedVreVariant { tool_id } => assert_eq!(tool_id, "viewer"),
                _ => panic!("expected the unsupported-variant error"),
            }
            assert!(matches!(e.code(), ErrorCode::UnsupportedVreVariant));
        }
        _ => panic!("expected a failure"),
    }
}

#[test]
fn planned_resource_variants_are_rejected_explicitly() {
    let tool = VirtualResearchEnv::HostedWithBuiltInRes {
        tool_id: "rrp".to_string(),
        version: "0.1".to_string(),
        requirements: Vec::new(),
        config: Some(Config { inner: serde_json::Value::Null }),
        res: req_packager::assemble::EnvResource { num_cpu: 4, num_ram: 8_589_934_592 },
    };
    let step = plan_assembly(Some(tool), strings(&["a"]));
    assert!(matches!(
        step,
        AssemblyStep::Failed(AssembleError::UnsupportedVreVariant { .. })
    ));

    let tool = VirtualResearchEnv::HostedWithPluginRes {
        tool_id: "galaxy-res".to_string(),
        version: "0.1".to_string(),
        requirements: Vec::new(),
        config: None,
        res_id: "eosc-small".to_string(),
        res: req_packager::assemble::EnvResource { num_cpu: 2, num_ram: 1024 },
    };
    let step = plan_assembly(Some(tool), strings(&["a"]));
    assert!(matches!(
        step,
        AssemblyStep::Failed(AssembleError::UnsupportedVreVariant { .. })
    ));
}
