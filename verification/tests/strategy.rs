use are_we_sdd_yet::invocation::invocation;
use are_we_sdd_yet::strategy::{str_to_mode, CompilationMode, Criticality, ToolFamily};

const MODES: [CompilationMode; 4] = [
    CompilationMode::SDDLeftLinear,
    CompilationMode::SDDRightLinear,
    CompilationMode::BestFit,
    CompilationMode::BDDBestFit,
];

fn texts(args: &[String]) -> Vec<&str> {
    args.iter().map(|s| s.as_str()).collect()
}

#[test]
fn selectors_map_to_strategies() {
    assert_eq!(str_to_mode("left"), CompilationMode::SDDLeftLinear);
    assert_eq!(str_to_mode("right"), CompilationMode::SDDRightLinear);
    assert_eq!(str_to_mode("best"), CompilationMode::BestFit);
    assert_eq!(str_to_mode("best-bdd"), CompilationMode::BDDBestFit);
    assert_eq!(str_to_mode("bdd-best"), CompilationMode::BDDBestFit);
}

#[test]
fn unknown_selector_falls_back_to_right_linear() {
    assert_eq!(str_to_mode(""), CompilationMode::SDDRightLinear);
    assert_eq!(str_to_mode("balanced"), CompilationMode::SDDRightLinear);
    assert_eq!(str_to_mode("LEFT"), CompilationMode::SDDRightLinear);
    assert_eq!(str_to_mode("left "), CompilationMode::SDDRightLinear);
}

#[test]
fn libsdd_tokens() {
    assert_eq!(CompilationMode::SDDLeftLinear.as_libsdd(), Some("left"));
    assert_eq!(CompilationMode::SDDRightLinear.as_libsdd(), Some("right"));
    assert_eq!(CompilationMode::BestFit.as_libsdd(), Some("right"));
    assert_eq!(CompilationMode::BDDBestFit.as_libsdd(), None);
}

#[test]
fn rsdd_tokens() {
    assert_eq!(CompilationMode::SDDLeftLinear.as_rsdd(), "sdd_left_linear");
    assert_eq!(CompilationMode::SDDRightLinear.as_rsdd(), "sdd_right_linear");
    assert_eq!(CompilationMode::BestFit.as_rsdd(), "sdd_dtree_minfill");
    assert_eq!(CompilationMode::BDDBestFit.as_rsdd(), "bdd_dtree_minfill");
}

#[test]
fn labels() {
    assert_eq!(CompilationMode::SDDLeftLinear.label(), "left linear");
    assert_eq!(CompilationMode::SDDRightLinear.label(), "right linear");
    assert_eq!(CompilationMode::BestFit.label(), "best fit");
    assert_eq!(CompilationMode::BDDBestFit.label(), "best fit (bdd)");
}

#[test]
fn only_the_baseline_is_mandatory() {
    assert_eq!(ToolFamily::Rsdd.criticality(), Criticality::Mandatory);
    assert_eq!(ToolFamily::Sdd.criticality(), Criticality::Optional);
    assert_eq!(ToolFamily::Cnf2Obdd.criticality(), Criticality::Optional);
    assert_eq!(ToolFamily::Rsdd.name(), "rsdd");
    assert_eq!(ToolFamily::Sdd.name(), "sdd");
    assert_eq!(ToolFamily::Cnf2Obdd.name(), "cnf2obdd");
}

#[test]
fn support_table() {
    for mode in MODES {
        assert!(mode.is_supported_by(ToolFamily::Rsdd));
    }
    assert!(CompilationMode::SDDLeftLinear.is_supported_by(ToolFamily::Sdd));
    assert!(CompilationMode::SDDRightLinear.is_supported_by(ToolFamily::Sdd));
    assert!(CompilationMode::BestFit.is_supported_by(ToolFamily::Sdd));
    assert!(!CompilationMode::BDDBestFit.is_supported_by(ToolFamily::Sdd));
    assert!(!CompilationMode::SDDLeftLinear.is_supported_by(ToolFamily::Cnf2Obdd));
    assert!(!CompilationMode::SDDRightLinear.is_supported_by(ToolFamily::Cnf2Obdd));
    assert!(CompilationMode::BestFit.is_supported_by(ToolFamily::Cnf2Obdd));
    assert!(CompilationMode::BDDBestFit.is_supported_by(ToolFamily::Cnf2Obdd));
}

#[test]
fn no_invocation_is_built_for_an_unsupported_strategy() {
    let mut built = 0;
    for mode in MODES {
        for tool in [ToolFamily::Rsdd, ToolFamily::Sdd, ToolFamily::Cnf2Obdd] {
            let inv = invocation(tool, "./tool", "a.cnf", mode, false);
            assert_eq!(inv.is_some(), mode.is_supported_by(tool));
            if inv.is_some() {
                built += 1;
            }
        }
    }
    assert_eq!(built, 4 + 3 + 2);
}

#[test]
fn rsdd_arguments() {
    let inv = invocation(ToolFamily::Rsdd, "./rsdd", "x.cnf", CompilationMode::BDDBestFit, true)
        .unwrap();
    assert_eq!(inv.tool, ToolFamily::Rsdd);
    assert_eq!(inv.program, "./rsdd");
    assert_eq!(texts(&inv.args), vec!["-f", "x.cnf", "-m", "bdd_dtree_minfill"]);
    assert!(inv.surface_diagnostics);
}

#[test]
fn libsdd_arguments_carry_r_0_except_under_best_fit() {
    let left = invocation(ToolFamily::Sdd, "./sdd", "x.cnf", CompilationMode::SDDLeftLinear, false)
        .unwrap();
    assert_eq!(texts(&left.args), vec!["-c", "x.cnf", "-t", "left", "-r", "0"]);
    assert!(!left.surface_diagnostics);
    let right =
        invocation(ToolFamily::Sdd, "./sdd", "x.cnf", CompilationMode::SDDRightLinear, false)
            .unwrap();
    assert_eq!(texts(&right.args), vec!["-c", "x.cnf", "-t", "right", "-r", "0"]);
    let best = invocation(ToolFamily::Sdd, "/opt/sdd", "x.cnf", CompilationMode::BestFit, false)
        .unwrap();
    assert_eq!(best.program, "/opt/sdd");
    assert_eq!(texts(&best.args), vec!["-c", "x.cnf", "-t", "right"]);
}

#[test]
fn cnf2obdd_takes_the_file_alone() {
    let inv =
        invocation(ToolFamily::Cnf2Obdd, "./cnf2obdd", "dir/y.cnf", CompilationMode::BestFit, false)
            .unwrap();
    assert_eq!(texts(&inv.args), vec!["dir/y.cnf"]);
}
