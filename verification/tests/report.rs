use are_we_sdd_yet::record::{
    BenchmarkLog, Cnf2ObddBenchmarkLog, RsddBenchmarkLog, SddBenchmarkLog,
};
use are_we_sdd_yet::report::{render_absent, render_header, render_size, render_speedup};
use are_we_sdd_yet::strategy::{CompilationMode, ToolFamily};

fn baseline(time_nanos: u64, circuit_size: usize) -> RsddBenchmarkLog {
    RsddBenchmarkLog {
        name: String::from("a.cnf"),
        num_recursive: 12,
        time_nanos,
        circuit_size,
        mode: String::from("sdd_right_linear"),
    }
}

fn record(
    rsdd: RsddBenchmarkLog,
    cnf2obdd: Option<Cnf2ObddBenchmarkLog>,
    sdd: Option<SddBenchmarkLog>,
) -> BenchmarkLog {
    BenchmarkLog {
        file: String::from("a.cnf"),
        mode: CompilationMode::SDDRightLinear,
        rsdd,
        cnf2obdd,
        sdd,
    }
}

#[test]
fn header_names_file_and_strategy() {
    assert_eq!(
        render_header("cnf/s1.cnf", CompilationMode::BDDBestFit),
        "Benchmark: cnf/s1.cnf (strategy: best fit (bdd))..."
    );
}

#[test]
fn whole_block_with_one_comparison_present() {
    let log = record(
        baseline(2_000_000_000, 100),
        None,
        Some(SddBenchmarkLog { compilation_time_nanos: 1_000_000_000, sdd_size: 50, sdd_count: 3 }),
    );
    assert_eq!(
        log.render(),
        "===\nBenchmark: a.cnf (strategy: right linear)...\n---\nrsdd v sdd\n\
         0.50x speedup (rsdd: 2.000000s, sdd: 1.000000s)\n\
         2.00x circuit size (rsdd: 100, sdd: 50)\n\n---\nrsdd v cnf2obdd\n\
         no cnf2obdd run reported\nrsdd: 2.000000s, 100 size"
    );
}

#[test]
fn one_file_with_one_comparison_log() {
    let log = record(
        baseline(2_000_000_000, 100),
        None,
        Some(SddBenchmarkLog { compilation_time_nanos: 1_000_000_000, sdd_size: 50, sdd_count: 1 }),
    );
    let text = log.render();
    assert!(text.contains("2.00x circuit size (rsdd: 100, sdd: 50)"));
    assert!(text.contains("0.50x speedup (rsdd: 2.000000s, sdd: 1.000000s)"));
    let slower = record(
        baseline(1_000_000_000, 100),
        None,
        Some(SddBenchmarkLog { compilation_time_nanos: 2_000_000_000, sdd_size: 50, sdd_count: 1 }),
    );
    assert!(slower.render().contains("2.00x speedup (rsdd: 1.000000s, sdd: 2.000000s)"));
}

#[test]
fn absent_comparisons_are_stated() {
    let log = record(baseline(1_250_000, 42), None, None);
    assert_eq!(
        log.render(),
        "===\nBenchmark: a.cnf (strategy: right linear)...\n---\nrsdd v sdd\n\
         no sdd run reported\nrsdd: 0.001250s, 42 size\n---\nrsdd v cnf2obdd\n\
         no cnf2obdd run reported\nrsdd: 0.001250s, 42 size"
    );
    assert_eq!(
        render_absent(ToolFamily::Sdd, &baseline(0, 0)),
        "no sdd run reported\nrsdd: 0.000000s, 0 size"
    );
}

#[test]
fn both_comparisons_present() {
    let mut log = record(
        baseline(500_000_000, 30),
        Some(Cnf2ObddBenchmarkLog { time_nanos: 1_500_000_000 }),
        Some(SddBenchmarkLog { compilation_time_nanos: 250_000_000, sdd_size: 40, sdd_count: 2 }),
    );
    log.mode = CompilationMode::BestFit;
    assert_eq!(
        log.render(),
        "===\nBenchmark: a.cnf (strategy: best fit)...\n---\nrsdd v sdd\n\
         0.50x speedup (rsdd: 0.500000s, sdd: 0.250000s)\n\
         0.75x circuit size (rsdd: 30, sdd: 40)\n\n---\nrsdd v cnf2obdd\n\
         3.00x speedup (rsdd: 0.500000s, cnf2obdd: 1.500000s)"
    );
}

#[test]
fn zero_baseline_time_is_rendered_as_a_marker() {
    assert_eq!(
        render_speedup(ToolFamily::Cnf2Obdd, 0, 1_500_000_000),
        "infx speedup (rsdd: 0.000000s, cnf2obdd: 1.500000s)"
    );
    assert_eq!(
        render_speedup(ToolFamily::Sdd, 0, 0),
        "NaNx speedup (rsdd: 0.000000s, sdd: 0.000000s)"
    );
    assert_eq!(render_size(7, 0), "infx circuit size (rsdd: 7, sdd: 0)");
    assert_eq!(render_size(0, 0), "NaNx circuit size (rsdd: 0, sdd: 0)");
}
