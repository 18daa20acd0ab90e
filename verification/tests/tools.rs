use pico_proof_marketplace::backend::{
    BackendComparison, BackendType, BenchmarkResult, ComparisonConfig,
};
use pico_proof_marketplace::cli_extensions::{BatchTester, ElfAnalyzer, Optimizer, Profiler};
use pico_proof_marketplace::debugger::{MemoryProfile, PicoDebugger, PicoProfiler};
use pico_proof_marketplace::evm::{EVMContract, EVMIntegrationHelper, ProofFormatType};
use pico_proof_marketplace::Ratio;

fn config() -> ComparisonConfig {
    ComparisonConfig {
        elf_path: "program.elf".to_string(),
        input_data: "input".to_string(),
        backends: vec![BackendType::KoalaBear, BackendType::Mersenne31],
        iterations: 2,
        output_format: "table".to_string(),
    }
}

fn ok(backend: BackendType, proof_time: u64, proof_size: usize) -> BenchmarkResult {
    BenchmarkResult {
        backend,
        proof_time,
        verification_time: 0,
        proof_size,
        cycles: 0,
        memory_usage: 0,
        success: true,
        error: None,
    }
}

#[test]
fn backend_names() {
    assert_eq!(BackendType::KoalaBear.as_str(), "KoalaBear");
    assert_eq!(BackendType::BabyBear.as_str(), "BabyBear");
    assert_eq!(BackendType::Mersenne31.as_str(), "Mersenne31");
}

#[test]
fn comparison_keeps_its_configuration() {
    let c = BackendComparison::new(config());
    assert_eq!(c.config().elf_path, "program.elf");
    assert_eq!(c.config().backends, vec![BackendType::KoalaBear, BackendType::Mersenne31]);
    assert_eq!(c.config().iterations, 2);
    let copy = c.config().duplicate();
    assert_eq!(copy.elf_path, "program.elf");
    assert_eq!(copy.input_data, "input");
    assert_eq!(copy.backends, vec![BackendType::KoalaBear, BackendType::Mersenne31]);
    assert_eq!(copy.iterations, 2);
    assert_eq!(copy.output_format, "table");
}

#[test]
fn failed_result_records_the_error() {
    let r = BackendComparison::failed_result(BackendType::BabyBear, "out of memory".to_string());
    assert_eq!(r.backend, BackendType::BabyBear);
    assert!(!r.success);
    assert_eq!(r.error, Some("out of memory".to_string()));
    assert_eq!((r.proof_time, r.verification_time, r.proof_size, r.cycles, r.memory_usage), (0, 0, 0, 0, 0));
}

#[test]
fn report_picks_the_first_of_the_best() {
    let c = BackendComparison::new(config());
    let results = vec![
        BackendComparison::failed_result(BackendType::Mersenne31, "failed".to_string()),
        ok(BackendType::KoalaBear, 900, 100),
        ok(BackendType::BabyBear, 500, 400),
        ok(BackendType::Mersenne31, 500, 50),
        ok(BackendType::KoalaBear, 100, 50),
    ];
    let report = c.generate_report(results, 1234);
    assert_eq!(report.timestamp, 1234);
    assert_eq!(report.results.len(), 5);
    assert_eq!(report.config.output_format, "table");
    // fastest: 100 ms; smallest: 50 bytes, first reached by Mersenne31;
    // time per byte: 9, 1.25, 10, 2 -> BabyBear
    assert_eq!(report.summary.fastest_backend, BackendType::KoalaBear);
    assert_eq!(report.summary.smallest_proof, BackendType::Mersenne31);
    assert_eq!(report.summary.most_efficient, BackendType::BabyBear);
    assert_eq!(
        report.summary.recommendations,
        vec![
            "Fastest proof generation: KoalaBear".to_string(),
            "Smallest proof size: Mersenne31".to_string(),
            "Most efficient (time/size): BabyBear".to_string(),
        ]
    );
}

#[test]
fn report_breaks_ties_by_order_and_ignores_failures() {
    let c = BackendComparison::new(config());
    let mut failed_but_fast = ok(BackendType::Mersenne31, 1, 1);
    failed_but_fast.success = false;
    let report = c.generate_report(
        vec![failed_but_fast, ok(BackendType::BabyBear, 10, 10), ok(BackendType::KoalaBear, 10, 10)],
        0,
    );
    assert_eq!(report.summary.fastest_backend, BackendType::BabyBear);
    assert_eq!(report.summary.smallest_proof, BackendType::BabyBear);
    assert_eq!(report.summary.most_efficient, BackendType::BabyBear);
}

#[test]
fn report_without_success_names_koalabear() {
    let c = BackendComparison::new(config());
    let report = c.generate_report(
        vec![BackendComparison::failed_result(BackendType::BabyBear, "failed".to_string())],
        0,
    );
    assert_eq!(report.summary.fastest_backend, BackendType::KoalaBear);
    assert_eq!(report.summary.smallest_proof, BackendType::KoalaBear);
    assert_eq!(report.summary.most_efficient, BackendType::KoalaBear);
    let empty = c.generate_report(vec![], 0);
    assert_eq!(empty.summary.most_efficient, BackendType::KoalaBear);
    assert_eq!(empty.summary.recommendations[0], "Fastest proof generation: KoalaBear");
}

#[test]
fn empty_proof_is_never_the_most_efficient() {
    let c = BackendComparison::new(config());
    let report = c.generate_report(
        vec![ok(BackendType::BabyBear, 10, 0), ok(BackendType::Mersenne31, u64::MAX, 1)],
        0,
    );
    assert_eq!(report.summary.most_efficient, BackendType::Mersenne31);
    assert_eq!(report.summary.smallest_proof, BackendType::BabyBear);
}

#[test]
fn tools_show_their_notice() {
    assert_eq!(ElfAnalyzer::new().notice(), "ELF analysis functionality coming soon...");
    assert_eq!(Optimizer::new().notice(), "ELF optimization functionality coming soon...");
    assert_eq!(BatchTester::new().notice(), "Batch testing functionality coming soon...");
    assert_eq!(Profiler::new().notice(), "Profiling functionality coming soon...");
}

#[test]
fn debugger_session_and_breakpoints() {
    let mut d = PicoDebugger::new();
    assert!(d.session().is_none());
    // without a session breakpoints are not kept
    d.add_breakpoint(16);
    d.remove_breakpoint(16);
    assert!(d.session().is_none());
    let id = d.start_session("prog.elf".to_string(), vec![1, 2], 1_700_000_000_123);
    assert_eq!(id, "debug_1700000000123");
    {
        let s = d.session().as_ref().unwrap();
        assert_eq!(s.session_id, "debug_1700000000123");
        assert_eq!(s.program_path, "prog.elf");
        assert_eq!(s.input_data, vec![1, 2]);
        assert_eq!(s.created_at, 1_700_000_000_123);
        assert!(s.breakpoints.is_empty());
        assert!(s.watch_variables.is_empty());
    }
    d.add_breakpoint(16);
    d.add_breakpoint(32);
    d.add_breakpoint(16);
    d.add_breakpoint(8);
    assert_eq!(d.session().as_ref().unwrap().breakpoints, vec![16, 32, 8]);
    d.remove_breakpoint(32);
    assert_eq!(d.session().as_ref().unwrap().breakpoints, vec![16, 8]);
    d.remove_breakpoint(99);
    assert_eq!(d.session().as_ref().unwrap().breakpoints, vec![16, 8]);
    assert_eq!(d.session().as_ref().unwrap().program_path, "prog.elf");
    let again = d.start_session("other.elf".to_string(), vec![], 0);
    assert_eq!(again, "debug_0");
    assert!(d.session().as_ref().unwrap().breakpoints.is_empty());
}

#[test]
fn debugger_without_a_machine() {
    let mut d = PicoDebugger::new();
    let cycle = d.step_execution();
    assert_eq!((cycle.cycle, cycle.pc, cycle.timestamp), (0, 0, 0));
    assert_eq!(cycle.instruction, "nop");
    assert_eq!(d.continue_execution(), "Continuing execution...");
    assert_eq!(
        d.get_register_state(),
        vec![("x1".to_string(), 0), ("x2".to_string(), 0), ("pc".to_string(), 0)]
    );
    assert_eq!(d.get_memory_value(4096), 0);
    assert_eq!(d.set_memory_value(4096, 7), "Setting memory[4096] = 7");
}

#[test]
fn profiler_counts_and_reports() {
    let mut p = PicoProfiler::new();
    assert_eq!((p.start_time(), p.cycle_count(), p.memory_usage()), (None, 0, 0));
    p.record_cycle();
    p.record_memory_access(10);
    p.start_profiling(1000);
    assert_eq!((p.start_time(), p.cycle_count(), p.memory_usage()), (Some(1000), 0, 0));
    for _ in 0..10 {
        p.record_cycle();
    }
    p.record_memory_access(64);
    p.record_memory_access(37);
    assert_eq!((p.cycle_count(), p.memory_usage()), (10, 101));
    let r = p.stop_profiling(1250);
    assert_eq!(r.total_cycles, 10);
    assert_eq!(r.execution_time, 250);
    assert_eq!(
        r.memory_usage,
        MemoryProfile {
            peak_memory: 101,
            average_memory: 50,
            memory_accesses: 1000,
            cache_hits: 800,
            cache_misses: 200,
        }
    );
    assert_eq!(r.performance_metrics.cycles_per_millisecond, Ratio { numerator: 10, denominator: 250 });
    assert_eq!(r.performance_metrics.memory_bandwidth, Ratio { numerator: 1, denominator: 1 });
    assert_eq!(
        r.performance_metrics.instruction_mix,
        vec![("add".to_string(), 100), ("mul".to_string(), 50), ("load".to_string(), 200)]
    );
    assert_eq!(r.hot_spots.len(), 2);
    assert_eq!(r.hot_spots[0].function_name, "main");
    assert_eq!(r.hot_spots[0].cycles_spent, 5);
    assert_eq!(r.hot_spots[0].percentage, Ratio { numerator: 1, denominator: 2 });
    assert_eq!(r.hot_spots[0].line_numbers, vec![10, 15, 20]);
    assert_eq!(r.hot_spots[1].function_name, "compute");
    assert_eq!(r.hot_spots[1].cycles_spent, 2);
    assert_eq!(r.hot_spots[1].percentage, Ratio { numerator: 1, denominator: 4 });
    assert_eq!(r.hot_spots[1].line_numbers, vec![5, 8, 12]);
    // stopping does not reset
    assert_eq!((p.start_time(), p.cycle_count(), p.memory_usage()), (Some(1000), 10, 101));
}

#[test]
fn profiler_time_never_runs_backwards() {
    let mut p = PicoProfiler::new();
    assert_eq!(p.stop_profiling(500).execution_time, 0);
    p.start_profiling(1000);
    assert_eq!(p.stop_profiling(999).execution_time, 0);
    assert_eq!(p.stop_profiling(1000).execution_time, 0);
    assert_eq!(p.stop_profiling(1001).execution_time, 1);
}

#[test]
fn helper_keeps_contracts_in_order() {
    let mut h = EVMIntegrationHelper::new();
    assert!(h.contracts().is_empty());
    for name in ["A", "B"] {
        h.add_contract(EVMContract {
            name: name.to_string(),
            address: None,
            abi: "[]".to_string(),
            bytecode: "0x".to_string(),
            constructor_args: vec![],
        });
    }
    let names: Vec<&str> = h.contracts().iter().map(|c| c.name.as_str()).collect();
    assert_eq!(names, vec!["A", "B"]);
}

#[test]
fn gas_estimate_formula() {
    let h = EVMIntegrationHelper::new();
    assert_eq!(h.estimate_gas_cost(0, 0), 100_000);
    assert_eq!(h.estimate_gas_cost(1, 0), 100_010);
    assert_eq!(h.estimate_gas_cost(0, 1), 101_000);
    assert_eq!(h.estimate_gas_cost(2048, 3), 100_000 + 20_480 + 3_000);
}

#[test]
fn solidity_contract_names_the_contract() {
    let h = EVMIntegrationHelper::new();
    let source = h.generate_solidity_contract("fibonacci", "FibVerifier");
    assert!(source.starts_with("// SPDX-License-Identifier: MIT\npragma solidity ^0.8.0;\n\ncontract FibVerifier {\n"));
    assert!(source.contains("    function verifyPicoProof(\n        bytes calldata proof,\n        bytes32 publicInput\n    ) external returns (bool) {\n"));
    assert!(source.contains("require(!verifiedProofs[proofHash], \"Proof already verified\");"));
    assert!(source.ends_with("        return verifiedProofs[proofHash];\n    }\n}"));
    assert_eq!(source.matches("FibVerifier").count(), 1);
    assert!(!source.contains("fibonacci"));
    assert!(!source.contains("{{"));
    let other = h.generate_solidity_contract("fibonacci", "X");
    assert_eq!(other.len() + "FibVerifier".len(), source.len() + 1);
}

#[test]
fn verification_contract_holds_the_key() {
    let h = EVMIntegrationHelper::new();
    let source = h.generate_verification_contract("abc123");
    assert!(source.contains("    bytes32 public constant VERIFICATION_KEY = 0xabc123;\n"));
    assert!(source.starts_with("// SPDX-License-Identifier: MIT\npragma solidity ^0.8.0;\n\ncontract PicoVerifier {\n"));
    assert!(source.contains("for (uint i = 0; i < proofs.length; i++) {\n"));
    assert!(source.ends_with("        return results;\n    }\n}"));
}

#[test]
fn deployment_script_uses_name_and_arguments() {
    let h = EVMIntegrationHelper::new();
    let script = h.create_deployment_script("MyVerifier", &["1".to_string(), "\"x\"".to_string(), "0xff".to_string()]);
    assert!(script.starts_with("// Deployment script for MyVerifier\nconst { ethers } = require(\"hardhat\");\n"));
    assert!(script.contains("    const myverifier = await ethers.getContractFactory(\"MyVerifier\");\n"));
    assert!(script.contains("    const contract = await MyVerifier.deploy(1, \"x\", 0xff);\n"));
    assert!(script.contains("    console.log(\"MyVerifier deployed to:\", contract.address);\n"));
    assert!(script.ends_with("        process.exit(1);\n    });\n"));
    let bare = h.create_deployment_script("MyVerifier", &[]);
    assert!(bare.contains("    const contract = await MyVerifier.deploy;\n"));
    let one = h.create_deployment_script("ÄB", &["7".to_string()]);
    assert!(one.contains("    const äb = await ethers.getContractFactory(\"ÄB\");\n"));
    assert!(one.contains("    const contract = await ÄB.deploy(7);\n"));
}

#[test]
fn test_contract_names_the_contract_four_times() {
    let h = EVMIntegrationHelper::new();
    let source = h.generate_test_contract("FibVerifier");
    assert!(source.contains("import \"../src/FibVerifier.sol\";\n\ncontract FibVerifierTest is Test {\n    FibVerifier public contract;\n"));
    assert!(source.contains("        contract = new FibVerifier();\n"));
    assert!(source.contains("bytes memory proof = hex\"1234567890abcdef\";"));
    assert_eq!(source.matches("FibVerifier").count(), 4);
    assert!(source.ends_with("assertFalse(result, \"Invalid proof should fail verification\");\n    }\n}"));
}

#[test]
fn proofs_are_laid_out_for_contracts() {
    let h = EVMIntegrationHelper::new();
    let solidity = h.format_proof_for_evm("abcd", ProofFormatType::Solidity);
    assert_eq!(solidity.format_type, ProofFormatType::Solidity);
    assert_eq!(solidity.proof_data, "0xabcd");
    assert!(solidity.public_inputs.is_empty());
    assert!(solidity.metadata.is_empty());
    let calldata = h.format_proof_for_evm("abcd", ProofFormatType::Calldata);
    assert_eq!(calldata.format_type, ProofFormatType::Calldata);
    assert_eq!(calldata.proof_data, "0xabcd");
    let raw = h.format_proof_for_evm("abcd", ProofFormatType::Raw);
    assert_eq!(raw.format_type, ProofFormatType::Raw);
    assert_eq!(raw.proof_data, "abcd");
    let json = h.format_proof_for_evm("abcd", ProofFormatType::JSON);
    assert_eq!(json.format_type, ProofFormatType::JSON);
    assert_eq!(json.proof_data, "{\"proof\":\"abcd\",\"publicInputs\":[],\"verificationKey\":\"default\"}");
    assert!(json.public_inputs.is_empty());
}

#[test]
fn json_layout_escapes_the_proof() {
    let h = EVMIntegrationHelper::new();
    let json = h.format_proof_for_evm("a\"b\\c\nd", ProofFormatType::JSON);
    assert_eq!(
        json.proof_data,
        "{\"proof\":\"a\\\"b\\\\c\\nd\",\"publicInputs\":[],\"verificationKey\":\"default\"}"
    );
    let value: serde_json::Value = serde_json::from_str(&json.proof_data).unwrap();
    assert_eq!(value["proof"], "a\"b\\c\nd");
    assert_eq!(value["verificationKey"], "default");
    assert_eq!(value["publicInputs"].as_array().unwrap().len(), 0);
}
