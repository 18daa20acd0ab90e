//! The tools that the command line offers beside the marketplace. None of them
//! does its work yet: each only has a notice to show in its place.

use vstd::prelude::*;

verus! {

/// Analyses a program image.
pub struct ElfAnalyzer;

/// Optimises a program image.
pub struct Optimizer;

/// Runs a directory of tests.
pub struct BatchTester;

/// Profiles a program.
pub struct Profiler;

impl ElfAnalyzer {
    pub fn new() -> Self {
        ElfAnalyzer
    }

    /// What to show in place of an analysis.
    pub fn notice(&self) -> (text: &'static str)
        ensures
            text@ == "ELF analysis functionality coming soon..."@,
    {
        "ELF analysis functionality coming soon..."
    }
}

impl Optimizer {
    pub fn new() -> Self {
        Optimizer
    }

    /// What to show in place of an optimisation.
    pub fn notice(&self) -> (text: &'static str)
        ensures
            text@ == "ELF optimization functionality coming soon..."@,
    {
        "ELF optimization functionality coming soon..."
    }
}

impl BatchTester {
    pub fn new() -> Self {
        BatchTester
    }

    /// What to show in place of a test run.
    pub fn notice(&self) -> (text: &'static str)
        ensures
            text@ == "Batch testing functionality coming soon..."@,
    {
        "Batch testing functionality coming soon..."
    }
}

impl Profiler {
    pub fn new() -> Self {
        Profiler
    }

    /// What to show in place of a profile.
    pub fn notice(&self) -> (text: &'static str)
        ensures
            text@ == "Profiling functionality coming soon..."@,
    {
        "Profiling functionality coming soon..."
    }
}

} // verus!
