//! What the `analytics` and `optimize` commands report: the report chosen by its
//! name, and which of its optional parts appear.
use vstd::prelude::*;
use crate::args::{AnalyticsArgs, OptimizeArgs};
use crate::text::str_equal;

verus! {

/// The analysis reports.
#[derive(Clone, Copy, Debug, PartialEq, Eq, Structural)]
pub enum ReportKind {
    QueryPatterns,
    IndexUsage,
    StorageAnalysis,
    PerformanceProfile,
    CapacityPlanning,
}

/// The report that a name asks for.
pub open spec fn report_kind_spec(name: Seq<char>) -> Option<ReportKind> {
    if name == "query-patterns"@ {
        Some(ReportKind::QueryPatterns)
    } else if name == "index-usage"@ {
        Some(ReportKind::IndexUsage)
    } else if name == "storage-analysis"@ {
        Some(ReportKind::StorageAnalysis)
    } else if name == "performance-profile"@ {
        Some(ReportKind::PerformanceProfile)
    } else if name == "capacity-planning"@ {
        Some(ReportKind::CapacityPlanning)
    } else {
        None
    }
}

/// The report that a name asks for; nothing for an unknown name.
pub fn report_kind(name: &str) -> (k: Option<ReportKind>)
    ensures
        k == report_kind_spec(name@),
{
    if str_equal(name, "query-patterns") {
        Some(ReportKind::QueryPatterns)
    } else if str_equal(name, "index-usage") {
        Some(ReportKind::IndexUsage)
    } else if str_equal(name, "storage-analysis") {
        Some(ReportKind::StorageAnalysis)
    } else if str_equal(name, "performance-profile") {
        Some(ReportKind::PerformanceProfile)
    } else if str_equal(name, "capacity-planning") {
        Some(ReportKind::CapacityPlanning)
    } else {
        None
    }
}

/// What an `analytics` run shows.
#[derive(Debug, PartialEq, Eq, Structural)]
pub struct AnalyticsPlan {
    /// The report, or `None` for an unknown report type (which lists the known ones).
    pub kind: Option<ReportKind>,
    /// Whether the report ends with its recommendations.
    pub recommendations: bool,
    /// Whether the report is saved to the named output file: a known report with a file named.
    pub saves_report: bool,
}

/// The plan of an `analytics` run: recommendations follow a known report when asked for.
pub fn plan_analytics(args: &AnalyticsArgs) -> (p: AnalyticsPlan)
    ensures
        p.kind == report_kind_spec(args.report_type@),
        p.recommendations == (args.include_recommenaerolithons && p.kind is Some),
        p.saves_report == (args.output_file is Some && p.kind is Some),
{
    let kind = report_kind(args.report_type.as_str());
    let recommendations = args.include_recommenaerolithons && kind.is_some();
    let saves_report = args.output_file.is_some() && kind.is_some();
    AnalyticsPlan { kind, recommendations, saves_report }
}

/// The optimisation analyses.
#[derive(Clone, Copy, Debug, PartialEq, Eq, Structural)]
pub enum OptimizationKind {
    Analyze,
    Indexes,
    Queries,
    Storage,
    Full,
}

/// The analysis that a name asks for.
pub open spec fn optimization_kind_spec(name: Seq<char>) -> Option<OptimizationKind> {
    if name == "analyze"@ {
        Some(OptimizationKind::Analyze)
    } else if name == "indexes"@ {
        Some(OptimizationKind::Indexes)
    } else if name == "queries"@ {
        Some(OptimizationKind::Queries)
    } else if name == "storage"@ {
        Some(OptimizationKind::Storage)
    } else if name == "full"@ {
        Some(OptimizationKind::Full)
    } else {
        None
    }
}

/// The analysis that a name asks for; nothing for an unknown name.
pub fn optimization_kind(name: &str) -> (k: Option<OptimizationKind>)
    ensures
        k == optimization_kind_spec(name@),
{
    if str_equal(name, "analyze") {
        Some(OptimizationKind::Analyze)
    } else if str_equal(name, "indexes") {
        Some(OptimizationKind::Indexes)
    } else if str_equal(name, "queries") {
        Some(OptimizationKind::Queries)
    } else if str_equal(name, "storage") {
        Some(OptimizationKind::Storage)
    } else if str_equal(name, "full") {
        Some(OptimizationKind::Full)
    } else {
        None
    }
}

/// How suggested changes would be applied.
#[derive(Clone, Copy, Debug, PartialEq, Eq, Structural)]
pub enum OptimizeMode {
    /// Nothing is changed.
    DryRun,
    /// Changes are applied without asking.
    AutoApply,
    /// Each change is confirmed first.
    Interactive,
}

/// The mode of an `optimize` run: a dry run wins over automatic application.
pub open spec fn optimize_mode_spec(dry_run: bool, auto_apply: bool) -> OptimizeMode {
    if dry_run {
        OptimizeMode::DryRun
    } else if auto_apply {
        OptimizeMode::AutoApply
    } else {
        OptimizeMode::Interactive
    }
}

/// What an `optimize` run shows.
#[derive(Debug, PartialEq, Eq, Structural)]
pub struct OptimizePlan {
    /// The analysis, or `None` for an unknown type (which lists the known ones and stops).
    pub kind: Option<OptimizationKind>,
    pub mode: OptimizeMode,
    /// Whether the index analysis adds its impact figures.
    pub index_impact: bool,
    /// Whether the general detailed-analysis notes follow.
    pub detailed_notes: bool,
    /// Whether the next steps of an interactive run follow.
    pub next_steps: bool,
}

/// The plan of an `optimize` run.
pub fn plan_optimize(args: &OptimizeArgs) -> (p: OptimizePlan)
    ensures
        p.kind == optimization_kind_spec(args.optimization_type@),
        p.mode == optimize_mode_spec(args.dry_run, args.auto_apply),
        p.index_impact == (args.detailed && p.kind == Some(OptimizationKind::Indexes)),
        p.detailed_notes == (args.detailed && p.kind is Some && p.kind != Some(
            OptimizationKind::Indexes,
        )),
        p.next_steps == (p.kind is Some && p.mode == OptimizeMode::Interactive),
{
    let kind = optimization_kind(args.optimization_type.as_str());
    let mode = if args.dry_run {
        OptimizeMode::DryRun
    } else if args.auto_apply {
        OptimizeMode::AutoApply
    } else {
        OptimizeMode::Interactive
    };
    let is_indexes = match kind {
        Some(OptimizationKind::Indexes) => true,
        _ => false,
    };
    let known = kind.is_some();
    let interactive = match mode {
        OptimizeMode::Interactive => true,
        _ => false,
    };
    OptimizePlan {
        kind,
        mode,
        index_impact: args.detailed && is_indexes,
        detailed_notes: args.detailed && known && !is_indexes,
        next_steps: known && interactive,
    }
}

} // verus!
