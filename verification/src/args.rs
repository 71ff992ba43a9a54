//! The arguments of the command-line client's commands, as plain values.
use vstd::prelude::*;

verus! {

/// Arguments of `put`: store one document.
#[derive(Debug)]
pub struct PutArgs {
    pub collection: String,
    pub id: String,
    pub data: String,
    pub encryption_policy: Option<String>,
    pub replication_factor: Option<u8>,
    pub retention_days: Option<u32>,
}

/// Arguments of `get`: fetch one document.
#[derive(Debug)]
pub struct GetArgs {
    pub collection: String,
    pub id: String,
    pub format: String,
}

/// Arguments of `delete`: remove one document.
#[derive(Debug)]
pub struct DeleteArgs {
    pub collection: String,
    pub id: String,
    pub force: bool,
    pub soft: bool,
}

/// Arguments of `query`: filter, sort and page a collection.
#[derive(Debug)]
pub struct QueryArgs {
    pub collection: String,
    pub filter: Option<String>,
    pub sort: Option<String>,
    pub limit: u32,
    pub offset: u32,
    pub include_metadata: bool,
    pub format: String,
    pub explain: bool,
}

/// Arguments of `list`: the documents of a collection, or the collections.
#[derive(Debug)]
pub struct ListArgs {
    pub collection: Option<String>,
    pub detailed: bool,
    pub format: String,
    pub pattern: Option<String>,
}

/// Arguments of `stats`: database statistics.
#[derive(Debug)]
pub struct StatsArgs {
    pub detailed: bool,
    pub format: String,
    pub category: Option<String>,
    pub history: Option<String>,
}

/// Arguments of `analytics`: an analysis report.
#[derive(Debug)]
pub struct AnalyticsArgs {
    pub report_type: String,
    pub time_range: String,
    pub format: String,
    pub output_file: Option<String>,
    pub include_recommenaerolithons: bool,
}

/// Arguments of `optimize`: optimisation suggestions.
#[derive(Debug)]
pub struct OptimizeArgs {
    pub collection: Option<String>,
    pub optimization_type: String,
    pub auto_apply: bool,
    pub dry_run: bool,
    pub detailed: bool,
}

/// Arguments of `config-validate`.
#[derive(Debug)]
pub struct ConfigValidateArgs {
    pub file_path: Option<String>,
    pub server_config: bool,
    pub strict: bool,
}

/// Arguments of `config-generate`.
#[derive(Debug)]
pub struct ConfigGenerateArgs {
    pub template: String,
    pub format: String,
    pub output: Option<String>,
    pub components: Vec<String>,
}

/// Arguments of `config-show`.
#[derive(Debug)]
pub struct ConfigShowArgs {
    pub server_config: bool,
    pub section: Option<String>,
    pub format: String,
    pub show_secrets: bool,
    pub changed_only: bool,
}

/// Arguments of `batch-put`: store many documents.
#[derive(Debug)]
pub struct BatchPutArgs {
    pub collection: String,
    pub file: Option<String>,
    pub stdin: bool,
    pub format: String,
    pub batch_size: Option<usize>,
    pub parallel: Option<usize>,
    pub continue_on_error: bool,
    pub verbose: bool,
    pub id_field: Option<String>,
}

/// Arguments of `batch-delete`: remove many documents.
#[derive(Debug)]
pub struct BatchDeleteArgs {
    pub collection: String,
    pub ids: Option<String>,
    pub file: Option<String>,
    pub filter: Option<String>,
    pub force: bool,
    pub dry_run: bool,
    pub backup: bool,
    pub batch_size: Option<usize>,
    pub parallel: Option<usize>,
    pub continue_on_error: bool,
    pub verbose: bool,
}

/// Arguments of `batch-import`: load documents from a file.
#[derive(Debug)]
pub struct BatchImportArgs {
    pub collection: String,
    pub file: Option<String>,
    pub format: String,
    pub id_field: Option<String>,
    pub map_fields: Vec<String>,
    pub validate_schema: Option<String>,
    pub batch_size: Option<usize>,
    pub parallel: Option<usize>,
    pub continue_on_error: bool,
    pub verbose: bool,
    pub mode: String,
}

/// Arguments of `batch-export`: write documents to a file.
#[derive(Debug)]
pub struct BatchExportArgs {
    pub collection: String,
    pub output: Option<String>,
    pub format: String,
    pub filter: Option<String>,
    pub fields: Vec<String>,
    pub limit: Option<usize>,
    pub compress: bool,
    pub pretty: bool,
    pub streaming: bool,
}

} // verus!
