//! State of the terminal control center and the transitions that key presses make.
//!
//! Measurements that the terminal front end samples (CPU load, latencies as floats,
//! clock instants, table widgets) stay with the front end; this module holds every
//! part of the state that the key handling reads or writes, with times as
//! millisecond counts.
use vstd::prelude::*;
use crate::text::{
    concat, join_seq, join_strings, owned, pop_char, push_decimal, push_str, str_equal, trim,
};

verus! {

/// Network traffic counters of a node.
#[derive(Clone, Copy, Debug)]
pub struct NetworkIO {
    pub bytes_in: u64,
    pub bytes_out: u64,
    pub packets_in: u64,
    pub packets_out: u64,
}

impl NetworkIO {
    /// All counters at zero.
    pub fn zero() -> (n: NetworkIO)
        ensures
            n.bytes_in == 0 && n.bytes_out == 0 && n.packets_in == 0 && n.packets_out == 0,
    {
        NetworkIO { bytes_in: 0, bytes_out: 0, packets_in: 0, packets_out: 0 }
    }
}

/// The status of one node as the dashboard lists it.
#[derive(Clone, Debug)]
pub struct NodeStatus {
    pub id: String,
    pub name: String,
    pub status: String,
    pub health: String,
    pub uptime_ms: u64,
    pub last_seen_ms: u64,
}

/// One entry of the activity log.
#[derive(Clone, Debug)]
pub struct ActivityLog {
    pub timestamp_ms: u64,
    pub level: String,
    pub message: String,
    pub source: String,
}

/// Counters shown in the dashboard's quick statistics.
#[derive(Clone, Copy, Debug)]
pub struct QuickStats {
    pub active_nodes: u32,
    pub total_requests: u64,
    pub avg_response_time_ms: u64,
}

/// Life-cycle state of a managed node.
#[derive(Clone, Debug)]
pub enum NodeState {
    Running,
    Stopped,
    Starting,
    Stopping,
    Error(String),
    Unknown,
}

/// A node that the node manager controls.
#[derive(Clone, Debug)]
pub struct ManagedNode {
    pub id: String,
    pub name: String,
    pub endpoint: String,
    pub status: NodeState,
    pub capabilities: Vec<String>,
    pub configuration: String,
}

/// The dialog that edits one node's configuration text.
#[derive(Clone, Debug)]
pub struct NodeConfigDialog {
    pub node_id: String,
    pub config_text: String,
    pub cursor_position: usize,
    pub is_valid: bool,
    pub validation_errors: Vec<String>,
}

/// A link between two cluster nodes.
#[derive(Clone, Debug)]
pub struct NodeConnection {
    pub from: String,
    pub to: String,
    pub status: String,
    pub latency_ms: u64,
}

/// A data partition and the nodes that hold it.
#[derive(Clone, Debug)]
pub struct Partition {
    pub id: String,
    pub primary_node: String,
    pub replica_nodes: Vec<String>,
    pub status: String,
}

/// Cluster-wide network health.
#[derive(Clone, Debug)]
pub struct NetworkStatus {
    pub total_nodes: u32,
    pub healthy_nodes: u32,
    pub network_partitions: u32,
    pub consensus_status: String,
}

/// Replication health.
#[derive(Clone, Debug)]
pub struct ReplicationStatus {
    pub replication_lag_ms: u64,
    pub sync_status: String,
    pub failed_replications: u32,
}

/// Severity of a cluster alert.
#[derive(Clone, Copy, Debug)]
pub enum AlertLevel {
    Info,
    Warning,
    Error,
    Critical,
}

/// An alert raised by the cluster monitor.
#[derive(Clone, Debug)]
pub struct ClusterAlert {
    pub id: String,
    pub level: AlertLevel,
    pub message: String,
    pub timestamp_ms: u64,
    pub source: String,
}

/// One test of a suite.
#[derive(Clone, Debug)]
pub struct TestCase {
    pub name: String,
    pub description: String,
    pub timeout_ms: u64,
    pub dependencies: Vec<String>,
}

/// Totals of one run of a suite.
#[derive(Clone, Copy, Debug)]
pub struct TestSuiteResult {
    pub total_tests: u32,
    pub passed: u32,
    pub failed: u32,
    pub skipped: u32,
    pub duration_ms: u64,
}

/// A suite of tests that the test runner can run.
#[derive(Clone, Debug)]
pub struct TestSuite {
    pub name: String,
    pub description: String,
    pub tests: Vec<TestCase>,
    pub last_run_ms: Option<u64>,
    pub last_result: Option<TestSuiteResult>,
}

/// A test in progress; progress is in thousandths.
#[derive(Clone, Debug)]
pub struct RunningTest {
    pub suite_name: String,
    pub test_name: String,
    pub started_at_ms: u64,
    pub progress_permille: u32,
    pub current_step: String,
}

/// Outcome of one test.
#[derive(Clone, Copy, Debug)]
pub enum TestResultStatus {
    Passed,
    Failed,
    Skipped,
    Error,
}

/// The result of one finished test.
#[derive(Clone, Debug)]
pub struct TestResult {
    pub suite_name: String,
    pub test_name: String,
    pub result: TestResultStatus,
    pub duration_ms: u64,
    pub message: Option<String>,
    pub timestamp_ms: u64,
}

/// What the test runner is doing; progress is in thousandths.
#[derive(Clone, Debug)]
pub enum TestExecutionStatus {
    Idle,
    Running { suite: String, progress_permille: u32 },
    Completed { suite: String, result: TestSuiteResult },
    Failed { suite: String, error: String },
}

/// One section of the configuration editor.
#[derive(Clone, Debug)]
pub struct ConfigSection {
    pub name: String,
    pub description: String,
    pub content: String,
    pub is_modified: bool,
}

/// The outcome of validating the configuration.
#[derive(Clone, Debug)]
pub struct ConfigValidationResult {
    pub is_valid: bool,
    pub errors: Vec<String>,
    pub warnings: Vec<String>,
}

/// Cursor and mode of the configuration editor.
#[derive(Clone, Copy, Debug)]
pub struct ConfigEditorState {
    pub cursor_line: usize,
    pub cursor_column: usize,
    pub scroll_offset: usize,
    pub is_editing: bool,
}

/// Whether the console takes commands or shows logs.
#[derive(Clone, Copy, Debug, PartialEq, Eq, Structural)]
pub enum ConsoleMode {
    Command,
    LogViewing,
}

/// An update that a background task sends about a node.
#[derive(Clone, Debug)]
pub enum NodeStatusUpdate {
    NodeAdded(NodeStatus),
    NodeUpdated(NodeStatus),
    NodeRemoved(String),
}

/// An update that a background task sends to the activity log.
#[derive(Clone, Debug)]
pub enum LogUpdate {
    NewEntry(ActivityLog),
    Clear,
}

/// The dashboard tab.
#[derive(Clone, Debug)]
pub struct DashboardState {
    pub node_overview: Vec<NodeStatus>,
    pub recent_activity: Vec<ActivityLog>,
    pub quick_stats: QuickStats,
    pub network_io: NetworkIO,
    pub last_updated_ms: Option<u64>,
}

/// The node manager tab.
#[derive(Clone, Debug)]
pub struct NodeManagerState {
    pub nodes: Vec<ManagedNode>,
    pub selected_node: Option<usize>,
    pub operation_status: Option<String>,
    pub config_dialog: Option<NodeConfigDialog>,
}

/// The cluster monitor tab.
#[derive(Clone, Debug)]
pub struct ClusterMonitorState {
    pub connections: Vec<NodeConnection>,
    pub partitions: Vec<Partition>,
    pub network_status: NetworkStatus,
    pub replication_status: ReplicationStatus,
    pub alerts: Vec<ClusterAlert>,
}

/// The test runner tab.
#[derive(Clone, Debug)]
pub struct TestRunnerState {
    pub test_suites: Vec<TestSuite>,
    pub running_tests: Vec<RunningTest>,
    pub test_results: Vec<TestResult>,
    pub selected_suite: Option<usize>,
    pub test_output: Vec<String>,
    pub execution_status: TestExecutionStatus,
}

/// The configuration tab.
#[derive(Clone, Debug)]
pub struct ConfigurationState {
    pub current_config: String,
    pub config_sections: Vec<ConfigSection>,
    pub selected_section: Option<usize>,
    pub validation_status: Option<ConfigValidationResult>,
    pub editor_state: ConfigEditorState,
}

/// The console tab.
#[derive(Clone, Debug)]
pub struct ConsoleState {
    pub output: Vec<String>,
    pub input: String,
    pub history: Vec<String>,
    pub history_index: Option<usize>,
    pub mode: ConsoleMode,
}

/// The whole control-center state.
#[derive(Clone, Debug)]
pub struct App {
    pub current_tab: usize,
    pub tabs: Vec<&'static str>,
    pub should_quit: bool,
    pub error_message: Option<String>,
    pub status_message: Option<String>,
    pub dashboard: DashboardState,
    pub node_manager: NodeManagerState,
    pub cluster_monitor: ClusterMonitorState,
    pub test_runner: TestRunnerState,
    pub configuration: ConfigurationState,
    pub console: ConsoleState,
}


/// A key press as the control center sees it.
#[derive(Clone, Copy, Debug, PartialEq, Eq, Structural)]
pub enum KeyCode {
    Char(char),
    Tab,
    BackTab,
    Esc,
    Enter,
    Up,
    Down,
    Backspace,
    Delete,
    F(u8),
    Other,
}

/// A key code with the state of the Control modifier.
#[derive(Clone, Copy, Debug, PartialEq, Eq, Structural)]
pub struct KeyInput {
    pub code: KeyCode,
    pub ctrl: bool,
}

/// The mathematical form of a node's life-cycle state.
pub enum NodeStateModel {
    Running,
    Stopped,
    Starting,
    Stopping,
    Error(Seq<char>),
    Unknown,
}

/// The mathematical form of a managed node.
#[verifier::ext_equal]
pub struct NodeModel {
    pub id: Seq<char>,
    pub name: Seq<char>,
    pub endpoint: Seq<char>,
    pub status: NodeStateModel,
    pub capabilities: Seq<Seq<char>>,
    pub configuration: Seq<char>,
}

/// The mathematical form of a node configuration dialog.
#[verifier::ext_equal]
pub struct DialogModel {
    pub node_id: Seq<char>,
    pub config_text: Seq<char>,
    pub cursor_position: nat,
    pub is_valid: bool,
    pub validation_errors: Seq<Seq<char>>,
}

/// The mathematical form of the test runner's execution status.
pub enum ExecutionModel {
    Idle,
    Running { suite: Seq<char>, progress_permille: nat },
    Completed { suite: Seq<char>, result: TestSuiteResult },
    Failed { suite: Seq<char>, error: Seq<char> },
}

/// The mathematical form of a configuration validation result.
#[verifier::ext_equal]
pub struct ValidationModel {
    pub is_valid: bool,
    pub errors: Seq<Seq<char>>,
    pub warnings: Seq<Seq<char>>,
}

/// Everything of the control-center state that key presses read or write.
#[verifier::ext_equal]
pub struct AppModel {
    pub current_tab: nat,
    pub tab_count: nat,
    pub should_quit: bool,
    pub error_message: Option<Seq<char>>,
    pub status_message: Option<Seq<char>>,
    pub activity: Seq<ActivityLog>,
    pub active_nodes: nat,
    pub total_requests: nat,
    pub nodes: Seq<NodeModel>,
    pub selected_node: Option<nat>,
    pub operation_status: Option<Seq<char>>,
    pub config_dialog: Option<DialogModel>,
    pub alerts: Seq<ClusterAlert>,
    pub suite_names: Seq<Seq<char>>,
    pub running_tests: Seq<RunningTest>,
    pub selected_suite: Option<nat>,
    pub test_output: Seq<Seq<char>>,
    pub execution: ExecutionModel,
    pub current_config: Seq<char>,
    pub section_names: Seq<Seq<char>>,
    pub section_contents: Seq<Seq<char>>,
    pub selected_section: Option<nat>,
    pub validation: Option<ValidationModel>,
    pub editing: bool,
    pub console_output: Seq<Seq<char>>,
    pub console_input: Seq<char>,
    pub history: Seq<Seq<char>>,
    pub history_index: Option<nat>,
    pub console_mode: ConsoleMode,
}

/// The views of a vector of strings.
pub open spec fn strings_model(v: Seq<String>) -> Seq<Seq<char>> {
    v.map_values(|s: String| s@)
}

/// The view of an optional string.
pub open spec fn opt_string_model(o: Option<String>) -> Option<Seq<char>> {
    match o {
        Some(s) => Some(s@),
        None => None,
    }
}

/// The view of an optional index.
pub open spec fn opt_index_model(o: Option<usize>) -> Option<nat> {
    match o {
        Some(i) => Some(i as nat),
        None => None,
    }
}

impl NodeState {
    pub open spec fn model(&self) -> NodeStateModel {
        match self {
            NodeState::Running => NodeStateModel::Running,
            NodeState::Stopped => NodeStateModel::Stopped,
            NodeState::Starting => NodeStateModel::Starting,
            NodeState::Stopping => NodeStateModel::Stopping,
            NodeState::Error(m) => NodeStateModel::Error(m@),
            NodeState::Unknown => NodeStateModel::Unknown,
        }
    }
}

impl ManagedNode {
    pub open spec fn model(&self) -> NodeModel {
        NodeModel {
            id: self.id@,
            name: self.name@,
            endpoint: self.endpoint@,
            status: self.status.model(),
            capabilities: strings_model(self.capabilities@),
            configuration: self.configuration@,
        }
    }
}

impl NodeConfigDialog {
    pub open spec fn model(&self) -> DialogModel {
        DialogModel {
            node_id: self.node_id@,
            config_text: self.config_text@,
            cursor_position: self.cursor_position as nat,
            is_valid: self.is_valid,
            validation_errors: strings_model(self.validation_errors@),
        }
    }
}

impl TestExecutionStatus {
    pub open spec fn model(&self) -> ExecutionModel {
        match self {
            TestExecutionStatus::Idle => ExecutionModel::Idle,
            TestExecutionStatus::Running { suite, progress_permille } => ExecutionModel::Running {
                suite: suite@,
                progress_permille: *progress_permille as nat,
            },
            TestExecutionStatus::Completed { suite, result } => ExecutionModel::Completed {
                suite: suite@,
                result: *result,
            },
            TestExecutionStatus::Failed { suite, error } => ExecutionModel::Failed {
                suite: suite@,
                error: error@,
            },
        }
    }
}

impl ConfigValidationResult {
    pub open spec fn model(&self) -> ValidationModel {
        ValidationModel {
            is_valid: self.is_valid,
            errors: strings_model(self.errors@),
            warnings: strings_model(self.warnings@),
        }
    }
}

/// The model of the nodes of a node list.
pub open spec fn nodes_model(v: Seq<ManagedNode>) -> Seq<NodeModel> {
    v.map_values(|n: ManagedNode| n.model())
}

impl App {
    /// The part of the state that key presses read or write.
    pub open spec fn model(&self) -> AppModel {
        AppModel {
            current_tab: self.current_tab as nat,
            tab_count: self.tabs@.len(),
            should_quit: self.should_quit,
            error_message: opt_string_model(self.error_message),
            status_message: opt_string_model(self.status_message),
            activity: self.dashboard.recent_activity@,
            active_nodes: self.dashboard.quick_stats.active_nodes as nat,
            total_requests: self.dashboard.quick_stats.total_requests as nat,
            nodes: nodes_model(self.node_manager.nodes@),
            selected_node: opt_index_model(self.node_manager.selected_node),
            operation_status: opt_string_model(self.node_manager.operation_status),
            config_dialog: match self.node_manager.config_dialog {
                Some(d) => Some(d.model()),
                None => None,
            },
            alerts: self.cluster_monitor.alerts@,
            suite_names: self.test_runner.test_suites@.map_values(|t: TestSuite| t.name@),
            running_tests: self.test_runner.running_tests@,
            selected_suite: opt_index_model(self.test_runner.selected_suite),
            test_output: strings_model(self.test_runner.test_output@),
            execution: self.test_runner.execution_status.model(),
            current_config: self.configuration.current_config@,
            section_names: self.configuration.config_sections@.map_values(
                |c: ConfigSection| c.name@,
            ),
            section_contents: self.configuration.config_sections@.map_values(
                |c: ConfigSection| c.content@,
            ),
            selected_section: opt_index_model(self.configuration.selected_section),
            validation: match self.configuration.validation_status {
                Some(v) => Some(v.model()),
                None => None,
            },
            editing: self.configuration.editor_state.is_editing,
            console_output: strings_model(self.console.output@),
            console_input: self.console.input@,
            history: strings_model(self.console.history@),
            history_index: opt_index_model(self.console.history_index),
            console_mode: self.console.mode,
        }
    }

    /// The parts of the state that no key press changes are those of `other`.
    pub open spec fn same_frame(&self, other: &App) -> bool {
        &&& self.tabs == other.tabs
        &&& self.dashboard.node_overview == other.dashboard.node_overview
        &&& self.dashboard.quick_stats == other.dashboard.quick_stats
        &&& self.dashboard.network_io == other.dashboard.network_io
        &&& self.dashboard.last_updated_ms == other.dashboard.last_updated_ms
        &&& self.cluster_monitor.connections == other.cluster_monitor.connections
        &&& self.cluster_monitor.partitions == other.cluster_monitor.partitions
        &&& self.cluster_monitor.network_status == other.cluster_monitor.network_status
        &&& self.cluster_monitor.replication_status == other.cluster_monitor.replication_status
        &&& self.test_runner.test_suites == other.test_runner.test_suites
        &&& self.test_runner.test_results == other.test_runner.test_results
        &&& self.configuration.config_sections == other.configuration.config_sections
        &&& self.configuration.editor_state.cursor_line
            == other.configuration.editor_state.cursor_line
        &&& self.configuration.editor_state.cursor_column
            == other.configuration.editor_state.cursor_column
        &&& self.configuration.editor_state.scroll_offset
            == other.configuration.editor_state.scroll_offset
    }

    /// Well-formedness: the tab and every selection point into their lists.
    pub open spec fn wf(&self) -> bool {
        wf_model(self.model())
    }
}

/// Well-formedness of a model: the tab and every selection point into their lists.
pub open spec fn wf_model(m: AppModel) -> bool {
    &&& m.tab_count > 0
    &&& m.current_tab < m.tab_count
    &&& (m.selected_node matches Some(i) ==> i < m.nodes.len())
    &&& (m.selected_suite matches Some(i) ==> i < m.suite_names.len())
    &&& (m.selected_section matches Some(i) ==> i < m.section_names.len())
    &&& (m.history_index matches Some(i) ==> i < m.history.len())
    &&& m.section_names.len() == m.section_contents.len()
}


/// The state with a status message set.
pub open spec fn with_status(m: AppModel, msg: Seq<char>) -> AppModel {
    AppModel { status_message: Some(msg), ..m }
}

/// The state with an error message set.
pub open spec fn with_error(m: AppModel, msg: Seq<char>) -> AppModel {
    AppModel { error_message: Some(msg), ..m }
}

/// The help text of a tab.
pub open spec fn help_text(tab: nat) -> Seq<char> {
    if tab == 0 {
        "Dashboard Help:\n[R] Refresh data\n[C] Clear activity log"@
    } else if tab == 1 {
        "Node Manager Help:\n[↑↓] Navigate nodes\n[S] Start node\n[T] Stop node\n[R] Restart node\n[C] Configure\n[A] Add node\n[Del] Remove node"@
    } else if tab == 2 {
        "Cluster Monitor Help:\n[R] Refresh status\n[T] Topology view\n[A] Alerts view\n[C] Clear alerts"@
    } else if tab == 3 {
        "Test Runner Help:\n[↑↓] Navigate test suites\n[Enter/R] Run selected suite\n[S] Stop execution\n[C] Clear output\n[A] Run all suites"@
    } else if tab == 4 {
        "Configuration Help:\n[↑↓] Navigate sections\n[Enter] Edit section\n[V] Validate\n[S] Save\n[L] Load\n[R] Reset"@
    } else if tab == 5 {
        "Console Help:\n[Enter] Execute command\n[↑↓] Command history\n[Ctrl+C] Clear input\n[Ctrl+L] Clear output"@
    } else {
        "Global Help:\n[Tab] Next tab\n[Shift+Tab] Previous tab\n[F1/H] Help\n[F5] Refresh\n[Esc] Clear messages\n[Ctrl+Q] Quit"@
    }
}

/// The state after F5 on the current tab.
pub open spec fn refresh_step(m: AppModel) -> AppModel {
    if m.current_tab == 0 {
        with_status(m, "Refreshing dashboard..."@)
    } else if m.current_tab == 1 {
        with_status(m, "Refreshing node list..."@)
    } else if m.current_tab == 2 {
        with_status(m, "Refreshing cluster status..."@)
    } else if m.current_tab == 3 {
        with_status(m, "Refreshing test suites..."@)
    } else if m.current_tab == 4 {
        with_status(m, "Refreshing configuration..."@)
    } else if m.current_tab == 5 {
        with_status(m, "Console is up to date"@)
    } else {
        m
    }
}

/// Moving a selection up in a list of `len` items.
pub open spec fn select_up(sel: Option<nat>, len: nat) -> Option<nat> {
    match sel {
        Some(i) => if i > 0 {
            Some((i - 1) as nat)
        } else {
            Some(i)
        },
        None => if len > 0 {
            Some(0)
        } else {
            None
        },
    }
}

/// Moving a selection down in a list of `len` items.
pub open spec fn select_down(sel: Option<nat>, len: nat) -> Option<nat> {
    match sel {
        Some(i) => if i + 1 < len {
            Some(i + 1)
        } else {
            Some(i)
        },
        None => if len > 0 {
            Some(0)
        } else {
            None
        },
    }
}

/// The display text of a node state.
pub open spec fn node_state_text(s: NodeStateModel) -> Seq<char> {
    match s {
        NodeStateModel::Running => "Running"@,
        NodeStateModel::Stopped => "Stopped"@,
        NodeStateModel::Starting => "Starting"@,
        NodeStateModel::Stopping => "Stopping"@,
        NodeStateModel::Error(msg) => "Error: "@ + msg,
        NodeStateModel::Unknown => "Unknown"@,
    }
}

/// The name of the selected node, or `Unknown` when the selection is out of range.
pub open spec fn selected_node_name(m: AppModel, i: nat) -> Seq<char> {
    if i < m.nodes.len() {
        m.nodes[i as int].name
    } else {
        "Unknown"@
    }
}

/// The state after changing the selected node's life-cycle state, with the given
/// status prefix and operation prefix.
pub open spec fn node_operation_step(
    m: AppModel,
    new_state: NodeStateModel,
    status_prefix: Seq<char>,
    op_prefix: Seq<char>,
) -> AppModel {
    match m.selected_node {
        Some(i) => {
            let name = selected_node_name(m, i);
            let m1 = with_status(m, status_prefix + name);
            if i < m.nodes.len() {
                AppModel {
                    nodes: m1.nodes.update(i as int, NodeModel { status: new_state, ..m1.nodes[i as int] }),
                    operation_status: Some(op_prefix + name),
                    ..m1
                }
            } else {
                m1
            }
        },
        None => with_error(m, "No node selected"@),
    }
}

/// The node that `add_new_node` appends to a list of `len` nodes.
pub open spec fn new_node_model(len: nat) -> NodeModel {
    NodeModel {
        id: "node-"@ + crate::text::decimal(len + 1),
        name: "Node "@ + crate::text::decimal(len + 1),
        endpoint: "http://localhost:8080"@,
        status: NodeStateModel::Stopped,
        capabilities: seq!["storage"@, "compute"@],
        configuration: "{}"@,
    }
}

/// The details text of a node.
pub open spec fn node_details_text(n: NodeModel) -> Seq<char> {
    "Node Details:\nID: "@ + n.id + "\nName: "@ + n.name + "\nEndpoint: "@ + n.endpoint
        + "\nStatus: "@ + node_state_text(n.status) + "\nCapabilities: "@ + join_seq(
        n.capabilities,
        ", "@,
    )
}

/// The state after removing the selected node.
pub open spec fn remove_node_step(m: AppModel) -> AppModel {
    match m.selected_node {
        Some(i) => if i < m.nodes.len() {
            let removed = m.nodes[i as int];
            let rest = m.nodes.remove(i as int);
            let m1 = with_status(AppModel { nodes: rest, ..m }, "Removed node: "@ + removed.name);
            if rest.len() == 0 {
                AppModel { selected_node: None, ..m1 }
            } else if i >= rest.len() {
                AppModel { selected_node: Some((rest.len() - 1) as nat), ..m1 }
            } else {
                m1
            }
        } else {
            m
        },
        None => with_error(m, "No node selected"@),
    }
}

/// The state after a key press on the node manager tab.
pub open spec fn node_manager_step(m: AppModel, k: KeyInput) -> AppModel {
    match k.code {
        KeyCode::Up => AppModel { selected_node: select_up(m.selected_node, m.nodes.len()), ..m },
        KeyCode::Down => AppModel {
            selected_node: select_down(m.selected_node, m.nodes.len()),
            ..m
        },
        KeyCode::Char(c) => if c == 's' || c == 'S' {
            node_operation_step(
                m,
                NodeStateModel::Starting,
                "Starting node: "@,
                "Starting node "@,
            )
        } else if c == 't' || c == 'T' {
            node_operation_step(
                m,
                NodeStateModel::Stopping,
                "Stopping node: "@,
                "Stopping node "@,
            )
        } else if c == 'r' || c == 'R' {
            node_operation_step(
                m,
                NodeStateModel::Stopping,
                "Restarting node: "@,
                "Restarting node "@,
            )
        } else if c == 'c' || c == 'C' {
            match m.selected_node {
                Some(i) => if i < m.nodes.len() {
                    with_status(
                        AppModel {
                            config_dialog: Some(
                                DialogModel {
                                    node_id: m.nodes[i as int].id,
                                    config_text: m.nodes[i as int].configuration,
                                    cursor_position: 0,
                                    is_valid: true,
                                    validation_errors: seq![],
                                },
                            ),
                            ..m
                        },
                        "Opened configuration dialog"@,
                    )
                } else {
                    m
                },
                None => with_error(m, "No node selected"@),
            }
        } else if c == 'a' || c == 'A' {
            with_status(
                AppModel { nodes: m.nodes.push(new_node_model(m.nodes.len())), ..m },
                "Added new node"@,
            )
        } else {
            m
        },
        KeyCode::Delete => remove_node_step(m),
        KeyCode::Enter => match m.selected_node {
            Some(i) => if i < m.nodes.len() {
                with_status(m, node_details_text(m.nodes[i as int]))
            } else {
                m
            },
            None => m,
        },
        _ => m,
    }
}

/// The state after a key press on the dashboard tab.
pub open spec fn dashboard_step(m: AppModel, k: KeyInput) -> AppModel {
    if k.code == KeyCode::Char('r') {
        with_status(m, "Refreshing dashboard data..."@)
    } else if k.code == KeyCode::Char('c') {
        with_status(AppModel { activity: seq![], ..m }, "Activity log cleared"@)
    } else {
        m
    }
}

/// The state after a key press on the cluster monitor tab.
pub open spec fn cluster_monitor_step(m: AppModel, k: KeyInput) -> AppModel {
    if k.code == KeyCode::Char('r') {
        with_status(m, "Refreshing cluster status..."@)
    } else if k.code == KeyCode::Char('t') {
        with_status(m, "Showing topology view..."@)
    } else if k.code == KeyCode::Char('a') {
        with_status(m, "Showing alerts view..."@)
    } else if k.code == KeyCode::Char('c') {
        with_status(AppModel { alerts: seq![], ..m }, "Alerts cleared"@)
    } else {
        m
    }
}

/// The state after a key press on the test runner tab.
pub open spec fn test_runner_step(m: AppModel, k: KeyInput) -> AppModel {
    if k.code == KeyCode::Up {
        AppModel { selected_suite: select_up(m.selected_suite, m.suite_names.len()), ..m }
    } else if k.code == KeyCode::Down {
        AppModel { selected_suite: select_down(m.selected_suite, m.suite_names.len()), ..m }
    } else if k.code == KeyCode::Enter || k.code == KeyCode::Char('r') {
        match m.selected_suite {
            Some(i) => {
                let name = if i < m.suite_names.len() {
                    m.suite_names[i as int]
                } else {
                    "Unknown Suite"@
                };
                with_status(
                    AppModel {
                        execution: ExecutionModel::Running { suite: name, progress_permille: 0 },
                        ..m
                    },
                    "Running test suite: "@ + name,
                )
            },
            None => with_error(m, "No test suite selected"@),
        }
    } else if k.code == KeyCode::Char('s') {
        with_status(
            AppModel { execution: ExecutionModel::Idle, running_tests: seq![], ..m },
            "Test execution stopped"@,
        )
    } else if k.code == KeyCode::Char('c') {
        with_status(AppModel { test_output: seq![], ..m }, "Test output cleared"@)
    } else if k.code == KeyCode::Char('a') {
        if m.suite_names.len() == 0 {
            with_error(m, "No test suites available"@)
        } else {
            with_status(
                AppModel {
                    execution: ExecutionModel::Running {
                        suite: "All Suites"@,
                        progress_permille: 0,
                    },
                    ..m
                },
                "Running all test suites..."@,
            )
        }
    } else {
        m
    }
}

/// The state after a key press on the configuration tab.
pub open spec fn configuration_step(m: AppModel, k: KeyInput) -> AppModel {
    if k.code == KeyCode::Up {
        AppModel { selected_section: select_up(m.selected_section, m.section_names.len()), ..m }
    } else if k.code == KeyCode::Down {
        AppModel {
            selected_section: select_down(m.selected_section, m.section_names.len()),
            ..m
        }
    } else if k.code == KeyCode::Enter {
        match m.selected_section {
            Some(i) => if i < m.section_names.len() {
                with_status(
                    AppModel { current_config: m.section_contents[i as int], editing: true, ..m },
                    "Editing configuration section: "@ + m.section_names[i as int],
                )
            } else {
                m
            },
            None => with_error(m, "No configuration section selected"@),
        }
    } else if k.code == KeyCode::Char('v') {
        with_status(
            AppModel {
                validation: Some(ValidationModel { is_valid: true, errors: seq![], warnings: seq![] }),
                ..m
            },
            "Configuration validated successfully"@,
        )
    } else if k.code == KeyCode::Char('s') {
        with_status(m, "Configuration saved"@)
    } else if k.code == KeyCode::Char('l') {
        with_status(m, "Configuration loaded"@)
    } else if k.code == KeyCode::Char('r') {
        with_status(AppModel { current_config: seq![], editing: false, ..m }, "Configuration reset"@)
    } else if m.editing {
        match k.code {
            KeyCode::Char(c) => AppModel { current_config: m.current_config.push(c), ..m },
            KeyCode::Backspace => if m.current_config.len() > 0 {
                AppModel { current_config: m.current_config.drop_last(), ..m }
            } else {
                m
            },
            _ => m,
        }
    } else {
        m
    }
}

/// The console lines that the `nodes` command prints for the nodes from index `i` on.
pub open spec fn node_lines(nodes: Seq<NodeModel>) -> Seq<Seq<char>> {
    Seq::new(
        nodes.len(),
        |i: int|
            "  "@ + crate::text::decimal((i + 1) as nat) + ": "@ + nodes[i].name + " ("@
                + node_state_text(nodes[i].status) + ")"@,
    )
}

/// The console output after running a (trimmed, non-empty) command.
pub open spec fn command_output(m: AppModel, cmd: Seq<char>) -> Seq<Seq<char>> {
    let out = m.console_output.push("> "@ + cmd);
    if cmd == "help"@ {
        out + seq![
            "Available commands:"@,
            "  help - Show this help"@,
            "  status - Show system status"@,
            "  nodes - List all nodes"@,
            "  clear - Clear console output"@,
            "  quit - Exit application"@,
        ]
    } else if cmd == "status"@ {
        out + seq![
            "System Status: Online"@,
            "Active nodes: "@ + crate::text::decimal(m.active_nodes),
            "Total requests: "@ + crate::text::decimal(m.total_requests),
        ]
    } else if cmd == "nodes"@ {
        out.push("Managed Nodes:"@) + node_lines(m.nodes)
    } else if cmd == "clear"@ {
        seq![]
    } else if cmd == "quit"@ {
        out
    } else {
        out + seq!["Unknown command: "@ + cmd, "Type 'help' for available commands"@]
    }
}

/// The state after Enter in console command mode.
pub open spec fn execute_command_step(m: AppModel) -> AppModel {
    let cmd = crate::text::trimmed(m.console_input);
    if cmd.len() == 0 {
        m
    } else {
        AppModel {
            history: m.history.push(cmd),
            history_index: None,
            console_output: command_output(m, cmd),
            should_quit: m.should_quit || cmd == "quit"@,
            console_input: seq![],
            ..m
        }
    }
}

/// The state after Up in console command mode: an earlier history entry.
pub open spec fn history_up_step(m: AppModel) -> AppModel {
    if m.history.len() == 0 {
        m
    } else {
        let idx: nat = match m.history_index {
            None => (m.history.len() - 1) as nat,
            Some(i) => if i > 0 {
                (i - 1) as nat
            } else {
                i
            },
        };
        AppModel { history_index: Some(idx), console_input: m.history[idx as int], ..m }
    }
}

/// The state after Down in console command mode: a later history entry, or none.
pub open spec fn history_down_step(m: AppModel) -> AppModel {
    if m.history.len() == 0 {
        m
    } else {
        match m.history_index {
            None => m,
            Some(i) => if i + 1 < m.history.len() {
                AppModel {
                    history_index: Some(i + 1),
                    console_input: m.history[(i + 1) as int],
                    ..m
                }
            } else {
                AppModel { history_index: None, console_input: seq![], ..m }
            },
        }
    }
}

/// The state after a key press on the console tab.
pub open spec fn console_step(m: AppModel, k: KeyInput) -> AppModel {
    match m.console_mode {
        ConsoleMode::Command => match k.code {
            KeyCode::Enter => execute_command_step(m),
            KeyCode::Up => history_up_step(m),
            KeyCode::Down => history_down_step(m),
            KeyCode::Char(c) => AppModel { console_input: m.console_input.push(c), ..m },
            KeyCode::Backspace => if m.console_input.len() > 0 {
                AppModel { console_input: m.console_input.drop_last(), ..m }
            } else {
                m
            },
            _ => m,
        },
        ConsoleMode::LogViewing => if k.code == KeyCode::Char('c') {
            with_status(AppModel { console_mode: ConsoleMode::Command, ..m }, "Switched to command mode"@)
        } else if k.code == KeyCode::Char('l') {
            with_status(AppModel { console_output: seq![], ..m }, "Console output cleared"@)
        } else {
            m
        },
    }
}

/// The tab after the current one, wrapping around.
pub open spec fn next_tab_index(m: AppModel) -> nat {
    ((m.current_tab + 1) % m.tab_count) as nat
}

/// The tab before the current one, wrapping around.
pub open spec fn previous_tab_index(m: AppModel) -> nat {
    if m.current_tab > 0 {
        (m.current_tab - 1) as nat
    } else {
        (m.tab_count - 1) as nat
    }
}

/// The state after a key press: global keys first, then the current tab's keys.
pub open spec fn step(m: AppModel, k: KeyInput) -> AppModel {
    match k.code {
        KeyCode::Char(c) if c == 'q' || c == 'Q' || (c == 'c' && k.ctrl) => AppModel {
            should_quit: true,
            ..m
        },
        KeyCode::Tab => AppModel { current_tab: next_tab_index(m), ..m },
        KeyCode::BackTab => AppModel { current_tab: previous_tab_index(m), ..m },
        KeyCode::Esc => AppModel { error_message: None, status_message: None, ..m },
        KeyCode::Char('h') => with_status(m, help_text(m.current_tab)),
        KeyCode::F(1) => with_status(m, help_text(m.current_tab)),
        KeyCode::F(5) => refresh_step(m),
        _ => if m.current_tab == 0 {
            dashboard_step(m, k)
        } else if m.current_tab == 1 {
            node_manager_step(m, k)
        } else if m.current_tab == 2 {
            cluster_monitor_step(m, k)
        } else if m.current_tab == 3 {
            test_runner_step(m, k)
        } else if m.current_tab == 4 {
            configuration_step(m, k)
        } else if m.current_tab == 5 {
            console_step(m, k)
        } else {
            m
        },
    }
}


/// The display text of a node state, as its `Display` form shows it.
pub fn node_state_label(st: &NodeState) -> (r: String)
    ensures
        r@ == node_state_text(st.model()),
{
    match st {
        NodeState::Running => owned("Running"),
        NodeState::Stopped => owned("Stopped"),
        NodeState::Starting => owned("Starting"),
        NodeState::Stopping => owned("Stopping"),
        NodeState::Error(msg) => concat("Error: ", msg.as_str()),
        NodeState::Unknown => owned("Unknown"),
    }
}

/// The display text of an alert level.
pub fn alert_level_label(level: AlertLevel) -> (s: &'static str)
    ensures
        s@ == match level {
            AlertLevel::Info => "INFO"@,
            AlertLevel::Warning => "WARN"@,
            AlertLevel::Error => "ERROR"@,
            AlertLevel::Critical => "CRITICAL"@,
        },
{
    match level {
        AlertLevel::Info => "INFO",
        AlertLevel::Warning => "WARN",
        AlertLevel::Error => "ERROR",
        AlertLevel::Critical => "CRITICAL",
    }
}

/// The display text of a test outcome.
pub fn test_result_label(result: TestResultStatus) -> (s: &'static str)
    ensures
        s@ == match result {
            TestResultStatus::Passed => "PASSED"@,
            TestResultStatus::Failed => "FAILED"@,
            TestResultStatus::Skipped => "SKIPPED"@,
            TestResultStatus::Error => "ERROR"@,
        },
{
    match result {
        TestResultStatus::Passed => "PASSED",
        TestResultStatus::Failed => "FAILED",
        TestResultStatus::Skipped => "SKIPPED",
        TestResultStatus::Error => "ERROR",
    }
}

impl App {
    /// Sets the status message.
    pub fn set_status(&mut self, message: String)
        ensures
            final(self).model() == with_status(old(self).model(), message@),
            final(self).same_frame(old(self)),
    {
        self.status_message = Some(message);
        assert(self.model() =~= with_status(old(self).model(), message@));
    }

    /// Clears the status message.
    pub fn clear_status(&mut self)
        ensures
            final(self).model() == (AppModel { status_message: None, ..old(self).model() }),
            final(self).same_frame(old(self)),
    {
        self.status_message = None;
        assert(self.model() =~= AppModel { status_message: None, ..old(self).model() });
    }

    /// Sets the error message.
    pub fn set_error(&mut self, message: String)
        ensures
            final(self).model() == with_error(old(self).model(), message@),
            final(self).same_frame(old(self)),
    {
        self.error_message = Some(message);
        assert(self.model() =~= with_error(old(self).model(), message@));
    }

    /// Clears the error message.
    pub fn clear_error(&mut self)
        ensures
            final(self).model() == (AppModel { error_message: None, ..old(self).model() }),
            final(self).same_frame(old(self)),
    {
        self.error_message = None;
        assert(self.model() =~= AppModel { error_message: None, ..old(self).model() });
    }

    /// Asks the application to quit.
    pub fn quit(&mut self)
        ensures
            final(self).model() == (AppModel { should_quit: true, ..old(self).model() }),
            final(self).same_frame(old(self)),
    {
        self.should_quit = true;
        assert(self.model() =~= AppModel { should_quit: true, ..old(self).model() });
    }

    /// Moves to the next tab, wrapping around after the last.
    pub fn next_tab(&mut self)
        requires
            old(self).tabs.len() > 0,
            old(self).current_tab < usize::MAX,
        ensures
            final(self).model() == (AppModel {
                current_tab: next_tab_index(old(self).model()),
                ..old(self).model()
            }),
            final(self).same_frame(old(self)),
    {
        self.current_tab = (self.current_tab + 1) % self.tabs.len();
        assert(self.model() =~= AppModel {
            current_tab: next_tab_index(old(self).model()),
            ..old(self).model()
        });
    }

    /// Moves to the previous tab, wrapping around before the first.
    pub fn previous_tab(&mut self)
        requires
            old(self).tabs.len() > 0,
        ensures
            final(self).model() == (AppModel {
                current_tab: previous_tab_index(old(self).model()),
                ..old(self).model()
            }),
            final(self).same_frame(old(self)),
    {
        if self.current_tab > 0 {
            self.current_tab = self.current_tab - 1;
        } else {
            self.current_tab = self.tabs.len() - 1;
        }
        assert(self.model() =~= AppModel {
            current_tab: previous_tab_index(old(self).model()),
            ..old(self).model()
        });
    }

    /// The name of the current tab.
    pub fn current_tab_name(&self) -> (name: &'static str)
        requires
            self.current_tab < self.tabs.len(),
        ensures
            name == self.tabs@[self.current_tab as int],
    {
        self.tabs[self.current_tab]
    }

    fn set_status_text(&mut self, text: &str)
        ensures
            final(self).model() == with_status(old(self).model(), text@),
            final(self).same_frame(old(self)),
    {
        self.set_status(owned(text));
    }

    fn set_error_text(&mut self, text: &str)
        ensures
            final(self).model() == with_error(old(self).model(), text@),
            final(self).same_frame(old(self)),
    {
        self.set_error(owned(text));
    }

    fn show_help(&mut self)
        ensures
            final(self).model() == with_status(old(self).model(), help_text(old(self).current_tab as nat)),
            final(self).same_frame(old(self)),
    {
        if self.current_tab == 0 {
            self.set_status_text("Dashboard Help:\n[R] Refresh data\n[C] Clear activity log");
        } else if self.current_tab == 1 {
            self.set_status_text("Node Manager Help:\n[↑↓] Navigate nodes\n[S] Start node\n[T] Stop node\n[R] Restart node\n[C] Configure\n[A] Add node\n[Del] Remove node");
        } else if self.current_tab == 2 {
            self.set_status_text("Cluster Monitor Help:\n[R] Refresh status\n[T] Topology view\n[A] Alerts view\n[C] Clear alerts");
        } else if self.current_tab == 3 {
            self.set_status_text("Test Runner Help:\n[↑↓] Navigate test suites\n[Enter/R] Run selected suite\n[S] Stop execution\n[C] Clear output\n[A] Run all suites");
        } else if self.current_tab == 4 {
            self.set_status_text("Configuration Help:\n[↑↓] Navigate sections\n[Enter] Edit section\n[V] Validate\n[S] Save\n[L] Load\n[R] Reset");
        } else if self.current_tab == 5 {
            self.set_status_text("Console Help:\n[Enter] Execute command\n[↑↓] Command history\n[Ctrl+C] Clear input\n[Ctrl+L] Clear output");
        } else {
            self.set_status_text("Global Help:\n[Tab] Next tab\n[Shift+Tab] Previous tab\n[F1/H] Help\n[F5] Refresh\n[Esc] Clear messages\n[Ctrl+Q] Quit");
        }
    }

    fn refresh_data(&mut self)
        ensures
            final(self).model() == refresh_step(old(self).model()),
            final(self).same_frame(old(self)),
    {
        if self.current_tab == 0 {
            self.set_status_text("Refreshing dashboard...");
        } else if self.current_tab == 1 {
            self.set_status_text("Refreshing node list...");
        } else if self.current_tab == 2 {
            self.set_status_text("Refreshing cluster status...");
        } else if self.current_tab == 3 {
            self.set_status_text("Refreshing test suites...");
        } else if self.current_tab == 4 {
            self.set_status_text("Refreshing configuration...");
        } else if self.current_tab == 5 {
            self.set_status_text("Console is up to date");
        }
    }

    fn handle_dashboard_events(&mut self, key: KeyInput)
        ensures
            final(self).model() == dashboard_step(old(self).model(), key),
            final(self).same_frame(old(self)),
    {
        if key.code == KeyCode::Char('r') {
            self.set_status_text("Refreshing dashboard data...");
        } else if key.code == KeyCode::Char('c') {
            self.dashboard.recent_activity.clear();
            assert(self.model() =~= AppModel { activity: seq![], ..old(self).model() });
            self.set_status_text("Activity log cleared");
        }
    }

    fn handle_cluster_monitor_events(&mut self, key: KeyInput)
        ensures
            final(self).model() == cluster_monitor_step(old(self).model(), key),
            final(self).same_frame(old(self)),
    {
        if key.code == KeyCode::Char('r') {
            self.set_status_text("Refreshing cluster status...");
        } else if key.code == KeyCode::Char('t') {
            self.set_status_text("Showing topology view...");
        } else if key.code == KeyCode::Char('a') {
            self.set_status_text("Showing alerts view...");
        } else if key.code == KeyCode::Char('c') {
            self.cluster_monitor.alerts.clear();
            assert(self.model() =~= AppModel { alerts: seq![], ..old(self).model() });
            self.set_status_text("Alerts cleared");
        }
    }
}


impl App {
    fn select_node(&mut self, sel: Option<usize>)
        ensures
            final(self).model() == (AppModel {
                selected_node: opt_index_model(sel),
                ..old(self).model()
            }),
            final(self).same_frame(old(self)),
    {
        self.node_manager.selected_node = sel;
        assert(self.model() =~= AppModel { selected_node: opt_index_model(sel), ..old(self).model() });
    }

    fn node_operation(&mut self, new_state: NodeState, status_prefix: &str, op_prefix: &str)
        ensures
            final(self).model() == node_operation_step(
                old(self).model(),
                new_state.model(),
                status_prefix@,
                op_prefix@,
            ),
            final(self).same_frame(old(self)),
    {
        match self.node_manager.selected_node {
            Some(sel) => {
                let name = if sel < self.node_manager.nodes.len() {
                    self.node_manager.nodes[sel].name.clone()
                } else {
                    owned("Unknown")
                };
                let ghost m0 = self.model();
                assert(name@ == selected_node_name(m0, sel as nat));
                self.set_status(concat(status_prefix, name.as_str()));
                if sel < self.node_manager.nodes.len() {
                    let ghost m1 = self.model();
                    self.node_manager.nodes[sel].status = new_state;
                    self.node_manager.operation_status = Some(concat(op_prefix, name.as_str()));
                    assert(nodes_model(self.node_manager.nodes@) =~= m1.nodes.update(
                        sel as int,
                        NodeModel { status: new_state.model(), ..m1.nodes[sel as int] },
                    ));
                    assert(self.model() =~= AppModel {
                        nodes: m1.nodes.update(
                            sel as int,
                            NodeModel { status: new_state.model(), ..m1.nodes[sel as int] },
                        ),
                        operation_status: Some(op_prefix@ + name@),
                        ..m1
                    });
                }
            },
            None => {
                self.set_error_text("No node selected");
            },
        }
    }

    fn configure_selected_node(&mut self)
        ensures
            final(self).model() == node_manager_step(old(self).model(), KeyInput { code: KeyCode::Char('c'), ctrl: false }),
            final(self).same_frame(old(self)),
    {
        match self.node_manager.selected_node {
            Some(sel) => {
                if sel < self.node_manager.nodes.len() {
                    let dialog = NodeConfigDialog {
                        node_id: self.node_manager.nodes[sel].id.clone(),
                        config_text: self.node_manager.nodes[sel].configuration.clone(),
                        cursor_position: 0,
                        is_valid: true,
                        validation_errors: Vec::new(),
                    };
                    let ghost m0 = self.model();
                    self.node_manager.config_dialog = Some(dialog);
                    assert(strings_model(dialog.validation_errors@) =~= Seq::<Seq<char>>::empty());
                    assert(self.model() =~= AppModel {
                        config_dialog: Some(
                            DialogModel {
                                node_id: m0.nodes[sel as int].id,
                                config_text: m0.nodes[sel as int].configuration,
                                cursor_position: 0,
                                is_valid: true,
                                validation_errors: seq![],
                            },
                        ),
                        ..m0
                    });
                    self.set_status_text("Opened configuration dialog");
                }
            },
            None => {
                self.set_error_text("No node selected");
            },
        }
    }

    fn add_new_node(&mut self)
        requires
            old(self).node_manager.nodes.len() < usize::MAX,
        ensures
            final(self).model() == with_status(
                AppModel {
                    nodes: old(self).model().nodes.push(
                        new_node_model(old(self).node_manager.nodes.len() as nat),
                    ),
                    ..old(self).model()
                },
                "Added new node"@,
            ),
            final(self).same_frame(old(self)),
    {
        let n = self.node_manager.nodes.len() + 1;
        let mut id = owned("node-");
        push_decimal(&mut id, n as u64);
        let mut name = owned("Node ");
        push_decimal(&mut name, n as u64);
        let mut capabilities: Vec<String> = Vec::new();
        capabilities.push(owned("storage"));
        capabilities.push(owned("compute"));
        let node = ManagedNode {
            id,
            name,
            endpoint: owned("http://localhost:8080"),
            status: NodeState::Stopped,
            capabilities,
            configuration: owned("{}"),
        };
        assert(node.model() =~= new_node_model(old(self).node_manager.nodes.len() as nat)) by {
            assert(strings_model(capabilities@) =~= seq!["storage"@, "compute"@]);
        }
        let ghost m0 = self.model();
        self.node_manager.nodes.push(node);
        assert(nodes_model(self.node_manager.nodes@) =~= m0.nodes.push(node.model()));
        assert(self.model() =~= AppModel { nodes: m0.nodes.push(node.model()), ..m0 });
        self.set_status_text("Added new node");
    }

    fn remove_selected_node(&mut self)
        ensures
            final(self).model() == remove_node_step(old(self).model()),
            final(self).same_frame(old(self)),
    {
        match self.node_manager.selected_node {
            Some(sel) => {
                if sel < self.node_manager.nodes.len() {
                    let ghost m0 = self.model();
                    let removed = self.node_manager.nodes.remove(sel);
                    assert(nodes_model(self.node_manager.nodes@) =~= m0.nodes.remove(sel as int));
                    assert(removed.model() == m0.nodes[sel as int]);
                    let ghost m1 = AppModel { nodes: m0.nodes.remove(sel as int), ..m0 };
                    assert(self.model() =~= m1);
                    self.set_status(concat("Removed node: ", removed.name.as_str()));
                    if self.node_manager.nodes.len() == 0 {
                        self.select_node(None);
                    } else if sel >= self.node_manager.nodes.len() {
                        let last = self.node_manager.nodes.len() - 1;
                        self.select_node(Some(last));
                    }
                }
            },
            None => {
                self.set_error_text("No node selected");
            },
        }
    }

    fn show_node_details(&mut self)
        ensures
            final(self).model() == node_manager_step(old(self).model(), KeyInput { code: KeyCode::Enter, ctrl: false }),
            final(self).same_frame(old(self)),
    {
        if let Some(sel) = self.node_manager.selected_node {
            if sel < self.node_manager.nodes.len() {
                let ghost n = self.model().nodes[sel as int];
                let node = &self.node_manager.nodes[sel];
                assert(node.model() == n);
                let mut details = owned("Node Details:\nID: ");
                push_str(&mut details, node.id.as_str());
                push_str(&mut details, "\nName: ");
                push_str(&mut details, node.name.as_str());
                push_str(&mut details, "\nEndpoint: ");
                push_str(&mut details, node.endpoint.as_str());
                push_str(&mut details, "\nStatus: ");
                let state = node_state_label(&node.status);
                push_str(&mut details, state.as_str());
                push_str(&mut details, "\nCapabilities: ");
                let caps = join_strings(&node.capabilities, ", ");
                push_str(&mut details, caps.as_str());
                assert(details@ =~= node_details_text(n));
                self.set_status(details);
            }
        }
    }

    fn handle_node_manager_events(&mut self, key: KeyInput)
        requires
            wf_model(old(self).model()),
            old(self).node_manager.nodes.len() < usize::MAX,
        ensures
            final(self).model() == node_manager_step(old(self).model(), key),
            final(self).same_frame(old(self)),
    {
        match key.code {
            KeyCode::Up => {
                match self.node_manager.selected_node {
                    Some(sel) => {
                        if sel > 0 {
                            self.select_node(Some(sel - 1));
                        } else {
                            self.select_node(Some(sel));
                        }
                    },
                    None => {
                        if self.node_manager.nodes.len() > 0 {
                            self.select_node(Some(0));
                        } else {
                            self.select_node(None);
                        }
                    },
                }
            },
            KeyCode::Down => {
                match self.node_manager.selected_node {
                    Some(sel) => {
                        if sel < self.node_manager.nodes.len() - 1 {
                            self.select_node(Some(sel + 1));
                        } else {
                            self.select_node(Some(sel));
                        }
                    },
                    None => {
                        if self.node_manager.nodes.len() > 0 {
                            self.select_node(Some(0));
                        } else {
                            self.select_node(None);
                        }
                    },
                }
            },
            KeyCode::Char(c) => {
                if c == 's' || c == 'S' {
                    self.node_operation(NodeState::Starting, "Starting node: ", "Starting node ");
                } else if c == 't' || c == 'T' {
                    self.node_operation(NodeState::Stopping, "Stopping node: ", "Stopping node ");
                } else if c == 'r' || c == 'R' {
                    self.node_operation(
                        NodeState::Stopping,
                        "Restarting node: ",
                        "Restarting node ",
                    );
                } else if c == 'c' || c == 'C' {
                    self.configure_selected_node();
                } else if c == 'a' || c == 'A' {
                    self.add_new_node();
                }
            },
            KeyCode::Delete => {
                self.remove_selected_node();
            },
            KeyCode::Enter => {
                self.show_node_details();
            },
            _ => {},
        }
    }
}


impl App {
    fn select_suite(&mut self, sel: Option<usize>)
        ensures
            final(self).model() == (AppModel {
                selected_suite: opt_index_model(sel),
                ..old(self).model()
            }),
            final(self).same_frame(old(self)),
    {
        self.test_runner.selected_suite = sel;
        assert(self.model() =~= AppModel { selected_suite: opt_index_model(sel), ..old(self).model() });
    }

    fn set_execution(&mut self, status: TestExecutionStatus)
        ensures
            final(self).model() == (AppModel { execution: status.model(), ..old(self).model() }),
            final(self).same_frame(old(self)),
    {
        self.test_runner.execution_status = status;
        assert(self.model() =~= AppModel { execution: status.model(), ..old(self).model() });
    }

    fn handle_test_runner_events(&mut self, key: KeyInput)
        requires
            wf_model(old(self).model()),
        ensures
            final(self).model() == test_runner_step(old(self).model(), key),
            final(self).same_frame(old(self)),
    {
        let ghost m0 = self.model();
        if key.code == KeyCode::Up {
            match self.test_runner.selected_suite {
                Some(sel) => {
                    if sel > 0 {
                        self.select_suite(Some(sel - 1));
                    } else {
                        self.select_suite(Some(sel));
                    }
                },
                None => {
                    if self.test_runner.test_suites.len() > 0 {
                        self.select_suite(Some(0));
                    } else {
                        self.select_suite(None);
                    }
                },
            }
        } else if key.code == KeyCode::Down {
            match self.test_runner.selected_suite {
                Some(sel) => {
                    if sel < self.test_runner.test_suites.len() - 1 {
                        self.select_suite(Some(sel + 1));
                    } else {
                        self.select_suite(Some(sel));
                    }
                },
                None => {
                    if self.test_runner.test_suites.len() > 0 {
                        self.select_suite(Some(0));
                    } else {
                        self.select_suite(None);
                    }
                },
            }
        } else if key.code == KeyCode::Enter || key.code == KeyCode::Char('r') {
            match self.test_runner.selected_suite {
                Some(sel) => {
                    let name = if sel < self.test_runner.test_suites.len() {
                        self.test_runner.test_suites[sel].name.clone()
                    } else {
                        owned("Unknown Suite")
                    };
                    let status_text = concat("Running test suite: ", name.as_str());
                    self.set_execution(
                        TestExecutionStatus::Running { suite: name, progress_permille: 0 },
                    );
                    self.set_status(status_text);
                },
                None => {
                    self.set_error_text("No test suite selected");
                },
            }
        } else if key.code == KeyCode::Char('s') {
            self.set_execution(TestExecutionStatus::Idle);
            self.test_runner.running_tests.clear();
            assert(self.model() =~= AppModel {
                execution: ExecutionModel::Idle,
                running_tests: seq![],
                ..m0
            });
            self.set_status_text("Test execution stopped");
        } else if key.code == KeyCode::Char('c') {
            self.test_runner.test_output.clear();
            assert(self.model() =~= AppModel { test_output: seq![], ..m0 });
            self.set_status_text("Test output cleared");
        } else if key.code == KeyCode::Char('a') {
            if self.test_runner.test_suites.len() == 0 {
                self.set_error_text("No test suites available");
            } else {
                self.set_execution(
                    TestExecutionStatus::Running { suite: owned("All Suites"), progress_permille: 0 },
                );
                self.set_status_text("Running all test suites...");
            }
        }
    }

    fn select_section(&mut self, sel: Option<usize>)
        ensures
            final(self).model() == (AppModel {
                selected_section: opt_index_model(sel),
                ..old(self).model()
            }),
            final(self).same_frame(old(self)),
    {
        self.configuration.selected_section = sel;
        assert(self.model() =~= AppModel { selected_section: opt_index_model(sel), ..old(self).model() });
    }

    fn handle_configuration_events(&mut self, key: KeyInput)
        requires
            wf_model(old(self).model()),
        ensures
            final(self).model() == configuration_step(old(self).model(), key),
            final(self).same_frame(old(self)),
    {
        let ghost m0 = self.model();
        if key.code == KeyCode::Up {
            match self.configuration.selected_section {
                Some(sel) => {
                    if sel > 0 {
                        self.select_section(Some(sel - 1));
                    } else {
                        self.select_section(Some(sel));
                    }
                },
                None => {
                    if self.configuration.config_sections.len() > 0 {
                        self.select_section(Some(0));
                    } else {
                        self.select_section(None);
                    }
                },
            }
        } else if key.code == KeyCode::Down {
            match self.configuration.selected_section {
                Some(sel) => {
                    if sel < self.configuration.config_sections.len() - 1 {
                        self.select_section(Some(sel + 1));
                    } else {
                        self.select_section(Some(sel));
                    }
                },
                None => {
                    if self.configuration.config_sections.len() > 0 {
                        self.select_section(Some(0));
                    } else {
                        self.select_section(None);
                    }
                },
            }
        } else if key.code == KeyCode::Enter {
            match self.configuration.selected_section {
                Some(sel) => {
                    if sel < self.configuration.config_sections.len() {
                        let content = self.configuration.config_sections[sel].content.clone();
                        let status_text = concat(
                            "Editing configuration section: ",
                            self.configuration.config_sections[sel].name.as_str(),
                        );
                        self.configuration.current_config = content;
                        self.configuration.editor_state.is_editing = true;
                        assert(self.model() =~= AppModel {
                            current_config: m0.section_contents[sel as int],
                            editing: true,
                            ..m0
                        });
                        self.set_status(status_text);
                    }
                },
                None => {
                    self.set_error_text("No configuration section selected");
                },
            }
        } else if key.code == KeyCode::Char('v') {
            let result = ConfigValidationResult {
                is_valid: true,
                errors: Vec::new(),
                warnings: Vec::new(),
            };
            self.configuration.validation_status = Some(result);
            assert(result.model() =~= ValidationModel { is_valid: true, errors: seq![], warnings: seq![] });
            assert(self.model() =~= AppModel {
                validation: Some(ValidationModel { is_valid: true, errors: seq![], warnings: seq![] }),
                ..m0
            });
            self.set_status_text("Configuration validated successfully");
        } else if key.code == KeyCode::Char('s') {
            self.set_status_text("Configuration saved");
        } else if key.code == KeyCode::Char('l') {
            self.set_status_text("Configuration loaded");
        } else if key.code == KeyCode::Char('r') {
            self.configuration.current_config = String::new();
            self.configuration.editor_state.is_editing = false;
            assert(self.model() =~= AppModel { current_config: seq![], editing: false, ..m0 });
            self.set_status_text("Configuration reset");
        } else if self.configuration.editor_state.is_editing {
            match key.code {
                KeyCode::Char(c) => {
                    crate::text::push_char(&mut self.configuration.current_config, c);
                    assert(self.model() =~= AppModel {
                        current_config: m0.current_config.push(c),
                        ..m0
                    });
                },
                KeyCode::Backspace => {
                    let _ = pop_char(&mut self.configuration.current_config);
                    proof {
                        if m0.current_config.len() > 0 {
                            assert(self.model() =~= AppModel {
                                current_config: m0.current_config.drop_last(),
                                ..m0
                            });
                        } else {
                            assert(self.model() =~= m0);
                        }
                    }
                },
                _ => {},
            }
        }
    }
}


impl App {
    fn push_output(&mut self, line: String)
        ensures
            final(self).model() == (AppModel {
                console_output: old(self).model().console_output.push(line@),
                ..old(self).model()
            }),
            final(self).same_frame(old(self)),
    {
        let ghost m0 = self.model();
        self.console.output.push(line);
        assert(strings_model(self.console.output@) =~= m0.console_output.push(line@));
        assert(self.model() =~= AppModel { console_output: m0.console_output.push(line@), ..m0 });
    }

    fn push_output_text(&mut self, line: &str)
        ensures
            final(self).model() == (AppModel {
                console_output: old(self).model().console_output.push(line@),
                ..old(self).model()
            }),
            final(self).same_frame(old(self)),
    {
        self.push_output(owned(line));
    }

    fn execute_console_command(&mut self)
        requires
            wf_model(old(self).model()),
        ensures
            final(self).model() == execute_command_step(old(self).model()),
            final(self).same_frame(old(self)),
    {
        let ghost m0 = self.model();
        let command = trim(self.console.input.as_str());
        if command.as_str().is_empty() {
            return;
        }
        let ghost cmd = command@;
        proof {
            reveal_strlit("help");
            reveal_strlit("status");
            reveal_strlit("nodes");
            reveal_strlit("clear");
            reveal_strlit("quit");
        }
        let ghost out0 = m0.console_output.push("> "@ + cmd);
        self.console.history.push(command.clone());
        self.console.history_index = None;
        assert(strings_model(self.console.history@) =~= m0.history.push(cmd));
        self.push_output(concat("> ", command.as_str()));
        let ghost m1 = self.model();
        assert(m1 =~= AppModel {
            history: m0.history.push(cmd),
            history_index: None,
            console_output: out0,
            ..m0
        });
        if str_equal(command.as_str(), "help") {
            assert(cmd[0] != "quit"@[0]);
            self.push_output_text("Available commands:");
            self.push_output_text("  help - Show this help");
            self.push_output_text("  status - Show system status");
            self.push_output_text("  nodes - List all nodes");
            self.push_output_text("  clear - Clear console output");
            self.push_output_text("  quit - Exit application");
            assert(self.model().console_output =~= command_output(m0, cmd));
        } else if str_equal(command.as_str(), "status") {
            self.push_output_text("System Status: Online");
            let mut line = owned("Active nodes: ");
            push_decimal(&mut line, self.dashboard.quick_stats.active_nodes as u64);
            self.push_output(line);
            let mut line2 = owned("Total requests: ");
            push_decimal(&mut line2, self.dashboard.quick_stats.total_requests);
            self.push_output(line2);
            assert(self.model().console_output =~= command_output(m0, cmd));
        } else if str_equal(command.as_str(), "nodes") {
            self.push_output_text("Managed Nodes:");
            let ghost base = out0.push("Managed Nodes:"@);
            let mut i: usize = 0;
            while i < self.node_manager.nodes.len()
                invariant
                    i <= self.node_manager.nodes@.len(),
                    self.model() == (AppModel {
                        console_output: base + node_lines(m0.nodes).take(i as int),
                        ..m1
                    }),
                    m0.nodes == nodes_model(self.node_manager.nodes@),
                    self.same_frame(old(self)),
                decreases self.node_manager.nodes.len() - i,
            {
                let ghost before = self.model();
                let mut line = owned("  ");
                push_decimal(&mut line, (i as u64) + 1);
                push_str(&mut line, ": ");
                push_str(&mut line, self.node_manager.nodes[i].name.as_str());
                push_str(&mut line, " (");
                let state = node_state_label(&self.node_manager.nodes[i].status);
                push_str(&mut line, state.as_str());
                push_str(&mut line, ")");
                assert(line@ =~= node_lines(m0.nodes)[i as int]);
                self.push_output(line);
                i = i + 1;
                assert(node_lines(m0.nodes).take(i as int) =~= node_lines(m0.nodes).take(
                    i - 1,
                ).push(node_lines(m0.nodes)[i - 1]));
                assert(self.model() =~= AppModel {
                    console_output: base + node_lines(m0.nodes).take(i as int),
                    ..m1
                });
            }
            assert(node_lines(m0.nodes).take(m0.nodes.len() as int) =~= node_lines(m0.nodes));
            assert(self.model().console_output =~= command_output(m0, cmd));
        } else if str_equal(command.as_str(), "clear") {
            self.console.output.clear();
            assert(self.model() =~= AppModel { console_output: seq![], ..m1 });
        } else if str_equal(command.as_str(), "quit") {
            self.quit();
        } else {
            self.push_output(concat("Unknown command: ", command.as_str()));
            self.push_output_text("Type 'help' for available commands");
            assert(self.model().console_output =~= command_output(m0, cmd));
        }
        assert(self.model().console_output =~= command_output(m0, cmd));
        assert(self.model().should_quit == (m0.should_quit || cmd == "quit"@));
        self.console.input = String::new();
        assert(self.model() =~= execute_command_step(m0));
    }

    fn navigate_command_history_up(&mut self)
        requires
            wf_model(old(self).model()),
        ensures
            final(self).model() == history_up_step(old(self).model()),
            final(self).same_frame(old(self)),
    {
        let ghost m0 = self.model();
        if self.console.history.len() == 0 {
            return;
        }
        let new_index = match self.console.history_index {
            None => self.console.history.len() - 1,
            Some(index) => {
                if index > 0 {
                    index - 1
                } else {
                    index
                }
            },
        };
        self.console.history_index = Some(new_index);
        self.console.input = self.console.history[new_index].clone();
        assert(self.model() =~= history_up_step(m0));
    }

    fn navigate_command_history_down(&mut self)
        requires
            wf_model(old(self).model()),
        ensures
            final(self).model() == history_down_step(old(self).model()),
            final(self).same_frame(old(self)),
    {
        let ghost m0 = self.model();
        if self.console.history.len() == 0 {
            return;
        }
        match self.console.history_index {
            None => {},
            Some(index) => {
                if index < self.console.history.len() - 1 {
                    self.console.history_index = Some(index + 1);
                    self.console.input = self.console.history[index + 1].clone();
                } else {
                    self.console.history_index = None;
                    self.console.input = String::new();
                }
            },
        }
        assert(self.model() =~= history_down_step(m0));
    }

    fn handle_console_events(&mut self, key: KeyInput)
        requires
            wf_model(old(self).model()),
        ensures
            final(self).model() == console_step(old(self).model(), key),
            final(self).same_frame(old(self)),
    {
        let ghost m0 = self.model();
        match self.console.mode {
            ConsoleMode::Command => {
                match key.code {
                    KeyCode::Enter => {
                        self.execute_console_command();
                    },
                    KeyCode::Up => {
                        self.navigate_command_history_up();
                    },
                    KeyCode::Down => {
                        self.navigate_command_history_down();
                    },
                    KeyCode::Char(c) => {
                        crate::text::push_char(&mut self.console.input, c);
                        assert(self.model() =~= AppModel {
                            console_input: m0.console_input.push(c),
                            ..m0
                        });
                    },
                    KeyCode::Backspace => {
                        let _ = pop_char(&mut self.console.input);
                        proof {
                            if m0.console_input.len() > 0 {
                                assert(self.model() =~= AppModel {
                                    console_input: m0.console_input.drop_last(),
                                    ..m0
                                });
                            } else {
                                assert(self.model() =~= m0);
                            }
                        }
                    },
                    _ => {},
                }
            },
            ConsoleMode::LogViewing => {
                if key.code == KeyCode::Char('c') {
                    self.console.mode = ConsoleMode::Command;
                    assert(self.model() =~= AppModel { console_mode: ConsoleMode::Command, ..m0 });
                    self.set_status_text("Switched to command mode");
                } else if key.code == KeyCode::Char('l') {
                    self.console.output.clear();
                    assert(self.model() =~= AppModel { console_output: seq![], ..m0 });
                    self.set_status_text("Console output cleared");
                }
            },
        }
    }

    /// Handles one key press: global keys first (quit, tab switching, clearing
    /// messages, help, refresh), then the keys of the current tab.
    pub fn handle_key_event(&mut self, key: KeyInput)
        requires
            wf_model(old(self).model()),
            old(self).node_manager.nodes.len() < usize::MAX,
        ensures
            final(self).model() == step(old(self).model(), key),
            final(self).same_frame(old(self)),
    {
        let ghost m0 = self.model();
        let code = key.code;
        if let KeyCode::Char(c) = code {
            if c == 'q' || c == 'Q' || (c == 'c' && key.ctrl) {
                self.quit();
                return;
            }
        }
        if code == KeyCode::Tab {
            assert(self.current_tab < self.tabs.len());
            self.next_tab();
        } else if code == KeyCode::BackTab {
            self.previous_tab();
        } else if code == KeyCode::Esc {
            self.clear_error();
            self.clear_status();
            assert(self.model() =~= AppModel { error_message: None, status_message: None, ..m0 });
        } else if code == KeyCode::Char('h') || code == KeyCode::F(1) {
            self.show_help();
        } else if code == KeyCode::F(5) {
            self.refresh_data();
        } else if self.current_tab == 0 {
            self.handle_dashboard_events(key);
        } else if self.current_tab == 1 {
            self.handle_node_manager_events(key);
        } else if self.current_tab == 2 {
            self.handle_cluster_monitor_events(key);
        } else if self.current_tab == 3 {
            self.handle_test_runner_events(key);
        } else if self.current_tab == 4 {
            self.handle_configuration_events(key);
        } else if self.current_tab == 5 {
            self.handle_console_events(key);
        }
    }
}


/// The names of the six tabs.
pub open spec fn tab_names() -> Seq<Seq<char>> {
    seq![
        "Dashboard"@,
        "Node Manager"@,
        "Cluster Monitor"@,
        "Test Runner"@,
        "Configuration"@,
        "Console"@,
    ]
}

/// The three nodes that the node manager starts with.
pub open spec fn initial_nodes() -> Seq<NodeModel> {
    seq![
        NodeModel {
            id: "node-01"@,
            name: "Primary Node"@,
            endpoint: "127.0.0.1:8080"@,
            status: NodeStateModel::Stopped,
            capabilities: seq!["storage"@, "query"@, "consensus"@],
            configuration: "{\"storage_path\": \"/data/node01\", \"port\": 8080}"@,
        },
        NodeModel {
            id: "node-02"@,
            name: "Secondary Node"@,
            endpoint: "127.0.0.1:8081"@,
            status: NodeStateModel::Stopped,
            capabilities: seq!["storage"@, "query"@],
            configuration: "{\"storage_path\": \"/data/node02\", \"port\": 8081}"@,
        },
        NodeModel {
            id: "node-03"@,
            name: "Worker Node"@,
            endpoint: "127.0.0.1:8082"@,
            status: NodeStateModel::Stopped,
            capabilities: seq!["query"@],
            configuration: "{\"storage_path\": \"/data/node03\", \"port\": 8082}"@,
        },
    ]
}

/// The state the control center starts in.
pub open spec fn initial_model() -> AppModel {
    AppModel {
        current_tab: 0,
        tab_count: 6,
        should_quit: false,
        error_message: None,
        status_message: None,
        activity: seq![],
        active_nodes: 0,
        total_requests: 0,
        nodes: initial_nodes(),
        selected_node: Some(0),
        operation_status: None,
        config_dialog: None,
        alerts: seq![],
        suite_names: seq![],
        running_tests: seq![],
        selected_suite: None,
        test_output: seq![],
        execution: ExecutionModel::Idle,
        current_config: seq![],
        section_names: seq![],
        section_contents: seq![],
        selected_section: None,
        validation: None,
        editing: false,
        console_output: seq![],
        console_input: seq![],
        history: seq![],
        history_index: None,
        console_mode: ConsoleMode::Command,
    }
}

fn string_list(a: &str, b: &str, c: &str, n: usize) -> (v: Vec<String>)
    requires
        1 <= n <= 3,
    ensures
        v@.len() == n,
        v@[0]@ == a@,
        n >= 2 ==> v@[1]@ == b@,
        n >= 3 ==> v@[2]@ == c@,
{
    let mut v: Vec<String> = Vec::new();
    v.push(owned(a));
    if n >= 2 {
        v.push(owned(b));
    }
    if n >= 3 {
        v.push(owned(c));
    }
    v
}

fn stopped_node(id: &str, name: &str, endpoint: &str, caps: Vec<String>, config: &str) -> (n:
    ManagedNode)
    ensures
        n.model() == (NodeModel {
            id: id@,
            name: name@,
            endpoint: endpoint@,
            status: NodeStateModel::Stopped,
            capabilities: strings_model(caps@),
            configuration: config@,
        }),
{
    ManagedNode {
        id: owned(id),
        name: owned(name),
        endpoint: owned(endpoint),
        status: NodeState::Stopped,
        capabilities: caps,
        configuration: owned(config),
    }
}

impl App {
    /// The control center as it starts: the dashboard tab, three stopped nodes with
    /// the first selected, and empty logs, suites, sections and console.
    pub fn new() -> (app: App)
        ensures
            app.model() == initial_model(),
            app.tabs@.map_values(|t: &str| t@) == tab_names(),
            app.dashboard.node_overview@.len() == 0,
            app.dashboard.quick_stats.avg_response_time_ms == 0,
            app.dashboard.last_updated_ms is None,
            app.cluster_monitor.connections@.len() == 0,
            app.cluster_monitor.partitions@.len() == 0,
            app.cluster_monitor.network_status.total_nodes == 0,
            app.cluster_monitor.network_status.healthy_nodes == 0,
            app.cluster_monitor.network_status.network_partitions == 0,
            app.cluster_monitor.network_status.consensus_status@ == "Unknown"@,
            app.cluster_monitor.replication_status.replication_lag_ms == 0,
            app.cluster_monitor.replication_status.sync_status@ == "Unknown"@,
            app.cluster_monitor.replication_status.failed_replications == 0,
            app.test_runner.test_results@.len() == 0,
            app.configuration.editor_state.cursor_line == 0,
            app.configuration.editor_state.cursor_column == 0,
            app.configuration.editor_state.scroll_offset == 0,
            wf_model(app.model()),
    {
        let mut tabs: Vec<&'static str> = Vec::new();
        tabs.push("Dashboard");
        tabs.push("Node Manager");
        tabs.push("Cluster Monitor");
        tabs.push("Test Runner");
        tabs.push("Configuration");
        tabs.push("Console");
        let mut nodes: Vec<ManagedNode> = Vec::new();
        nodes.push(
            stopped_node(
                "node-01",
                "Primary Node",
                "127.0.0.1:8080",
                string_list("storage", "query", "consensus", 3),
                "{\"storage_path\": \"/data/node01\", \"port\": 8080}",
            ),
        );
        nodes.push(
            stopped_node(
                "node-02",
                "Secondary Node",
                "127.0.0.1:8081",
                string_list("storage", "query", "", 2),
                "{\"storage_path\": \"/data/node02\", \"port\": 8081}",
            ),
        );
        nodes.push(
            stopped_node(
                "node-03",
                "Worker Node",
                "127.0.0.1:8082",
                string_list("query", "", "", 1),
                "{\"storage_path\": \"/data/node03\", \"port\": 8082}",
            ),
        );
        let app = App {
            current_tab: 0,
            tabs,
            should_quit: false,
            error_message: None,
            status_message: None,
            dashboard: DashboardState {
                node_overview: Vec::new(),
                recent_activity: Vec::new(),
                quick_stats: QuickStats { active_nodes: 0, total_requests: 0, avg_response_time_ms: 0 },
                network_io: NetworkIO::zero(),
                last_updated_ms: None,
            },
            node_manager: NodeManagerState {
                nodes,
                selected_node: Some(0),
                operation_status: None,
                config_dialog: None,
            },
            cluster_monitor: ClusterMonitorState {
                connections: Vec::new(),
                partitions: Vec::new(),
                network_status: NetworkStatus {
                    total_nodes: 0,
                    healthy_nodes: 0,
                    network_partitions: 0,
                    consensus_status: owned("Unknown"),
                },
                replication_status: ReplicationStatus {
                    replication_lag_ms: 0,
                    sync_status: owned("Unknown"),
                    failed_replications: 0,
                },
                alerts: Vec::new(),
            },
            test_runner: TestRunnerState {
                test_suites: Vec::new(),
                running_tests: Vec::new(),
                test_results: Vec::new(),
                selected_suite: None,
                test_output: Vec::new(),
                execution_status: TestExecutionStatus::Idle,
            },
            configuration: ConfigurationState {
                current_config: String::new(),
                config_sections: Vec::new(),
                selected_section: None,
                validation_status: None,
                editor_state: ConfigEditorState {
                    cursor_line: 0,
                    cursor_column: 0,
                    scroll_offset: 0,
                    is_editing: false,
                },
            },
            console: ConsoleState {
                output: Vec::new(),
                input: String::new(),
                history: Vec::new(),
                history_index: None,
                mode: ConsoleMode::Command,
            },
        };
        assert(app.tabs@.map_values(|t: &str| t@) =~= tab_names());
        assert(app.model().nodes =~= initial_nodes()) by {
            let m = app.model().nodes;
            assert(m[0].capabilities =~= seq!["storage"@, "query"@, "consensus"@]);
            assert(m[1].capabilities =~= seq!["storage"@, "query"@]);
            assert(m[2].capabilities =~= seq!["query"@]);
            assert(m[0] =~= initial_nodes()[0]);
            assert(m[1] =~= initial_nodes()[1]);
            assert(m[2] =~= initial_nodes()[2]);
        }
        assert(app.model() =~= initial_model());
        app
    }
}

impl Default for App {
    fn default() -> (app: App)
        ensures
            app.model() == initial_model(),
            wf_model(app.model()),
    {
        App::new()
    }
}


/// Every key press keeps the state well formed: the current tab and every
/// selection (node, suite, section, history entry) still point into their lists.
pub proof fn lemma_step_preserves_wf(m: AppModel, k: KeyInput)
    requires
        wf_model(m),
    ensures
        wf_model(step(m, k)),
{
    let r = step(m, k);
    if m.current_tab == 1 {
        let n = node_manager_step(m, k);
        if k.code == KeyCode::Delete {
            if let Some(i) = m.selected_node {
                if i < m.nodes.len() {
                    assert(m.nodes.remove(i as int).len() == m.nodes.len() - 1);
                }
            }
        }
    }
}

/// Once the application has been asked to quit, no key press takes that back.
pub proof fn lemma_quit_is_final(m: AppModel, k: KeyInput)
    requires
        m.should_quit,
    ensures
        step(m, k).should_quit,
{
}

proof fn lemma_next_tab_index(m: AppModel)
    requires
        m.tab_count > 0,
        m.current_tab < m.tab_count,
    ensures
        m.current_tab + 1 < m.tab_count ==> next_tab_index(m) == m.current_tab + 1,
        m.current_tab + 1 == m.tab_count ==> next_tab_index(m) == 0,
{
    if m.current_tab + 1 < m.tab_count {
        vstd::arithmetic::div_mod::lemma_small_mod((m.current_tab + 1) as nat, m.tab_count);
    } else {
        vstd::arithmetic::div_mod::lemma_mod_self_0(m.tab_count as int);
    }
}

/// Tab followed by Shift+Tab returns to the same state.
pub proof fn lemma_tab_then_back_tab(m: AppModel, ctrl1: bool, ctrl2: bool)
    requires
        wf_model(m),
    ensures
        step(
            step(m, KeyInput { code: KeyCode::Tab, ctrl: ctrl1 }),
            KeyInput { code: KeyCode::BackTab, ctrl: ctrl2 },
        ) == m,
{
    let m1 = step(m, KeyInput { code: KeyCode::Tab, ctrl: ctrl1 });
    let m2 = step(m1, KeyInput { code: KeyCode::BackTab, ctrl: ctrl2 });
    lemma_next_tab_index(m);
    assert(m2 =~= m);
}

/// Shift+Tab followed by Tab returns to the same state.
pub proof fn lemma_back_tab_then_tab(m: AppModel, ctrl1: bool, ctrl2: bool)
    requires
        wf_model(m),
    ensures
        step(
            step(m, KeyInput { code: KeyCode::BackTab, ctrl: ctrl1 }),
            KeyInput { code: KeyCode::Tab, ctrl: ctrl2 },
        ) == m,
{
    let m1 = step(m, KeyInput { code: KeyCode::BackTab, ctrl: ctrl1 });
    let m2 = step(m1, KeyInput { code: KeyCode::Tab, ctrl: ctrl2 });
    lemma_next_tab_index(m1);
    assert(m2 =~= m);
}

/// Esc clears both the error and the status message and changes nothing else.
pub proof fn lemma_esc_clears_messages(m: AppModel, ctrl: bool)
    ensures
        step(m, KeyInput { code: KeyCode::Esc, ctrl }) == (AppModel {
            error_message: None,
            status_message: None,
            ..m
        }),
{
}

/// Enter on a console line that is not blank records the trimmed line as the newest
/// history entry, empties the input and leaves history browsing.
pub proof fn lemma_command_is_recorded(m: AppModel, ctrl: bool)
    requires
        m.current_tab == 5,
        m.console_mode == ConsoleMode::Command,
        crate::text::trimmed(m.console_input).len() > 0,
    ensures
        step(m, KeyInput { code: KeyCode::Enter, ctrl }).history == m.history.push(
            crate::text::trimmed(m.console_input),
        ),
        step(m, KeyInput { code: KeyCode::Enter, ctrl }).console_input == Seq::<char>::empty(),
        step(m, KeyInput { code: KeyCode::Enter, ctrl }).history_index is None,
{
}

/// In the console, Up then Down from the fresh input line comes back to the fresh
/// input line, empty, with the history unchanged.
pub proof fn lemma_history_up_then_down(m: AppModel, ctrl1: bool, ctrl2: bool)
    requires
        wf_model(m),
        m.current_tab == 5,
        m.console_mode == ConsoleMode::Command,
        m.history.len() > 0,
        m.history_index is None,
    ensures
        step(
            step(m, KeyInput { code: KeyCode::Up, ctrl: ctrl1 }),
            KeyInput { code: KeyCode::Down, ctrl: ctrl2 },
        ) == (AppModel { console_input: seq![], ..m }),
{
    let m1 = step(m, KeyInput { code: KeyCode::Up, ctrl: ctrl1 });
    let m2 = step(m1, KeyInput { code: KeyCode::Down, ctrl: ctrl2 });
    assert(m2 =~= AppModel { console_input: seq![], ..m });
}

} // verus!

verus! {

/// On the node manager tab, with node `i` selected: `s`/`S` sets that node starting,
/// `t`/`T` sets it stopping and `r`/`R` (a restart begins by stopping) too, each saying
/// so by the node's name; no other node changes and none is added or removed.
pub proof fn lemma_start_stop_keys(m: AppModel, k: KeyInput, i: nat)
    requires
        m.current_tab == 1,
        m.selected_node == Some(i),
        i < m.nodes.len(),
    ensures
        k.code == KeyCode::Char('s') || k.code == KeyCode::Char('S') ==> {
            &&& step(m, k).nodes.len() == m.nodes.len()
            &&& step(m, k).nodes[i as int].status == NodeStateModel::Starting
            &&& step(m, k).status_message == Some("Starting node: "@ + m.nodes[i as int].name)
            &&& forall|j: int|
                0 <= j < m.nodes.len() && j != i ==> #[trigger] step(m, k).nodes[j] == m.nodes[j]
        },
        k.code == KeyCode::Char('t') || k.code == KeyCode::Char('T') ==> {
            &&& step(m, k).nodes.len() == m.nodes.len()
            &&& step(m, k).nodes[i as int].status == NodeStateModel::Stopping
            &&& step(m, k).status_message == Some("Stopping node: "@ + m.nodes[i as int].name)
            &&& forall|j: int|
                0 <= j < m.nodes.len() && j != i ==> #[trigger] step(m, k).nodes[j] == m.nodes[j]
        },
        k.code == KeyCode::Char('r') || k.code == KeyCode::Char('R') ==> {
            &&& step(m, k).nodes.len() == m.nodes.len()
            &&& step(m, k).nodes[i as int].status == NodeStateModel::Stopping
            &&& step(m, k).status_message == Some("Restarting node: "@ + m.nodes[i as int].name)
            &&& forall|j: int|
                0 <= j < m.nodes.len() && j != i ==> #[trigger] step(m, k).nodes[j] == m.nodes[j]
        },
{
}

/// On the node manager tab with no node selected, starting, stopping or restarting
/// changes no node and reports that no node is selected; `a`/`A` adds one stopped node
/// at the end and keeps the others.
pub proof fn lemma_node_manager_unselected_and_add(m: AppModel, k: KeyInput)
    requires
        m.current_tab == 1,
    ensures
        m.selected_node is None && (k.code == KeyCode::Char('s') || k.code == KeyCode::Char('t')
            || k.code == KeyCode::Char('r')) ==> step(m, k).nodes == m.nodes && step(m, k).error_message
            == Some("No node selected"@),
        k.code == KeyCode::Char('a') || k.code == KeyCode::Char('A') ==> {
            &&& step(m, k).nodes.len() == m.nodes.len() + 1
            &&& step(m, k).nodes.take(m.nodes.len() as int) == m.nodes
            &&& step(m, k).nodes[m.nodes.len() as int].status == NodeStateModel::Stopped
        },
{
    if k.code == KeyCode::Char('a') || k.code == KeyCode::Char('A') {
        assert(step(m, k).nodes.take(m.nodes.len() as int) =~= m.nodes);
    }
}

} // verus!
