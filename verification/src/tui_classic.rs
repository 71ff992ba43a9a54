//! The classic control-center layout: its tabs, node and test catalogue types, and
//! the bounded console log.
use vstd::prelude::*;
use crate::text::owned;

verus! {

/// A tab of the classic control center.
#[derive(Clone, Copy, Debug, PartialEq, Eq, Structural)]
pub enum Tab {
    Dashboard,
    NodeManager,
    ClusterMonitor,
    TestRunner,
    Configuration,
    Console,
}

/// The number of tabs.
pub const TAB_COUNT: usize = 6;

/// The tab at position `i` of the tab bar.
pub open spec fn tab_at(i: nat) -> Tab {
    if i == 0 {
        Tab::Dashboard
    } else if i == 1 {
        Tab::NodeManager
    } else if i == 2 {
        Tab::ClusterMonitor
    } else if i == 3 {
        Tab::TestRunner
    } else if i == 4 {
        Tab::Configuration
    } else {
        Tab::Console
    }
}

impl Tab {
    /// The position of the tab in the tab bar.
    pub open spec fn spec_position(self) -> nat {
        match self {
            Tab::Dashboard => 0,
            Tab::NodeManager => 1,
            Tab::ClusterMonitor => 2,
            Tab::TestRunner => 3,
            Tab::Configuration => 4,
            Tab::Console => 5,
        }
    }

    /// The position of the tab in the tab bar.
    pub fn index(self) -> (i: usize)
        ensures
            i == self.spec_position(),
            i < TAB_COUNT,
            tab_at(i as nat) == self,
    {
        match self {
            Tab::Dashboard => 0,
            Tab::NodeManager => 1,
            Tab::ClusterMonitor => 2,
            Tab::TestRunner => 3,
            Tab::Configuration => 4,
            Tab::Console => 5,
        }
    }

    /// The tab at position `i` of the tab bar.
    pub fn from_index(i: usize) -> (t: Tab)
        requires
            i < TAB_COUNT,
        ensures
            t == tab_at(i as nat),
            t.spec_position() == i,
    {
        if i == 0 {
            Tab::Dashboard
        } else if i == 1 {
            Tab::NodeManager
        } else if i == 2 {
            Tab::ClusterMonitor
        } else if i == 3 {
            Tab::TestRunner
        } else if i == 4 {
            Tab::Configuration
        } else {
            Tab::Console
        }
    }

    /// The title of the tab.
    pub open spec fn spec_name(self) -> Seq<char> {
        match self {
            Tab::Dashboard => "Dashboard"@,
            Tab::NodeManager => "Node Manager"@,
            Tab::ClusterMonitor => "Cluster Monitor"@,
            Tab::TestRunner => "Test Runner"@,
            Tab::Configuration => "Configuration"@,
            Tab::Console => "Console"@,
        }
    }

    /// The title of the tab.
    pub fn name(self) -> (s: &'static str)
        ensures
            s@ == self.spec_name(),
    {
        match self {
            Tab::Dashboard => "Dashboard",
            Tab::NodeManager => "Node Manager",
            Tab::ClusterMonitor => "Cluster Monitor",
            Tab::TestRunner => "Test Runner",
            Tab::Configuration => "Configuration",
            Tab::Console => "Console",
        }
    }

    /// The icon shown before the title.
    pub open spec fn spec_icon(self) -> Seq<char> {
        match self {
            Tab::Dashboard => "📊"@,
            Tab::NodeManager => "🖥️"@,
            Tab::ClusterMonitor => "🌐"@,
            Tab::TestRunner => "🧪"@,
            Tab::Configuration => "⚙️"@,
            Tab::Console => "💻"@,
        }
    }

    /// The icon shown before the title.
    pub fn icon(self) -> (s: &'static str)
        ensures
            s@ == self.spec_icon(),
    {
        match self {
            Tab::Dashboard => "📊",
            Tab::NodeManager => "🖥️",
            Tab::ClusterMonitor => "🌐",
            Tab::TestRunner => "🧪",
            Tab::Configuration => "⚙️",
            Tab::Console => "💻",
        }
    }

    /// The key help shown in the footer while the tab is open.
    pub open spec fn spec_footer_help(self) -> Seq<char> {
        match self {
            Tab::Dashboard => "Space: Refresh | Tab: Next Tab | q: Quit"@,
            Tab::NodeManager => "Enter: Start/Stop Node | n: New Node | d: Delete Node | Tab: Next Tab | q: Quit"@,
            Tab::ClusterMonitor => "Space: Refresh | r: Toggle Auto-refresh | Tab: Next Tab | q: Quit"@,
            Tab::TestRunner => "Enter: Run Test | Space: View Results | Tab: Next Tab | q: Quit"@,
            Tab::Configuration => "Enter: Edit Config | v: Validate | s: Save | Tab: Next Tab | q: Quit"@,
            Tab::Console => "c: Clear | f: Filter | /: Search | Tab: Next Tab | q: Quit"@,
        }
    }

    /// The key help shown in the footer while the tab is open.
    pub fn footer_help(self) -> (s: &'static str)
        ensures
            s@ == self.spec_footer_help(),
    {
        match self {
            Tab::Dashboard => "Space: Refresh | Tab: Next Tab | q: Quit",
            Tab::NodeManager => "Enter: Start/Stop Node | n: New Node | d: Delete Node | Tab: Next Tab | q: Quit",
            Tab::ClusterMonitor => "Space: Refresh | r: Toggle Auto-refresh | Tab: Next Tab | q: Quit",
            Tab::TestRunner => "Enter: Run Test | Space: View Results | Tab: Next Tab | q: Quit",
            Tab::Configuration => "Enter: Edit Config | v: Validate | s: Save | Tab: Next Tab | q: Quit",
            Tab::Console => "c: Clear | f: Filter | /: Search | Tab: Next Tab | q: Quit",
        }
    }
}

/// The keys that the classic control center handles at the top level.
#[derive(Clone, Copy, Debug, PartialEq, Eq, Structural)]
pub enum NavKey {
    Quit,
    NextTab,
    PreviousTab,
    Other,
}

/// The tab position and quit flag after a top-level key.
pub open spec fn nav_step(current: nat, quit: bool, key: NavKey) -> (nat, bool) {
    match key {
        NavKey::Quit => (current, true),
        NavKey::NextTab => (((current + 1) % 6) as nat, quit),
        NavKey::PreviousTab => (
            if current == 0 {
                5
            } else {
                (current - 1) as nat
            },
            quit,
        ),
        NavKey::Other => (current, quit),
    }
}

/// The tab position and quit flag after a top-level key: `q` quits, Tab and
/// Shift+Tab cycle through the six tabs.
pub fn navigate(current: usize, quit: bool, key: NavKey) -> (r: (usize, bool))
    requires
        current < TAB_COUNT,
    ensures
        (r.0 as nat, r.1) == nav_step(current as nat, quit, key),
        r.0 < TAB_COUNT,
{
    match key {
        NavKey::Quit => (current, true),
        NavKey::NextTab => ((current + 1) % TAB_COUNT, quit),
        NavKey::PreviousTab => {
            if current == 0 {
                (TAB_COUNT - 1, quit)
            } else {
                (current - 1, quit)
            }
        },
        NavKey::Other => (current, quit),
    }
}

/// Life-cycle state of a node in the classic node list.
#[derive(Clone, Debug)]
pub enum NodeStatus {
    Stopped,
    Starting,
    Running,
    Error(String),
    Stopping,
}

/// The role of a node in the cluster.
#[derive(Clone, Copy, Debug)]
pub enum NodeType {
    Bootstrap,
    Regular,
    Witness,
}

/// Health of the consensus protocol.
#[derive(Clone, Copy, Debug, PartialEq, Eq, Structural)]
pub enum ConsensusStatus {
    Healthy,
    Degraded,
    Failed,
    Unknown,
}

impl Default for ConsensusStatus {
    fn default() -> (s: ConsensusStatus)
        ensures
            s == ConsensusStatus::Unknown,
    {
        ConsensusStatus::Unknown
    }
}

/// Cluster-wide counters.
#[derive(Clone, Debug)]
pub struct ClusterState {
    pub total_nodes: usize,
    pub active_nodes: usize,
    pub consensus_status: ConsensusStatus,
    pub network_partitions: Vec<String>,
    pub replication_factor: u32,
    pub total_documents: u64,
    pub total_collections: u64,
}

impl ClusterState {
    /// A cluster with no nodes and unknown consensus.
    pub fn empty() -> (c: ClusterState)
        ensures
            c.total_nodes == 0,
            c.active_nodes == 0,
            c.consensus_status == ConsensusStatus::Unknown,
            c.network_partitions@.len() == 0,
            c.replication_factor == 0,
            c.total_documents == 0,
            c.total_collections == 0,
    {
        ClusterState {
            total_nodes: 0,
            active_nodes: 0,
            consensus_status: ConsensusStatus::Unknown,
            network_partitions: Vec::new(),
            replication_factor: 0,
            total_documents: 0,
            total_collections: 0,
        }
    }
}

/// The kind of a test suite.
#[derive(Clone, Copy, Debug, PartialEq, Eq, Structural)]
pub enum TestType {
    Unit,
    Integration,
    Performance,
    BattleTest,
    NetworkTest,
    SecurityTest,
}

/// A test suite of the classic test runner; durations are in seconds.
#[derive(Clone, Debug)]
pub struct TestSuite {
    pub name: String,
    pub description: String,
    pub test_type: TestType,
    pub estimated_duration_secs: u64,
    pub requirements: Vec<String>,
}

/// State of a test run.
#[derive(Clone, Copy, Debug, PartialEq, Eq, Structural)]
pub enum TestStatus {
    Running,
    Passed,
    Failed,
    Skipped,
}

/// The kind of a configuration file.
#[derive(Clone, Copy, Debug, PartialEq, Eq, Structural)]
pub enum ConfigType {
    Node,
    Cluster,
    API,
    Security,
    Storage,
}

/// A configuration file that the classic editor lists; the time is in milliseconds
/// since the Unix epoch.
#[derive(Clone, Debug)]
pub struct ConfigFile {
    pub name: String,
    pub path: String,
    pub file_type: ConfigType,
    pub last_modified_ms: i64,
    pub is_valid: bool,
}

/// The outcome of validating a configuration file.
#[derive(Clone, Debug)]
pub struct ConfigValidation {
    pub is_valid: bool,
    pub errors: Vec<String>,
    pub warnings: Vec<String>,
}

/// Severity of a log entry, from least to most severe.
#[derive(Clone, Copy, Debug, PartialEq, Eq, Structural)]
pub enum LogLevel {
    Trace,
    Debug,
    Info,
    Warn,
    Error,
}

impl LogLevel {
    /// The rank of the level: Trace 0 up to Error 4.
    pub open spec fn spec_rank(self) -> nat {
        match self {
            LogLevel::Trace => 0,
            LogLevel::Debug => 1,
            LogLevel::Info => 2,
            LogLevel::Warn => 3,
            LogLevel::Error => 4,
        }
    }

    /// The rank of the level: Trace 0 up to Error 4.
    pub fn rank(self) -> (r: u8)
        ensures
            r == self.spec_rank(),
    {
        match self {
            LogLevel::Trace => 0,
            LogLevel::Debug => 1,
            LogLevel::Info => 2,
            LogLevel::Warn => 3,
            LogLevel::Error => 4,
        }
    }

    /// Whether this level is at least as severe as `other`.
    pub fn is_at_least(self, other: LogLevel) -> (b: bool)
        ensures
            b == (self.spec_rank() >= other.spec_rank()),
    {
        self.rank() >= other.rank()
    }
}

impl Default for LogLevel {
    fn default() -> (l: LogLevel)
        ensures
            l == LogLevel::Info,
    {
        LogLevel::Info
    }
}

/// A console log entry; the time is in milliseconds since the Unix epoch.
#[derive(Clone, Debug)]
pub struct LogEntry {
    pub timestamp_ms: i64,
    pub level: LogLevel,
    pub source: String,
    pub message: String,
    pub metadata: Vec<(String, String)>,
}

/// The most log entries the console keeps.
pub const MAX_LOG_ENTRIES: usize = 1000;

/// The log after appending an entry: the oldest entry goes once there are more
/// than `MAX_LOG_ENTRIES`.
pub open spec fn log_after_push(logs: Seq<LogEntry>, e: LogEntry) -> Seq<LogEntry> {
    if logs.len() + 1 > MAX_LOG_ENTRIES {
        logs.push(e).drop_first()
    } else {
        logs.push(e)
    }
}

/// Appends an entry to the console log, dropping the oldest entry once the log
/// holds more than `MAX_LOG_ENTRIES`.
pub fn push_log(logs: &mut Vec<LogEntry>, e: LogEntry)
    ensures
        final(logs)@ == log_after_push(old(logs)@, e),
{
    logs.push(e);
    if logs.len() > MAX_LOG_ENTRIES {
        logs.remove(0);
        assert(logs@ =~= log_after_push(old(logs)@, e));
    }
}

/// The console log never holds more than `MAX_LOG_ENTRIES` entries, and each
/// push keeps the newest entry last.
pub proof fn lemma_log_bounded(logs: Seq<LogEntry>, e: LogEntry)
    requires
        logs.len() <= MAX_LOG_ENTRIES,
    ensures
        log_after_push(logs, e).len() <= MAX_LOG_ENTRIES,
        log_after_push(logs, e).last() == e,
{
}

/// The entry that an error report adds to the console log.
pub fn error_log_entry(message: String, timestamp_ms: i64) -> (e: LogEntry)
    ensures
        e.timestamp_ms == timestamp_ms,
        e.level == LogLevel::Error,
        e.source@ == "TUI"@,
        e.message == message,
        e.metadata@.len() == 0,
{
    LogEntry {
        timestamp_ms,
        level: LogLevel::Error,
        source: owned("TUI"),
        message,
        metadata: Vec::new(),
    }
}

/// The name, description, kind, estimated seconds and single requirement of
/// each built-in test suite.
pub open spec fn suite_catalogue() -> Seq<(Seq<char>, Seq<char>, TestType, nat, Seq<char>)> {
    seq![
        ("Unit Tests"@, "Complete unit test suite for all modules"@, TestType::Unit, 30, "None"@),
        ("Integration Tests"@, "End-to-end integration testing"@, TestType::Integration, 120, "Running node"@),
        ("Battle Test"@, "Comprehensive distributed operations test"@, TestType::BattleTest, 300, "Multi-node cluster"@),
        ("Network Test"@, "Network partition and recovery testing"@, TestType::NetworkTest, 180, "Multi-node cluster"@),
        ("Performance Benchmark"@, "Performance and load testing"@, TestType::Performance, 600, "Optimized build"@),
        ("Security Tests"@, "Security and authentication testing"@, TestType::SecurityTest, 90, "Security configuration"@),
    ]
}

/// Whether a suite matches a catalogue row.
pub open spec fn suite_matches(s: TestSuite, row: (Seq<char>, Seq<char>, TestType, nat, Seq<char>)) -> bool {
    &&& s.name@ == row.0
    &&& s.description@ == row.1
    &&& s.test_type == row.2
    &&& s.estimated_duration_secs == row.3
    &&& s.requirements@.len() == 1
    &&& s.requirements@[0]@ == row.4
}

fn suite(name: &str, description: &str, test_type: TestType, secs: u64, requirement: &str) -> (s:
    TestSuite)
    ensures
        suite_matches(s, (name@, description@, test_type, secs as nat, requirement@)),
{
    let mut requirements: Vec<String> = Vec::new();
    requirements.push(owned(requirement));
    TestSuite {
        name: owned(name),
        description: owned(description),
        test_type,
        estimated_duration_secs: secs,
        requirements,
    }
}

/// The built-in test suites, in the order the test runner lists them.
pub fn initial_test_suites() -> (v: Vec<TestSuite>)
    ensures
        v@.len() == suite_catalogue().len(),
        forall|i: int| 0 <= i < v@.len() ==> suite_matches(#[trigger] v@[i], suite_catalogue()[i]),
{
    let mut v: Vec<TestSuite> = Vec::new();
    v.push(suite("Unit Tests", "Complete unit test suite for all modules", TestType::Unit, 30, "None"));
    v.push(suite("Integration Tests", "End-to-end integration testing", TestType::Integration, 120, "Running node"));
    v.push(suite("Battle Test", "Comprehensive distributed operations test", TestType::BattleTest, 300, "Multi-node cluster"));
    v.push(suite("Network Test", "Network partition and recovery testing", TestType::NetworkTest, 180, "Multi-node cluster"));
    v.push(suite("Performance Benchmark", "Performance and load testing", TestType::Performance, 600, "Optimized build"));
    v.push(suite("Security Tests", "Security and authentication testing", TestType::SecurityTest, 90, "Security configuration"));
    v
}

/// The name, path, kind and validity of each configuration file the editor lists.
pub open spec fn config_file_catalogue() -> Seq<(Seq<char>, Seq<char>, ConfigType, bool)> {
    seq![
        ("node.yaml"@, "./config/node.yaml"@, ConfigType::Node, true),
        ("cluster.yaml"@, "./config/cluster.yaml"@, ConfigType::Cluster, true),
        ("api.yaml"@, "./config/api.yaml"@, ConfigType::API, true),
        ("security.yaml"@, "./config/security.yaml"@, ConfigType::Security, false),
    ]
}

fn config_file(name: &str, path: &str, file_type: ConfigType, is_valid: bool, now_ms: i64) -> (f:
    ConfigFile)
    ensures
        f.name@ == name@,
        f.path@ == path@,
        f.file_type == file_type,
        f.is_valid == is_valid,
        f.last_modified_ms == now_ms,
{
    ConfigFile { name: owned(name), path: owned(path), file_type, last_modified_ms: now_ms, is_valid }
}

/// The configuration files the editor lists, all stamped with the time `now_ms`.
pub fn initial_config_files(now_ms: i64) -> (v: Vec<ConfigFile>)
    ensures
        v@.len() == config_file_catalogue().len(),
        forall|i: int|
            0 <= i < v@.len() ==> {
                let f = #[trigger] v@[i];
                let row = config_file_catalogue()[i];
                &&& f.name@ == row.0
                &&& f.path@ == row.1
                &&& f.file_type == row.2
                &&& f.is_valid == row.3
                &&& f.last_modified_ms == now_ms
            },
{
    let mut v: Vec<ConfigFile> = Vec::new();
    v.push(config_file("node.yaml", "./config/node.yaml", ConfigType::Node, true, now_ms));
    v.push(config_file("cluster.yaml", "./config/cluster.yaml", ConfigType::Cluster, true, now_ms));
    v.push(config_file("api.yaml", "./config/api.yaml", ConfigType::API, true, now_ms));
    v.push(config_file("security.yaml", "./config/security.yaml", ConfigType::Security, false, now_ms));
    v
}

} // verus!
