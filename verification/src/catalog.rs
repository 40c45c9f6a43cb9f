//! Parameters and results of further operations that a router of this kind
//! carries. They are plain values: the router passes them on and reads none
//! of them.

use crate::json::Json;
use crate::types::At;
use crate::types::DevString;
use vstd::prelude::*;

verus! {

/// What a page says of itself in its Open Graph tags.
#[derive(Clone, Debug)]
pub struct WebsiteOpenGraphData {
    pub title: Option<String>,
    pub description: Option<String>,
    pub image: Option<String>,
    pub url: Option<String>,
    pub site_name: Option<String>,
    pub og_type: Option<String>,
    pub locale: Option<String>,
    pub author: Option<String>,
    pub published_time: Option<At>,
    pub modified_time: Option<At>,
    pub section: Option<String>,
}

impl Default for WebsiteOpenGraphData {
    /// A page that says nothing of itself.
    fn default() -> (data: WebsiteOpenGraphData)
        ensures
            data.title is None,
            data.description is None,
            data.image is None,
            data.url is None,
            data.site_name is None,
            data.og_type is None,
            data.locale is None,
            data.author is None,
            data.published_time is None,
            data.modified_time is None,
            data.section is None,
    {
        WebsiteOpenGraphData {
            title: None,
            description: None,
            image: None,
            url: None,
            site_name: None,
            og_type: None,
            locale: None,
            author: None,
            published_time: None,
            modified_time: None,
            section: None,
        }
    }
}

/// The text of a page, in one of two forms.
#[derive(Clone, Debug)]
pub enum WebsiteContent {
    Markdown(String),
    PlainText(String),
}

/// Parameters of `ping`: none.
#[derive(Clone, Copy, Debug)]
pub struct PingParams {}

/// Parameters of `scrape_website`.
#[derive(Clone, Debug)]
pub struct ScrapeWebsiteParams {
    pub url: String,
    pub title: String,
    pub content: WebsiteContent,
    pub open_graph: WebsiteOpenGraphData,
}

/// Parameters of `timeline`: which items of the timeline to retrieve.
#[derive(Clone, Debug)]
pub struct TimelineParams {
    /// At most this many items.
    pub limit: Option<usize>,
    /// No item older than this.
    pub ts_min: Option<At>,
    /// No item younger than this.
    pub ts_max: Option<At>,
    /// Only items whose URL matches.
    pub url_regex: Option<String>,
    /// No item whose URL matches.
    pub url_exclude_regex: Option<String>,
    /// Only items with scraped content.
    pub require_m: bool,
    /// Whether to include the scraped content.
    pub include_m: Option<bool>,
}

/// Which sources a search asks.
#[derive(Clone, Copy, Debug, PartialEq, Eq, Structural)]
pub enum SearchSourceMode {
    /// The local index and the accounts' interfaces.
    All,
    /// The local index only.
    IndexOnly,
    /// The accounts' interfaces only.
    ApisOnly,
}

/// Parameters of `find_record_for_url`.
#[derive(Clone, Debug)]
pub struct FindRecordForURLParams {
    pub url: String,
}

/// Parameters of `check_content_relevance`: what a page mentions.
#[derive(Clone, Debug)]
pub struct CheckContentRelevanceParams {
    pub self_url: Option<String>,
    pub mentioned_urls: Vec<String>,
    pub mentioned_emails: Vec<String>,
    pub self_titles: Vec<String>,
    pub prose: Vec<String>,
}

/// Parameters of `parse_time`: a phrase such as "2 weeks ago" and the time
/// it is said at.
#[derive(Clone, Debug)]
pub struct ParseTimeParams {
    pub input: String,
    pub reference_time: At,
}

/// The result of `parse_time`.
#[derive(Clone, Copy, Debug)]
pub struct ParseTimeResult {
    pub timestamp: At,
}

/// Parameters of `wip_search`.
#[derive(Clone, Debug)]
pub struct WIPSearchParams {
    pub query: String,
}

/// The result of `wip_search`.
#[derive(Clone, Debug)]
pub struct WIPSearchResult {
    pub hmm: DevString,
}

/// The result of `store_highlight`.
#[derive(Clone, Debug)]
pub struct StoreHighlightResult {
    pub highlight_id: String,
    pub message: DevString,
}

/// The result of `store_behavioral_signals`.
#[derive(Clone, Debug)]
pub struct StoreBehavioralSignalsResult {
    pub signals_stored: usize,
    pub message: DevString,
}

/// The result of `archive_highlight`.
#[derive(Clone, Debug)]
pub struct ArchiveHighlightResult {
    pub message: DevString,
}

/// A command on a store of values by key.
#[derive(Clone, Debug)]
pub enum StorageCommand {
    Get { key: String },
    SetValue { key: String, value: Option<Json> },
    Watch { key: String },
}

/// Parameters of `in_device`: a command on the store of this device.
#[derive(Clone, Debug)]
pub struct DeviceStorageCommand(pub StorageCommand);

impl DeviceStorageCommand {
    /// The command itself.
    pub fn into_storage_command(self) -> (command: StorageCommand)
        ensures
            command == self.0,
    {
        self.0
    }
}

/// Parameters of `in_synced`: a command on the store shared by all devices.
#[derive(Clone, Debug)]
pub struct SyncStorageCommand(pub StorageCommand);

impl SyncStorageCommand {
    /// The command itself.
    pub fn into_storage_command(self) -> (command: StorageCommand)
        ensures
            command == self.0,
    {
        self.0
    }
}

/// The result of `in_device`.
#[derive(Clone, Debug)]
pub struct DeviceStorageValue(pub Option<Json>);

/// The result of `in_synced`.
#[derive(Clone, Debug)]
pub struct SyncStorageValue(pub Option<Json>);

impl From<Option<Json>> for DeviceStorageValue {
    fn from(value: Option<Json>) -> (result: DeviceStorageValue) {
        DeviceStorageValue(value)
    }
}

impl vstd::std_specs::convert::FromSpecImpl<Option<Json>> for DeviceStorageValue {
    open spec fn obeys_from_spec() -> bool {
        true
    }

    open spec fn from_spec(value: Option<Json>) -> DeviceStorageValue {
        DeviceStorageValue(value)
    }
}

impl From<Option<Json>> for SyncStorageValue {
    fn from(value: Option<Json>) -> (result: SyncStorageValue) {
        SyncStorageValue(value)
    }
}

impl vstd::std_specs::convert::FromSpecImpl<Option<Json>> for SyncStorageValue {
    open spec fn obeys_from_spec() -> bool {
        true
    }

    open spec fn from_spec(value: Option<Json>) -> SyncStorageValue {
        SyncStorageValue(value)
    }
}

/// Parameters of `get_highlights_by_url`.
#[derive(Clone, Debug)]
pub struct GetHighlightsByUrlParams {
    pub page_url: String,
}

/// Parameters of `refresh_tokens`: none.
#[derive(Clone, Copy, Debug)]
pub struct RefreshTokensParams {}

/// Parameters of `analyze_network`.
#[derive(Clone, Copy, Debug)]
pub struct AnalyzeNetworkParams {
    pub test_highlights: bool,
    pub export_mode: bool,
}

/// One signal of what a user did.
#[derive(Clone, Debug)]
pub struct BehavioralSignalData {
    pub signal_id: String,
    pub signal_type: String,
    pub timestamp: i64,
    /// The context, as JSON text.
    pub context: String,
    /// The outcome, as JSON text.
    pub outcome: String,
}

/// Parameters of `store_behavioral_signals`.
#[derive(Clone, Debug)]
pub struct StoreBehavioralSignalsParams {
    pub signals: Vec<BehavioralSignalData>,
    pub enable_behavioral_learning: bool,
    pub enable_semantic_multilens: bool,
}

/// Parameters of `get_behavioral_guidance_for_page`.
#[derive(Clone, Debug)]
pub struct BehavioralGuidanceParams {
    pub page_domain: String,
    pub page_url: String,
    /// The hour of the day.
    pub current_hour: u8,
    pub recent_domains: Vec<String>,
}

/// Parameters of `get_cognition_plan`: none.
#[derive(Clone, Copy, Debug)]
pub struct GetCognitionPlanParams {}

/// Parameters of `get_cognition_telemetry`: none.
#[derive(Clone, Copy, Debug)]
pub struct GetCognitionTelemetryParams {}

/// A point at which a planner chose between branches.
#[derive(Clone, Debug)]
pub struct CognitionDecisionPoint {
    pub description: String,
    pub chosen_branch: String,
    pub alternative_branches: Vec<String>,
    pub reason_for_choice: String,
}

/// Parameters of `get_cognition_causal_graph`: none.
#[derive(Clone, Copy, Debug)]
pub struct GetCognitionCausalGraphParams {}

/// Parameters of `get_cognition_options`: none.
#[derive(Clone, Copy, Debug)]
pub struct GetCognitionOptionsParams {}

/// Parameters of `get_cognition_pareto`: none.
#[derive(Clone, Copy, Debug)]
pub struct GetCognitionParetoParams {}

/// What a planner weighs most.
#[derive(Clone, Copy, Debug, PartialEq, Eq, Structural)]
pub enum CognitionMultiObjectiveProfile {
    Default,
    SpeedFocused,
    ThoroughnessFocused,
    UserFriendly,
}

impl Default for CognitionMultiObjectiveProfile {
    fn default() -> (profile: CognitionMultiObjectiveProfile)
        ensures
            profile == CognitionMultiObjectiveProfile::Default,
    {
        CognitionMultiObjectiveProfile::Default
    }
}

/// How far a planner looks ahead.
#[derive(Clone, Copy, Debug)]
pub struct CognitionSequentialConfig {
    pub predicted_next_events: u32,
    pub transition_motif_cap: u32,
}

impl Default for CognitionSequentialConfig {
    fn default() -> (config: CognitionSequentialConfig)
        ensures
            config.predicted_next_events == 16,
            config.transition_motif_cap == 32,
    {
        CognitionSequentialConfig { predicted_next_events: 16, transition_motif_cap: 32 }
    }
}

/// The lens through which a cluster is looked at.
#[derive(Clone, Copy, Debug, PartialEq, Eq, Structural)]
pub enum BehavioralClusterSemanticLens {
    Work,
    Social,
    Hierarchical,
    Temporal,
    Meta,
}

/// The kind of a cluster.
#[derive(Clone, Copy, Debug, PartialEq, Eq, Structural)]
pub enum BehavioralClusterSemanticType {
    Unknown,
    Work,
    Social,
    Hierarchical,
    Temporal,
    Meta,
}

/// The page and the time that a prominence is computed for.
#[derive(Clone, Debug)]
pub struct ProminencePageContext {
    pub page_domain: String,
    pub content_type: String,
    pub current_hour: u8,
    pub day_of_week: u8,
    pub recent_page_sequence: Vec<String>,
}

/// Parameters of `archive_highlight`.
#[derive(Clone, Debug)]
pub struct ArchiveHighlightParams {
    pub highlight_id: String,
}

/// The versions that an analysis was made with.
#[derive(Clone, Debug)]
pub struct AnalysisVersionInfo {
    pub extension_version: String,
    pub analytics_version: String,
    pub algorithms_used: Vec<String>,
}

/// When and how an analysis of the network was made.
#[derive(Clone, Debug)]
pub struct NetworkAnalysisMetadata {
    pub timestamp: At,
    pub duration_ms: u64,
    pub data_source: String,
    pub parameters: AnalyzeNetworkParams,
    pub version_info: AnalysisVersionInfo,
}

/// Parameters of `analyze_behavioral_network`.
#[derive(Clone, Debug)]
pub struct BehavioralNetworkAnalysisParams {
    pub domain: Option<String>,
    pub include_cross_system_analysis: bool,
    pub include_recommendations: bool,
    pub max_insights: Option<usize>,
}

/// What an analysis recommends.
#[derive(Clone, Debug)]
pub struct AdaptiveRecommendations {
    pub engagement_optimizations: Vec<String>,
    pub cross_system_improvements: Vec<String>,
    pub learning_priorities: Vec<String>,
    pub analysis_parameter_suggestions: Vec<String>,
}

/// What a user did in a session.
#[derive(Clone, Debug)]
pub struct SessionContext {
    pub time_on_page_seconds: u64,
    pub highlights_clicked_count: u32,
    pub timeline_activities_engaged: u32,
    pub network_panel_opened: bool,
    pub recent_page_sequence: Vec<String>,
}

/// Parameters of `apply_clustering_filter`.
#[derive(Clone, Debug)]
pub struct ClusteringFilterParams {
    pub search_terms: Vec<String>,
    pub domain: String,
    pub session_context: SessionContext,
}

} // verus!
