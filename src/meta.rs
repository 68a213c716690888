//! Metadata records of streams and dashboards.

use vstd::prelude::*;
use crate::payload::str_eq;

verus! {

/// The kind of data a stream holds.
#[derive(Clone, Copy, Debug, PartialEq, Eq, Structural)]
pub enum StreamType {
    Logs,
    Metrics,
    Traces,
    EnrichmentTables,
    Filters,
    Metadata,
    Index,
}

impl Default for StreamType {
    fn default() -> (r: StreamType)
        ensures
            r == StreamType::Logs,
    {
        StreamType::Logs
    }
}

/// The stream type a name stands for: `logs`, `metrics`, `traces`,
/// `enrichment_tables`, `filters`, `metadata` or `index`.
pub open spec fn stream_type_named(name: Seq<char>) -> Option<StreamType> {
    if name == "logs"@ {
        Some(StreamType::Logs)
    } else if name == "metrics"@ {
        Some(StreamType::Metrics)
    } else if name == "traces"@ {
        Some(StreamType::Traces)
    } else if name == "enrichment_tables"@ {
        Some(StreamType::EnrichmentTables)
    } else if name == "filters"@ {
        Some(StreamType::Filters)
    } else if name == "metadata"@ {
        Some(StreamType::Metadata)
    } else if name == "index"@ {
        Some(StreamType::Index)
    } else {
        None
    }
}

/// The stream type a request asks for; logs where it names none or an unknown one.
pub open spec fn stream_type_of(param: Option<Seq<char>>) -> StreamType {
    match param {
        Some(p) => match stream_type_named(p) {
            Some(t) => t,
            None => StreamType::Logs,
        },
        None => StreamType::Logs,
    }
}

impl StreamType {
    /// The stream type with this name, if any.
    pub fn from_name(name: &str) -> (r: Option<StreamType>)
        ensures
            r == stream_type_named(name@),
    {
        if str_eq(name, "logs") {
            Some(StreamType::Logs)
        } else if str_eq(name, "metrics") {
            Some(StreamType::Metrics)
        } else if str_eq(name, "traces") {
            Some(StreamType::Traces)
        } else if str_eq(name, "enrichment_tables") {
            Some(StreamType::EnrichmentTables)
        } else if str_eq(name, "filters") {
            Some(StreamType::Filters)
        } else if str_eq(name, "metadata") {
            Some(StreamType::Metadata)
        } else if str_eq(name, "index") {
            Some(StreamType::Index)
        } else {
            None
        }
    }

    /// The stream type of an optional request parameter, with logs as the default.
    pub fn from_param(param: &Option<String>) -> (r: StreamType)
        ensures
            r == stream_type_of(crate::window::opt_view(*param)),
    {
        match param {
            Some(p) => match StreamType::from_name(p.as_str()) {
                Some(t) => t,
                None => StreamType::Logs,
            },
            None => StreamType::Logs,
        }
    }
}

/// One field of a stream's schema.
#[derive(Clone, Debug)]
pub struct StreamProperty {
    pub name: String,
    pub prop_type: String,
}

/// The fields to delete from a stream's schema.
#[derive(Clone, Debug)]
pub struct StreamDeleteFields {
    pub fields: Vec<String>,
}

/// Where a panel sits on a dashboard's grid.
#[derive(Clone, Debug)]
pub struct Layout {
    pub x: i64,
    pub y: i64,
    pub w: i64,
    pub h: i64,
    pub i: i64,
    pub panel_id: String,
    pub is_static: bool,
}

/// A dashboard panel.
#[derive(Clone, Debug)]
pub struct Panel {
    pub id: String,
    pub typ: String,
    pub fields: PanelFields,
    pub config: PanelConfig,
    pub query: String,
    pub query_type: String,
    pub custom_query: bool,
}

/// The stream a panel reads, and the fields on its axes.
#[derive(Clone, Debug)]
pub struct PanelFields {
    pub stream: String,
    pub stream_type: StreamType,
    pub x: Vec<AxisItem>,
    pub y: Vec<AxisItem>,
    pub filter: Vec<PanelFilter>,
}

/// One field plotted on an axis.
#[derive(Clone, Debug)]
pub struct AxisItem {
    pub label: String,
    pub alias: String,
    pub column: String,
    pub color: Option<String>,
    pub aggregation_function: Option<AggregationFunc>,
}

/// How an axis field is aggregated.
#[derive(Clone, Copy, Debug, PartialEq, Eq, Structural)]
pub enum AggregationFunc {
    Count,
    CountDistinct,
    Histogram,
    Sum,
    Min,
    Max,
    Avg,
}

/// A filter on a panel's data.
#[derive(Clone, Debug)]
pub struct PanelFilter {
    pub typ: String,
    pub values: Vec<String>,
    pub column: String,
    pub operator: Option<String>,
    pub value: Option<String>,
}

/// A panel's title, description and legend settings.
#[derive(Clone, Debug)]
pub struct PanelConfig {
    title: String,
    description: String,
    show_legends: bool,
    legends_position: Option<String>,
    promql_legend: Option<String>,
}

impl PanelConfig {
    /// The panel's title.
    pub closed spec fn spec_title(&self) -> String {
        self.title
    }

    /// Whether legends are shown.
    pub closed spec fn spec_show_legends(&self) -> bool {
        self.show_legends
    }

    /// A panel configuration with the given settings.
    pub fn new(
        title: String,
        description: String,
        show_legends: bool,
        legends_position: Option<String>,
        promql_legend: Option<String>,
    ) -> (r: PanelConfig)
        ensures
            r.spec_title() == title,
            r.spec_show_legends() == show_legends,
    {
        PanelConfig { title, description, show_legends, legends_position, promql_legend }
    }

    pub fn title(&self) -> (r: &String)
        ensures
            *r == self.spec_title(),
    {
        &self.title
    }

    pub fn show_legends(&self) -> (r: bool)
        ensures
            r == self.spec_show_legends(),
    {
        self.show_legends
    }
}

/// A dashboard's variables.
#[derive(Clone, Debug)]
pub struct Variables {
    pub list: Vec<List>,
}

/// One dashboard variable.
#[derive(Clone, Debug)]
pub struct List {
    pub type_field: String,
    pub name: String,
    pub label: String,
    pub query_data: Option<QueryData>,
    pub value: Option<String>,
    pub options: Option<Vec<CustomFieldsOption>>,
}

/// The query that fills a variable's values.
#[derive(Clone, Debug)]
pub struct QueryData {
    pub stream_type: StreamType,
    pub stream: String,
    pub field: String,
    pub max_record_size: Option<i64>,
}

/// A fixed choice of a variable.
#[derive(Clone, Debug)]
pub struct CustomFieldsOption {
    pub label: String,
    pub value: String,
}

} // verus!
