//! How the collection statistics are presented: the chart each widget draws,
//! its colors and labels, and the orders its entries can be sorted in.
use vstd::prelude::*;

verus! {

/// The kind of chart a widget is drawn as.
#[derive(Debug, Clone, Copy, PartialEq, Eq, Structural)]
pub enum ChartType {
    HorizontalBar,
    VerticalBar,
    Pie,
    Line,
    Scalar,
}

/// The colors a widget is drawn in.
#[derive(Debug, Clone, PartialEq, Eq)]
pub enum ColorScheme {
    Default,
    RarityBased,
    CompletionGradient,
    /// Hex color codes.
    Custom(Vec<String>),
}

/// Labels of a chart's axes.
#[derive(Debug, Clone, PartialEq, Eq)]
pub struct AxisLabels {
    pub x_label: Option<String>,
    pub y_label: Option<String>,
}

/// What a widget needs to be drawn.
#[derive(Debug, Clone, PartialEq, Eq)]
pub struct StatisticMetadata {
    pub chart_type: ChartType,
    pub color_scheme: ColorScheme,
    pub axis_labels: AxisLabels,
    pub description: String,
}

/// Orders the entries of a widget can be sorted in.
#[derive(Debug, Clone, Copy, PartialEq, Eq, Structural)]
pub enum SortOrder {
    CompletionAsc,
    CompletionDesc,
    Alphabetical,
    ValueDesc,
    ValueAsc,
}

/// Completion of the collection per expansion, as horizontal bars.
#[derive(Debug, Clone, Copy)]
pub struct ExpansionCompletionWidget;

/// Number of cards owned, as a single figure.
#[derive(Debug, Clone, Copy)]
pub struct TotalOwnedWidget;

impl ExpansionCompletionWidget {
    /// The widget's identifier.
    pub fn widget_id(&self) -> (r: &'static str)
        ensures
            r@ == "expansion_completion"@,
    {
        "expansion_completion"
    }

    /// The widget's title.
    pub fn title(&self) -> (r: String)
        ensures
            r@ == "Expansion Completion"@,
    {
        String::from_str("Expansion Completion")
    }

    /// Horizontal bars of completion per expansion, in a completion gradient.
    pub fn metadata(&self) -> (r: StatisticMetadata)
        ensures
            r.chart_type == ChartType::HorizontalBar,
            r.color_scheme is CompletionGradient,
            r.axis_labels.x_label matches Some(x) && x@ == "Completion Percentage"@,
            r.axis_labels.y_label matches Some(y) && y@ == "Expansion"@,
            r.description@ == "Track your collection progress across all Pokemon TCG expansions"@,
    {
        StatisticMetadata {
            chart_type: ChartType::HorizontalBar,
            color_scheme: ColorScheme::CompletionGradient,
            axis_labels: AxisLabels {
                x_label: Some(String::from_str("Completion Percentage")),
                y_label: Some(String::from_str("Expansion")),
            },
            description: String::from_str("Track your collection progress across all Pokemon TCG expansions"),
        }
    }

    /// The orders the widget's bars can be sorted in.
    pub fn available_sort_orders(&self) -> (r: Vec<SortOrder>)
        ensures
            r@ == seq![SortOrder::CompletionDesc, SortOrder::CompletionAsc, SortOrder::Alphabetical],
    {
        let r = vec![SortOrder::CompletionDesc, SortOrder::CompletionAsc, SortOrder::Alphabetical];
        assert(r@ =~= seq![SortOrder::CompletionDesc, SortOrder::CompletionAsc, SortOrder::Alphabetical]);
        r
    }
}

impl TotalOwnedWidget {
    /// The widget's identifier.
    pub fn widget_id(&self) -> (r: &'static str)
        ensures
            r@ == "total_owned"@,
    {
        "total_owned"
    }

    /// The widget's title.
    pub fn title(&self) -> (r: String)
        ensures
            r@ == "Total Cards Owned"@,
    {
        String::from_str("Total Cards Owned")
    }

    /// A single figure in the default colors, without axes.
    pub fn metadata(&self) -> (r: StatisticMetadata)
        ensures
            r.chart_type == ChartType::Scalar,
            r.color_scheme is Default,
            r.axis_labels.x_label is None,
            r.axis_labels.y_label is None,
            r.description@ == "Total unique Pokemon cards in your collection"@,
    {
        StatisticMetadata {
            chart_type: ChartType::Scalar,
            color_scheme: ColorScheme::Default,
            axis_labels: AxisLabels { x_label: None, y_label: None },
            description: String::from_str("Total unique Pokemon cards in your collection"),
        }
    }
}

} // verus!
