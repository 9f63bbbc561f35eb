//! The chart composer: from a dataset and an annotation event to the two panels
//! of a chart, each with its bounds, its line, its marker and its legend.

use crate::bounds::Bounds;
use crate::dataset::{decoded_dataset, Dataset, SeriesName};
use crate::error::ChartError;
use crate::layout::{Band, Canvas, CANVAS_HEIGHT, CANVAS_WIDTH};
use crate::sample::{RawEntry, Sample, ValuedSample};
use crate::series::{valued, Series};
use crate::style::{standard_style, Color, Style, FONT_FAMILY, LINE_COLOR, MARGIN, MARKER_COLOR};
use crate::timestamp::Timestamp;
use crate::value::Value;
use vstd::pervasive::unreached;
use vstd::prelude::*;

verus! {

/// The left margin of the price panel.
pub const PRICE_MARGIN_LEFT: u32 = 10;

/// The left margin of the market-cap panel, whose value labels are longer.
pub const MARKET_CAP_MARGIN_LEFT: u32 = 55;

/// The bit pattern of 1450.0.
pub const MERGE_VALUE_BITS: u64 = 0x4096_A800_0000_0000;

/// 2022-09-15T06:43:00Z in milliseconds since the epoch.
pub const MERGE_MILLIS: i64 = 1_663_224_180_000;

/// A point to highlight on both panels, with the label by which the legend names it.
#[derive(Debug, PartialEq, Eq)]
pub struct AnnotationEvent {
    pub timestamp: Timestamp,
    pub value: Value,
    pub label: String,
}

/// An annotation event with its label as a sequence of characters.
pub struct AnnotationView {
    pub timestamp: Timestamp,
    pub value: Value,
    pub label: Seq<char>,
}

impl View for AnnotationEvent {
    type V = AnnotationView;

    open spec fn view(&self) -> AnnotationView {
        AnnotationView { timestamp: self.timestamp, value: self.value, label: self.label@ }
    }
}

/// The merge: 2022-09-15T06:43:00Z, at 1450.0, labelled "merge date".
pub open spec fn merge_event(a: AnnotationView) -> bool {
    &&& a.timestamp.millis() == MERGE_MILLIS
    &&& a.value.bits() == MERGE_VALUE_BITS
    &&& a.label == "merge date"@
}

impl AnnotationEvent {
    /// The event at the given point, under the given label.
    pub fn new(timestamp: Timestamp, value: Value, label: String) -> (r: AnnotationEvent)
        ensures
            r.timestamp == timestamp,
            r.value == value,
            r.label == label,
    {
        AnnotationEvent { timestamp, value, label }
    }

    /// The merge.
    pub fn merge() -> (r: AnnotationEvent)
        ensures
            merge_event(r@),
    {
        proof {
            reveal_with_fuel(crate::timestamp::days_before_month, 10);
        }
        let timestamp = match Timestamp::from_utc(2022, 9, 15, 6, 43, 0) {
            Some(t) => t,
            None => unreached(),
        };
        let value = match Value::from_bits(MERGE_VALUE_BITS) {
            Some(v) => v,
            None => unreached(),
        };
        AnnotationEvent { timestamp, value, label: "merge date".to_owned() }
    }
}

/// What tells the two panels apart: the series, the caption, the label of the line
/// in the legend, and the left margin.
#[derive(Debug, PartialEq, Eq)]
pub struct PanelConfig {
    pub series: SeriesName,
    pub caption: String,
    pub line_label: String,
    pub margin_left: u32,
}

/// A panel configuration with its texts as sequences of characters.
pub struct PanelConfigView {
    pub series: SeriesName,
    pub caption: Seq<char>,
    pub line_label: Seq<char>,
    pub margin_left: u32,
}

impl View for PanelConfig {
    type V = PanelConfigView;

    open spec fn view(&self) -> PanelConfigView {
        PanelConfigView {
            series: self.series,
            caption: self.caption@,
            line_label: self.line_label@,
            margin_left: self.margin_left,
        }
    }
}

/// The configuration of the panel of the prices.
pub open spec fn price_panel() -> PanelConfigView {
    PanelConfigView {
        series: SeriesName::Prices,
        caption: "ETH price"@,
        line_label: "ETH price in USD"@,
        margin_left: PRICE_MARGIN_LEFT,
    }
}

/// The configuration of the panel of the market capitalization.
pub open spec fn market_cap_panel() -> PanelConfigView {
    PanelConfigView {
        series: SeriesName::MarketCaps,
        caption: "ETH market cap"@,
        line_label: "ETH market cap in USD"@,
        margin_left: MARKET_CAP_MARGIN_LEFT,
    }
}

impl PanelConfig {
    /// The panel of the prices.
    pub fn price() -> (r: PanelConfig)
        ensures
            r@ == price_panel(),
    {
        PanelConfig {
            series: SeriesName::Prices,
            caption: "ETH price".to_owned(),
            line_label: "ETH price in USD".to_owned(),
            margin_left: PRICE_MARGIN_LEFT,
        }
    }

    /// The panel of the market capitalization.
    pub fn market_cap() -> (r: PanelConfig)
        ensures
            r@ == market_cap_panel(),
    {
        PanelConfig {
            series: SeriesName::MarketCaps,
            caption: "ETH market cap".to_owned(),
            line_label: "ETH market cap in USD".to_owned(),
            margin_left: MARKET_CAP_MARGIN_LEFT,
        }
    }
}

/// The margins of a panel, in pixels.
#[derive(Clone, Copy, Debug, PartialEq, Eq, Structural)]
pub struct Margins {
    pub top: u32,
    pub right: u32,
    pub bottom: u32,
    pub left: u32,
}

/// A line of the legend: a label, and the colour of what it names.
#[derive(Debug, PartialEq, Eq)]
pub struct LegendEntry {
    pub label: String,
    pub color: Color,
}

/// One chart area: a band of the canvas, bound to one series.
#[derive(Debug, PartialEq, Eq)]
pub struct Panel {
    /// The series that the panel shows.
    pub series: SeriesName,
    /// The pixels of the panel.
    pub band: Band,
    pub caption: String,
    /// The font family of the caption and of the axis labels.
    pub font_family: String,
    pub margins: Margins,
    pub style: Style,
    /// The X- and Y-domain: the extent of the line.
    pub bounds: Bounds,
    /// The points of the line, in the order of the series. Samples without a value
    /// are left out, not drawn at zero: the line runs from the point before such a
    /// sample to the point after it.
    pub line: Vec<ValuedSample>,
    /// Where the marker stands: at the annotation event, never moved.
    pub marker: ValuedSample,
    /// Whether the marker is drawn: only within the X-domain.
    pub marker_shown: bool,
    /// The legend: the line first, then the marker, whether it is drawn or not.
    pub legend: Vec<LegendEntry>,
}

impl Panel {
    /// Whether the panel is the one that shows `samples` in `band` as `config` says,
    /// with the marker at `annotation`.
    pub open spec fn shows(
        self,
        samples: Seq<Sample>,
        config: PanelConfigView,
        band: Band,
        annotation: AnnotationView,
    ) -> bool {
        &&& self.series == config.series
        &&& self.band == band
        &&& self.caption@ == config.caption
        &&& self.font_family@ == FONT_FAMILY@
        &&& self.style == standard_style()
        &&& self.margins == (Margins {
            top: MARGIN,
            right: MARGIN,
            bottom: MARGIN,
            left: config.margin_left,
        })
        &&& self.bounds.is_extent_of(valued(samples))
        &&& self.line@ == valued(samples)
        &&& self.marker == (ValuedSample {
            timestamp: annotation.timestamp,
            value: annotation.value,
        })
        &&& self.marker_shown == self.bounds.spans(annotation.timestamp)
        &&& self.legend@.len() == 2
        &&& self.legend@[0].label@ == config.line_label
        &&& self.legend@[0].color == LINE_COLOR
        &&& self.legend@[1].label@ == annotation.label
        &&& self.legend@[1].color == MARKER_COLOR
    }

    /// Composes the panel that shows `series` in `band`. It fails exactly where the
    /// series has no sample with a value. The annotation has no part in that: a
    /// marker outside the X-domain is not drawn and not moved into it, and the
    /// legend names it all the same.
    pub fn compose(
        series: &Series,
        config: &PanelConfig,
        band: Band,
        annotation: &AnnotationEvent,
    ) -> (r: Result<Panel, ChartError>)
        ensures
            r is Err <==> valued(series@).len() == 0,
            r matches Err(e) ==> e == ChartError::EmptySeries(config.series),
            r matches Ok(p) ==> p.shows(series@, config@, band, annotation@),
    {
        let line = series.valued_samples();
        let bounds = match Bounds::of(line.as_slice()) {
            Ok(b) => b,
            Err(_) => {
                return Err(ChartError::EmptySeries(config.series));
            },
        };
        let style = Style::standard();
        let mut legend: Vec<LegendEntry> = Vec::new();
        legend.push(LegendEntry { label: config.line_label.clone(), color: style.line_color });
        legend.push(LegendEntry { label: annotation.label.clone(), color: style.marker_color });
        Ok(
            Panel {
                series: config.series,
                band,
                caption: config.caption.clone(),
                font_family: FONT_FAMILY.to_owned(),
                margins: Margins {
                    top: style.margin,
                    right: style.margin,
                    bottom: style.margin,
                    left: config.margin_left,
                },
                style,
                bounds,
                line,
                marker: ValuedSample { timestamp: annotation.timestamp, value: annotation.value },
                marker_shown: bounds.contains_timestamp(&annotation.timestamp),
                legend,
            },
        )
    }
}

/// The annotation leaves the panel alone. Two panels that show the same series in
/// the same way, each with its own annotation event, have the same bounds and the
/// same line, and their legends differ in nothing but the label of the event. A
/// marker whose timestamp is outside the X-domain is not drawn, and stays where the
/// event is.
pub proof fn lemma_annotation_leaves_panel(
    samples: Seq<Sample>,
    config: PanelConfigView,
    band: Band,
    first: AnnotationView,
    second: AnnotationView,
    p: Panel,
    q: Panel,
)
    requires
        p.shows(samples, config, band, first),
        q.shows(samples, config, band, second),
    ensures
        p.bounds == q.bounds,
        p.line@ == q.line@,
        p.caption@ == q.caption@,
        p.margins == q.margins,
        p.style == q.style,
        p.legend@.len() == q.legend@.len(),
        p.legend@[0].label@ == q.legend@[0].label@,
        p.legend@[0].color == q.legend@[0].color,
        p.legend@[1].color == q.legend@[1].color,
        first.label == second.label ==> p.legend@[1].label@ == q.legend@[1].label@,
        !p.bounds.spans(first.timestamp) ==> !p.marker_shown && p.marker.timestamp
            == first.timestamp && p.marker.value == first.value,
{
    Bounds::lemma_extent_unique(valued(samples), p.bounds, q.bounds);
}

/// A chart: the canvas and its two panels, the prices above the market
/// capitalization.
#[derive(Debug, PartialEq, Eq)]
pub struct Chart {
    pub canvas: Canvas,
    pub upper: Panel,
    pub lower: Panel,
}

/// Whether `out` is what composing the chart of the two series gives. Each panel
/// stands or fails by its own series. The upper panel is composed first: where
/// both series are without a value, the error names the upper one.
pub open spec fn is_composition(
    upper_samples: Seq<Sample>,
    lower_samples: Seq<Sample>,
    upper: PanelConfigView,
    lower: PanelConfigView,
    annotation: AnnotationView,
    out: Result<Chart, ChartError>,
) -> bool {
    if valued(upper_samples).len() == 0 {
        out == Err::<Chart, _>(ChartError::EmptySeries(upper.series))
    } else if valued(lower_samples).len() == 0 {
        out == Err::<Chart, _>(ChartError::EmptySeries(lower.series))
    } else {
        &&& out matches Ok(chart)
        &&& chart.canvas == (Canvas { width: CANVAS_WIDTH, height: CANVAS_HEIGHT })
        &&& chart.upper.shows(upper_samples, upper, chart.canvas.upper(), annotation)
        &&& chart.lower.shows(lower_samples, lower, chart.canvas.lower(), annotation)
    }
}

impl Chart {
    /// Composes the chart of a dataset: the prices in the upper band of the canvas,
    /// the market capitalization in the lower, each with the marker of the
    /// annotation event. The total volumes are not drawn.
    pub fn compose(dataset: &Dataset, annotation: &AnnotationEvent) -> (r: Result<
        Chart,
        ChartError,
    >)
        ensures
            is_composition(
                dataset@.prices,
                dataset@.market_caps,
                price_panel(),
                market_cap_panel(),
                annotation@,
                r,
            ),
    {
        Chart::compose_with(dataset, &PanelConfig::price(), &PanelConfig::market_cap(), annotation)
    }

    /// Composes the chart of a dataset, its two panels as the two configurations
    /// say, each showing the series that its configuration names.
    pub fn compose_with(
        dataset: &Dataset,
        upper: &PanelConfig,
        lower: &PanelConfig,
        annotation: &AnnotationEvent,
    ) -> (r: Result<Chart, ChartError>)
        ensures
            is_composition(
                dataset@.samples(upper.series),
                dataset@.samples(lower.series),
                upper@,
                lower@,
                annotation@,
                r,
            ),
    {
        let canvas = Canvas::standard();
        let (upper_band, lower_band) = canvas.split();
        let upper_panel = match Panel::compose(
            dataset.series(upper.series),
            upper,
            upper_band,
            annotation,
        ) {
            Ok(p) => p,
            Err(e) => {
                return Err(e);
            },
        };
        let lower_panel = match Panel::compose(
            dataset.series(lower.series),
            lower,
            lower_band,
            annotation,
        ) {
            Ok(p) => p,
            Err(e) => {
                return Err(e);
            },
        };
        Ok(Chart { canvas, upper: upper_panel, lower: lower_panel })
    }

    /// Decodes the three series of a payload and composes their chart: the whole
    /// way from the payload to the chart. A payload with an entry that is no sample
    /// fails with that entry; a payload of samples fails or succeeds as composing
    /// its dataset does.
    pub fn from_payload(
        prices: &Vec<RawEntry>,
        market_caps: &Vec<RawEntry>,
        total_volumes: &Vec<RawEntry>,
        annotation: &AnnotationEvent,
    ) -> (r: Result<Chart, ChartError>)
        ensures
            match decoded_dataset(prices@, market_caps@, total_volumes@) {
                Err(e) => r == Err::<Chart, _>(ChartError::MalformedSample(e)),
                Ok(d) => is_composition(
                    d.prices,
                    d.market_caps,
                    price_panel(),
                    market_cap_panel(),
                    annotation@,
                    r,
                ),
            },
    {
        let decoded = Dataset::decode(prices, market_caps, total_volumes);
        match decoded {
            Ok(dataset) => Chart::compose(&dataset, annotation),
            Err(e) => Err(ChartError::MalformedSample(e)),
        }
    }
}

} // verus!
