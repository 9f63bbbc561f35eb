use market_chart::bounds::Bounds;
use market_chart::chart::{
    AnnotationEvent, Chart, LegendEntry, Margins, Panel, PanelConfig, MARKET_CAP_MARGIN_LEFT,
    MERGE_MILLIS, MERGE_VALUE_BITS, PRICE_MARGIN_LEFT,
};
use market_chart::dataset::{Dataset, SeriesName};
use market_chart::error::{ChartError, DecodeError, MalformedAt, MalformedSampleError};
use market_chart::layout::{Band, Canvas};
use market_chart::sample::{RawEntry, RawNumber, RawValue, ValuedSample};
use market_chart::series::Series;
use market_chart::style::{
    Color, Style, CAPTION_FONT_SIZE, FONT_FAMILY, LABEL_AREA, LABEL_FONT_SIZE, LEGEND_BACKGROUND,
    LEGEND_BACKGROUND_OPACITY, LEGEND_BORDER, LINE_COLOR, MARGIN, MARKER_COLOR, MARKER_RADIUS,
    X_LABEL_ROTATION,
};
use market_chart::timestamp::Timestamp;
use market_chart::value::Value;

fn time(millis: i64) -> Timestamp {
    Timestamp::from_millis(millis).unwrap()
}

fn number(x: f64) -> Value {
    Value::from_bits(x.to_bits()).unwrap()
}

fn point(millis: i64, value: f64) -> ValuedSample {
    ValuedSample { timestamp: time(millis), value: number(value) }
}

fn pairs(items: &[(i64, Option<f64>)]) -> Vec<RawEntry> {
    items
        .iter()
        .map(|(t, v)| {
            RawEntry::Array(vec![
                RawValue::Number(RawNumber { integer: Some(*t), bits: 0 }),
                match v {
                    Some(x) => RawValue::Number(RawNumber { integer: None, bits: x.to_bits() }),
                    None => RawValue::Null,
                },
            ])
        })
        .collect()
}

fn series(items: &[(i64, Option<f64>)]) -> Series {
    Series::decode(&pairs(items)).expect("samples")
}

fn prices() -> Vec<(i64, Option<f64>)> {
    vec![(1000, Some(10.0)), (2000, None), (3000, Some(30.0))]
}

fn market_caps() -> Vec<(i64, Option<f64>)> {
    vec![(1000, Some(1.0e9)), (2000, Some(4.0e9)), (3000, None), (4000, Some(2.0e9))]
}

fn dataset(prices: &[(i64, Option<f64>)], market_caps: &[(i64, Option<f64>)]) -> Dataset {
    Dataset::new(series(prices), series(market_caps), series(&[]))
}

fn event(millis: i64, value: f64) -> AnnotationEvent {
    AnnotationEvent::new(time(millis), number(value), "merge date".to_string())
}

fn upper_band() -> Band {
    Band { left: 0, top: 0, width: 1024, height: 384 }
}

fn lower_band() -> Band {
    Band { left: 0, top: 384, width: 1024, height: 384 }
}

fn style() -> Style {
    Style {
        margin: 10,
        caption_font_size: 50,
        x_label_area: 30,
        y_label_area: 30,
        label_font_size: 10,
        x_label_rotation: 270,
        line_color: Color::Red,
        marker_color: Color::Blue,
        marker_radius: 5,
        legend_background: Color::White,
        legend_background_opacity: 80,
        legend_border: Color::Black,
    }
}

fn legend(line: &str, marker: &str) -> Vec<LegendEntry> {
    vec![
        LegendEntry { label: line.to_string(), color: Color::Red },
        LegendEntry { label: marker.to_string(), color: Color::Blue },
    ]
}

#[test]
fn the_merge_event() {
    let merge = AnnotationEvent::merge();
    assert_eq!(merge.timestamp, Timestamp::from_utc(2022, 9, 15, 6, 43, 0).unwrap());
    assert_eq!(merge.timestamp.to_millis(), 1_663_224_180_000);
    assert_eq!(merge.timestamp.to_millis(), MERGE_MILLIS);
    assert_eq!(merge.value.to_bits(), 1450.0_f64.to_bits());
    assert_eq!(merge.value.to_bits(), MERGE_VALUE_BITS);
    assert_eq!(merge.label, "merge date");
}

#[test]
fn the_two_panel_configurations() {
    assert_eq!(
        PanelConfig::price(),
        PanelConfig {
            series: SeriesName::Prices,
            caption: "ETH price".to_string(),
            line_label: "ETH price in USD".to_string(),
            margin_left: 10,
        }
    );
    assert_eq!(
        PanelConfig::market_cap(),
        PanelConfig {
            series: SeriesName::MarketCaps,
            caption: "ETH market cap".to_string(),
            line_label: "ETH market cap in USD".to_string(),
            margin_left: 55,
        }
    );
}

#[test]
fn the_style_of_a_chart() {
    assert_eq!(MARGIN, 10);
    assert_eq!(PRICE_MARGIN_LEFT, 10);
    assert_eq!(MARKET_CAP_MARGIN_LEFT, 55);
    assert_eq!(LABEL_AREA, 30);
    assert_eq!(CAPTION_FONT_SIZE, 50);
    assert_eq!(LABEL_FONT_SIZE, 10);
    assert_eq!(X_LABEL_ROTATION, 270);
    assert_eq!(MARKER_RADIUS, 5);
    assert_eq!(LEGEND_BACKGROUND_OPACITY, 80);
    assert_eq!(FONT_FAMILY, "sans-serif");
    assert_eq!(LINE_COLOR, Color::Red);
    assert_eq!(MARKER_COLOR, Color::Blue);
    assert_eq!(LEGEND_BACKGROUND, Color::White);
    assert_eq!(LEGEND_BORDER, Color::Black);
    assert_eq!(Style::standard(), style());
}

#[test]
fn chart_of_two_series() {
    let chart = Chart::compose(&dataset(&prices(), &market_caps()), &event(2000, 20.0))
        .expect("both series have values");
    assert_eq!(chart.canvas, Canvas { width: 1024, height: 768 });
    assert_eq!(
        chart.upper,
        Panel {
            series: SeriesName::Prices,
            band: upper_band(),
            caption: "ETH price".to_string(),
            font_family: "sans-serif".to_string(),
            margins: Margins { top: 10, right: 10, bottom: 10, left: 10 },
            style: style(),
            bounds: Bounds {
                x_min: time(1000),
                x_max: time(3000),
                y_min: number(10.0),
                y_max: number(30.0),
            },
            line: vec![point(1000, 10.0), point(3000, 30.0)],
            marker: point(2000, 20.0),
            marker_shown: true,
            legend: legend("ETH price in USD", "merge date"),
        }
    );
    assert_eq!(
        chart.lower,
        Panel {
            series: SeriesName::MarketCaps,
            band: lower_band(),
            caption: "ETH market cap".to_string(),
            font_family: "sans-serif".to_string(),
            margins: Margins { top: 10, right: 10, bottom: 10, left: 55 },
            style: style(),
            bounds: Bounds {
                x_min: time(1000),
                x_max: time(4000),
                y_min: number(1.0e9),
                y_max: number(4.0e9),
            },
            line: vec![point(1000, 1.0e9), point(2000, 4.0e9), point(4000, 2.0e9)],
            marker: point(2000, 20.0),
            marker_shown: true,
            legend: legend("ETH market cap in USD", "merge date"),
        }
    );
}

#[test]
fn the_line_has_two_points_and_skips_the_gap() {
    let chart = Chart::compose(&dataset(&prices(), &market_caps()), &AnnotationEvent::merge())
        .expect("both series have values");
    assert_eq!(chart.upper.line.len(), 2);
    assert_eq!(chart.upper.line, vec![point(1000, 10.0), point(3000, 30.0)]);
    assert!(chart.upper.line.iter().all(|p| p.timestamp != time(2000)));
    assert_eq!(chart.upper.bounds.x_min, time(1000));
    assert_eq!(chart.upper.bounds.x_max, time(3000));
    assert_eq!(chart.upper.bounds.y_min, number(10.0));
    assert_eq!(chart.upper.bounds.y_max, number(30.0));
}

#[test]
fn empty_market_caps_fail_the_lower_panel_alone() {
    let data = dataset(&prices(), &[]);
    let merge = AnnotationEvent::merge();
    assert_eq!(Chart::compose(&data, &merge), Err(ChartError::EmptySeries(SeriesName::MarketCaps)));
    assert_eq!(
        Panel::compose(
            data.series(SeriesName::MarketCaps),
            &PanelConfig::market_cap(),
            lower_band(),
            &merge
        ),
        Err(ChartError::EmptySeries(SeriesName::MarketCaps))
    );
    let upper =
        Panel::compose(data.series(SeriesName::Prices), &PanelConfig::price(), upper_band(), &merge)
            .expect("the prices have values");
    let whole = Chart::compose(&dataset(&prices(), &market_caps()), &merge).unwrap();
    assert_eq!(upper, whole.upper);
}

#[test]
fn market_caps_without_values_fail_the_lower_panel() {
    let data = dataset(&prices(), &[(1000, None), (2000, None)]);
    assert_eq!(
        Chart::compose(&data, &AnnotationEvent::merge()),
        Err(ChartError::EmptySeries(SeriesName::MarketCaps))
    );
}

#[test]
fn empty_prices_fail_the_upper_panel_first() {
    let merge = AnnotationEvent::merge();
    assert_eq!(
        Chart::compose(&dataset(&[], &market_caps()), &merge),
        Err(ChartError::EmptySeries(SeriesName::Prices))
    );
    assert_eq!(
        Chart::compose(&dataset(&[], &[]), &merge),
        Err(ChartError::EmptySeries(SeriesName::Prices))
    );
    assert_eq!(
        Chart::compose(&dataset(&[(1000, None)], &[(1000, None)]), &merge),
        Err(ChartError::EmptySeries(SeriesName::Prices))
    );
}

#[test]
fn total_volumes_are_not_drawn() {
    let merge = AnnotationEvent::merge();
    let with = Dataset::new(series(&prices()), series(&market_caps()), series(&[(1, Some(1.0))]));
    let without = Dataset::new(series(&prices()), series(&market_caps()), series(&[]));
    assert_eq!(Chart::compose(&with, &merge), Chart::compose(&without, &merge));
}

#[test]
fn marker_outside_the_domain_is_not_drawn_and_not_moved() {
    let data = dataset(&prices(), &market_caps());
    let inside = Chart::compose(&data, &event(2000, 20.0)).unwrap();
    for millis in [999, -5, 3001, 1_663_224_180_000] {
        let outside = Chart::compose(&data, &event(millis, 20.0)).expect("no error");
        assert!(!outside.upper.marker_shown);
        assert_eq!(outside.upper.marker, point(millis, 20.0));
        assert_eq!(outside.upper.legend, inside.upper.legend);
        assert_eq!(outside.upper.legend.len(), 2);
        assert_eq!(outside.upper.style, inside.upper.style);
        assert_eq!(outside.upper.bounds, inside.upper.bounds);
        assert_eq!(outside.upper.line, inside.upper.line);
        assert_eq!(outside.lower.legend, inside.lower.legend);
        assert_eq!(outside.lower.bounds, inside.lower.bounds);
        assert_eq!(outside.lower.line, inside.lower.line);
    }
    let between = Chart::compose(&data, &event(3500, 20.0)).unwrap();
    assert!(!between.upper.marker_shown);
    assert!(between.lower.marker_shown);
}

#[test]
fn marker_at_the_ends_of_the_domain_is_drawn() {
    let data = dataset(&prices(), &market_caps());
    assert!(Chart::compose(&data, &event(1000, 0.0)).unwrap().upper.marker_shown);
    assert!(Chart::compose(&data, &event(3000, 0.0)).unwrap().upper.marker_shown);
    assert!(Chart::compose(&data, &event(4000, 0.0)).unwrap().lower.marker_shown);
    assert!(!Chart::compose(&data, &event(4001, 0.0)).unwrap().lower.marker_shown);
}

#[test]
fn marker_value_outside_the_domain_is_kept() {
    let data = dataset(&prices(), &market_caps());
    let chart = Chart::compose(&data, &event(2000, 1450.0)).unwrap();
    assert!(chart.lower.marker_shown);
    assert_eq!(chart.lower.marker, point(2000, 1450.0));
    assert_eq!(chart.lower.bounds.y_min, number(1.0e9));
}

#[test]
fn the_legend_names_the_event_by_its_label() {
    let data = dataset(&prices(), &market_caps());
    let named = AnnotationEvent::new(time(2000), number(20.0), "launch".to_string());
    let chart = Chart::compose(&data, &named).unwrap();
    assert_eq!(chart.upper.legend, legend("ETH price in USD", "launch"));
    assert_eq!(chart.lower.legend, legend("ETH market cap in USD", "launch"));
}

#[test]
fn panels_as_configured() {
    let data = dataset(&prices(), &market_caps());
    let upper = PanelConfig {
        series: SeriesName::MarketCaps,
        caption: "caps".to_string(),
        line_label: "caps in USD".to_string(),
        margin_left: 70,
    };
    let lower = PanelConfig {
        series: SeriesName::TotalVolumes,
        caption: "volumes".to_string(),
        line_label: "volumes in USD".to_string(),
        margin_left: 3,
    };
    let merge = AnnotationEvent::merge();
    assert_eq!(
        Chart::compose_with(&data, &upper, &lower, &merge),
        Err(ChartError::EmptySeries(SeriesName::TotalVolumes))
    );
    let chart = Chart::compose_with(&data, &upper, &PanelConfig::price(), &merge).unwrap();
    assert_eq!(chart.upper.series, SeriesName::MarketCaps);
    assert_eq!(chart.upper.caption, "caps");
    assert_eq!(chart.upper.margins, Margins { top: 10, right: 10, bottom: 10, left: 70 });
    assert_eq!(chart.upper.legend, legend("caps in USD", "merge date"));
    assert_eq!(chart.upper.band, upper_band());
    assert_eq!(chart.upper.line.len(), 3);
    assert_eq!(chart.lower.series, SeriesName::Prices);
    assert_eq!(chart.lower.band, lower_band());
    assert_eq!(chart.lower.line.len(), 2);
}

#[test]
fn chart_from_a_payload() {
    let merge = AnnotationEvent::merge();
    let chart = Chart::from_payload(&pairs(&prices()), &pairs(&market_caps()), &vec![], &merge);
    assert_eq!(chart, Chart::compose(&dataset(&prices(), &market_caps()), &merge));
    assert!(chart.is_ok());
    assert_eq!(
        Chart::from_payload(&pairs(&prices()), &vec![], &vec![], &merge),
        Err(ChartError::EmptySeries(SeriesName::MarketCaps))
    );
}

#[test]
fn malformed_payload_has_no_chart() {
    let merge = AnnotationEvent::merge();
    let mut bad = pairs(&market_caps());
    bad[3] = RawEntry::Array(vec![RawValue::Null]);
    assert_eq!(
        Chart::from_payload(&pairs(&prices()), &bad, &vec![], &merge),
        Err(ChartError::MalformedSample(DecodeError {
            series: SeriesName::MarketCaps,
            at: MalformedAt { index: 3, cause: MalformedSampleError::WrongLength },
        }))
    );
    assert_eq!(
        Chart::from_payload(&vec![], &vec![], &bad, &merge),
        Err(ChartError::MalformedSample(DecodeError {
            series: SeriesName::TotalVolumes,
            at: MalformedAt { index: 3, cause: MalformedSampleError::WrongLength },
        }))
    );
}

#[test]
fn every_error_ends_the_run_with_its_own_status() {
    let malformed = ChartError::MalformedSample(DecodeError {
        series: SeriesName::Prices,
        at: MalformedAt { index: 0, cause: MalformedSampleError::BadValue },
    });
    let empty = ChartError::EmptySeries(SeriesName::Prices);
    let flush = ChartError::RenderFlush;
    assert_eq!(malformed.exit_status(), 2);
    assert_eq!(empty.exit_status(), 3);
    assert_eq!(flush.exit_status(), 4);
    assert_eq!(malformed.message(), "malformed sample in the payload");
    assert_eq!(empty.message(), "a series has no sample with a value");
    assert_eq!(flush.message(), "the chart could not be written out");
}
