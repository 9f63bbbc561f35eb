use market_chart::bounds::Bounds;
use market_chart::error::EmptySeriesError;
use market_chart::sample::{RawEntry, RawNumber, RawValue, ValuedSample};
use market_chart::series::Series;
use market_chart::timestamp::Timestamp;
use market_chart::value::Value;

fn time(millis: i64) -> Timestamp {
    Timestamp::from_millis(millis).unwrap()
}

fn number(x: f64) -> Value {
    Value::from_bits(x.to_bits()).unwrap()
}

fn point(millis: i64, value: f64) -> ValuedSample {
    ValuedSample { timestamp: time(millis), value: number(value) }
}

fn extent(x_min: i64, x_max: i64, y_min: f64, y_max: f64) -> Bounds {
    Bounds { x_min: time(x_min), x_max: time(x_max), y_min: number(y_min), y_max: number(y_max) }
}

fn bounds_of_series(items: &[(i64, Option<f64>)]) -> Result<Bounds, EmptySeriesError> {
    let raw: Vec<RawEntry> = items
        .iter()
        .map(|(t, v)| {
            RawEntry::Array(vec![
                RawValue::Number(RawNumber { integer: Some(*t), bits: 0 }),
                match v {
                    Some(x) => RawValue::Number(RawNumber { integer: None, bits: x.to_bits() }),
                    None => RawValue::Null,
                },
            ])
        })
        .collect();
    Bounds::of(&Series::decode(&raw).expect("samples").valued_samples())
}

#[test]
fn bounds_of_three_readings() {
    let bounds = bounds_of_series(&[(1000, Some(10.0)), (2000, None), (3000, Some(30.0))]);
    assert_eq!(bounds, Ok(extent(1000, 3000, 10.0, 30.0)));
}

#[test]
fn no_bounds_without_a_value() {
    assert_eq!(Bounds::of(&[]), Err(EmptySeriesError));
    assert_eq!(bounds_of_series(&[]), Err(EmptySeriesError));
    assert_eq!(bounds_of_series(&[(1000, None), (2000, None)]), Err(EmptySeriesError));
}

#[test]
fn bounds_of_one_sample() {
    assert_eq!(Bounds::of(&[point(1000, 10.0)]), Ok(extent(1000, 1000, 10.0, 10.0)));
    assert_eq!(Bounds::at(&point(1000, 10.0)), extent(1000, 1000, 10.0, 10.0));
}

#[test]
fn absent_values_do_not_count() {
    let bounds = bounds_of_series(&[
        (500, None),
        (1000, Some(10.0)),
        (2000, None),
        (3000, Some(30.0)),
        (9000, None),
    ]);
    assert_eq!(bounds, Ok(extent(1000, 3000, 10.0, 30.0)));
}

#[test]
fn bounds_do_not_depend_on_order() {
    let points = [point(3000, -1.0), point(1000, 7.5), point(4000, 2.0), point(2000, -3.25)];
    assert_eq!(Bounds::of(&points), Ok(extent(1000, 4000, -3.25, 7.5)));
    let mut reversed = points;
    reversed.reverse();
    assert_eq!(Bounds::of(&reversed), Ok(extent(1000, 4000, -3.25, 7.5)));
}

#[test]
fn values_are_bounded_in_the_total_order() {
    let points = [point(1, 0.0), point(2, -0.0), point(3, 0.0)];
    assert_eq!(Bounds::of(&points), Ok(extent(1, 3, -0.0, 0.0)));
    let points = [point(1, f64::INFINITY), point(2, f64::NEG_INFINITY), point(3, 1.0)];
    assert_eq!(Bounds::of(&points), Ok(extent(1, 3, f64::NEG_INFINITY, f64::INFINITY)));
    let points = [point(1, -5.0e-324), point(2, -1.0e300), point(3, -2.0)];
    assert_eq!(Bounds::of(&points), Ok(extent(1, 3, -1.0e300, -5.0e-324)));
}

#[test]
fn a_value_outside_widens_the_bounds_to_itself() {
    let before = extent(1000, 3000, 10.0, 30.0);
    assert_eq!(before.widen(&point(2000, 45.0)), extent(1000, 3000, 10.0, 45.0));
    assert_eq!(before.widen(&point(2000, 2.5)), extent(1000, 3000, 2.5, 30.0));
    assert_eq!(before.widen(&point(4000, 20.0)), extent(1000, 4000, 10.0, 30.0));
    assert_eq!(before.widen(&point(-7, 20.0)), extent(-7, 3000, 10.0, 30.0));
    assert_eq!(before.widen(&point(5000, -1.0)), extent(1000, 5000, -1.0, 30.0));
}

#[test]
fn a_value_inside_leaves_the_bounds() {
    let before = extent(1000, 3000, 10.0, 30.0);
    assert_eq!(before.widen(&point(2000, 20.0)), before);
    assert_eq!(before.widen(&point(1000, 10.0)), before);
    assert_eq!(before.widen(&point(3000, 30.0)), before);
}

#[test]
fn inserting_a_sample_widens_the_bounds_of_the_series() {
    let base = [(1000, Some(10.0)), (2000, None), (3000, Some(30.0))];
    let before = bounds_of_series(&base).unwrap();
    for place in 0..=base.len() {
        for (t, v) in [(2500, 45.0), (2500, 2.5), (4000, 20.0), (10, 20.0), (2000, 20.0)] {
            let mut more = base.to_vec();
            more.insert(place, (t, Some(v)));
            assert_eq!(bounds_of_series(&more), Ok(before.widen(&point(t, v))));
        }
        for t in [10, 2500, 4000] {
            let mut more = base.to_vec();
            more.insert(place, (t, None));
            assert_eq!(bounds_of_series(&more), Ok(before));
        }
    }
}

#[test]
fn the_first_value_of_a_series_is_its_bounds() {
    let base = [(1000, None), (2000, None)];
    for place in 0..=base.len() {
        let mut more = base.to_vec();
        more.insert(place, (1500, Some(3.0)));
        assert_eq!(bounds_of_series(&more), Ok(extent(1500, 1500, 3.0, 3.0)));
    }
}

#[test]
fn ascending_series_runs_from_first_to_last_value() {
    let bounds =
        bounds_of_series(&[(1, None), (2, Some(5.0)), (3, Some(1.0)), (4, Some(9.0)), (5, None)])
            .unwrap();
    assert_eq!(bounds.x_min, time(2));
    assert_eq!(bounds.x_max, time(4));
}

#[test]
fn timestamps_within_the_domain() {
    let bounds = extent(1000, 3000, 10.0, 30.0);
    assert!(bounds.contains_timestamp(&time(1000)));
    assert!(bounds.contains_timestamp(&time(2000)));
    assert!(bounds.contains_timestamp(&time(3000)));
    assert!(!bounds.contains_timestamp(&time(999)));
    assert!(!bounds.contains_timestamp(&time(3001)));
    assert!(!bounds.contains_timestamp(&time(-1000)));
}
