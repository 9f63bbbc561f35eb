//! The dataset: the three named series of one payload.

use crate::error::DecodeError;
use crate::sample::{RawEntry, Sample, ValuedSample};
use crate::series::{decoded_series, valued, Series};
use vstd::prelude::*;

verus! {

/// The names of the three series of a dataset.
#[derive(Clone, Copy, Debug, PartialEq, Eq, Structural)]
pub enum SeriesName {
    Prices,
    MarketCaps,
    TotalVolumes,
}

/// The three series of one payload. They need not be of one length, and nothing
/// joins them. A dataset is made once and only read afterwards.
#[derive(Debug, PartialEq, Eq)]
pub struct Dataset {
    prices: Series,
    market_caps: Series,
    total_volumes: Series,
}

/// A dataset as the sequences of its samples.
pub struct DatasetView {
    pub prices: Seq<Sample>,
    pub market_caps: Seq<Sample>,
    pub total_volumes: Seq<Sample>,
}

impl DatasetView {
    /// The samples of the series of that name.
    pub open spec fn samples(self, name: SeriesName) -> Seq<Sample> {
        match name {
            SeriesName::Prices => self.prices,
            SeriesName::MarketCaps => self.market_caps,
            SeriesName::TotalVolumes => self.total_volumes,
        }
    }
}

impl View for Dataset {
    type V = DatasetView;

    closed spec fn view(&self) -> DatasetView {
        DatasetView {
            prices: self.prices@,
            market_caps: self.market_caps@,
            total_volumes: self.total_volumes@,
        }
    }
}

/// What the three series of a payload decode to. The series are decoded in the
/// order prices, market caps, total volumes, and the first entry that is no sample
/// fails the whole payload.
pub open spec fn decoded_dataset(
    prices: Seq<RawEntry>,
    market_caps: Seq<RawEntry>,
    total_volumes: Seq<RawEntry>,
) -> Result<DatasetView, DecodeError> {
    match decoded_series(prices) {
        Err(at) => Err(DecodeError { series: SeriesName::Prices, at }),
        Ok(prices) => match decoded_series(market_caps) {
            Err(at) => Err(DecodeError { series: SeriesName::MarketCaps, at }),
            Ok(market_caps) => match decoded_series(total_volumes) {
                Err(at) => Err(DecodeError { series: SeriesName::TotalVolumes, at }),
                Ok(total_volumes) => Ok(DatasetView { prices, market_caps, total_volumes }),
            },
        },
    }
}

impl Dataset {
    /// The dataset of the three given series.
    pub fn new(prices: Series, market_caps: Series, total_volumes: Series) -> (r: Dataset)
        ensures
            r@.prices == prices@,
            r@.market_caps == market_caps@,
            r@.total_volumes == total_volumes@,
    {
        Dataset { prices, market_caps, total_volumes }
    }

    /// Decodes the three series of a payload, each entry as
    /// `[timestampMillis, valueOrNull]`.
    pub fn decode(
        prices: &Vec<RawEntry>,
        market_caps: &Vec<RawEntry>,
        total_volumes: &Vec<RawEntry>,
    ) -> (r: Result<Dataset, DecodeError>)
        ensures
            match r {
                Ok(dataset) => decoded_dataset(prices@, market_caps@, total_volumes@) == Ok::<
                    _,
                    DecodeError,
                >(dataset@),
                Err(e) => decoded_dataset(prices@, market_caps@, total_volumes@) == Err::<
                    DatasetView,
                    _,
                >(e),
            },
    {
        let prices = match Series::decode(prices) {
            Ok(series) => series,
            Err(at) => {
                return Err(DecodeError { series: SeriesName::Prices, at });
            },
        };
        let market_caps = match Series::decode(market_caps) {
            Ok(series) => series,
            Err(at) => {
                return Err(DecodeError { series: SeriesName::MarketCaps, at });
            },
        };
        let total_volumes = match Series::decode(total_volumes) {
            Ok(series) => series,
            Err(at) => {
                return Err(DecodeError { series: SeriesName::TotalVolumes, at });
            },
        };
        Ok(Dataset { prices, market_caps, total_volumes })
    }

    /// The series of that name.
    pub fn series(&self, name: SeriesName) -> (r: &Series)
        ensures
            r@ == self@.samples(name),
    {
        match name {
            SeriesName::Prices => &self.prices,
            SeriesName::MarketCaps => &self.market_caps,
            SeriesName::TotalVolumes => &self.total_volumes,
        }
    }

    /// All samples of the series of that name, in stored order.
    pub fn samples(&self, name: SeriesName) -> (r: &Vec<Sample>)
        ensures
            r@ == self@.samples(name),
    {
        self.series(name).samples()
    }

    /// The samples of the series of that name that have a value, in stored order.
    pub fn valued_samples(&self, name: SeriesName) -> (r: Vec<ValuedSample>)
        ensures
            r@ == valued(self@.samples(name)),
    {
        self.series(name).valued_samples()
    }
}

} // verus!
