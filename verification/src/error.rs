//! What can be wrong with the data handed to a chart.

use vstd::prelude::*;

verus! {

/// Why a dataset was refused.
#[derive(Clone, Copy, Debug, PartialEq, Eq)]
pub enum ChartError {
    /// There is no category, or no series.
    EmptyDataset,
    /// A series does not hold one value per category.
    InvalidSeriesShape,
    /// There are more categories, or more series, than a chart can hold.
    DatasetTooLarge,
}

impl ChartError {
    /// A sentence that says what was wrong.
    pub fn describe(&self) -> (text: String)
        ensures
            text@ == match *self {
                ChartError::EmptyDataset => "the dataset has no category or no series"@,
                ChartError::InvalidSeriesShape => "a series does not hold one value per category"@,
                ChartError::DatasetTooLarge => "the dataset has too many categories or series"@,
            },
    {
        match self {
            ChartError::EmptyDataset => "the dataset has no category or no series".to_owned(),
            ChartError::InvalidSeriesShape => {
                "a series does not hold one value per category".to_owned()
            },
            ChartError::DatasetTooLarge => {
                "the dataset has too many categories or series".to_owned()
            },
        }
    }
}

} // verus!
