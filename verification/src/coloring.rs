//! Which attribute colours the points, and whether its data has arrived.

use vstd::prelude::*;
use crate::color::CountFileMetaColumnData;

verus! {

/// Data that is fetched in the background: not asked for yet, on its way,
/// or here.
#[derive(Debug, Clone, PartialEq)]
pub enum AsyncData<T> {
    NotLoaded,
    Loading,
    Loaded(T),
}

/// Where a per-point attribute comes from: a metadata column by name, or a
/// feature of a count table.
#[derive(Debug, Clone, PartialEq)]
pub enum PerCellDataSource {
    Metadata(String),
    Counts(String, String),
}

/// Coloring of the reduction, as chosen.
#[derive(Debug, Clone, PartialEq)]
pub enum ReductionColoring {
    Uncolored,
    ByMeta(PerCellDataSource),
}

/// Coloring of the reduction, with the state of its data.
#[derive(Debug, Clone, PartialEq)]
pub enum ReductionColoringWithData {
    Uncolored,
    ByMeta(PerCellDataSource, AsyncData<CountFileMetaColumnData>),
}

impl<T> AsyncData<T> {
    /// The data, if it has arrived.
    pub open spec fn loaded(&self) -> Option<T> {
        match *self {
            AsyncData::Loaded(v) => Some(v),
            _ => None,
        }
    }

    /// Tells whether the data has arrived.
    pub fn is_loaded(&self) -> (r: bool)
        ensures
            r == self.loaded().is_some(),
    {
        match self {
            AsyncData::Loaded(_) => true,
            _ => false,
        }
    }
}

impl ReductionColoring {
    /// Pairs the chosen coloring with what is known of its data. `dat` is
    /// the state of the column that a `ByMeta` coloring names; it is not
    /// looked at when no coloring is chosen.
    pub fn get_umap_coloring(self, dat: AsyncData<CountFileMetaColumnData>) -> (r: ReductionColoringWithData)
        ensures
            r == match self {
                ReductionColoring::Uncolored => ReductionColoringWithData::Uncolored,
                ReductionColoring::ByMeta(name) => ReductionColoringWithData::ByMeta(name, dat),
            },
    {
        match self {
            ReductionColoring::Uncolored => ReductionColoringWithData::Uncolored,
            ReductionColoring::ByMeta(name) => ReductionColoringWithData::ByMeta(name, dat),
        }
    }
}

impl ReductionColoringWithData {
    /// The column to colour by: there is one exactly when a coloring is
    /// chosen and its data has arrived.
    pub open spec fn spec_column(&self) -> Option<CountFileMetaColumnData> {
        match *self {
            ReductionColoringWithData::ByMeta(_, AsyncData::Loaded(col)) => Some(col),
            _ => None,
        }
    }

    /// The column to colour by, if there is one.
    pub fn column(&self) -> (r: Option<&CountFileMetaColumnData>)
        ensures
            r is Some == self.spec_column().is_some(),
            r matches Some(c) ==> Some(*c) == self.spec_column(),
    {
        match self {
            ReductionColoringWithData::ByMeta(_, AsyncData::Loaded(col)) => Some(col),
            _ => None,
        }
    }
}

impl PerCellDataSource {
    /// The text to put beside the colour legend: the name of a metadata
    /// column, and a fixed text for any other source.
    pub fn legend_name(self) -> (r: String)
        ensures
            r@ == match self {
                PerCellDataSource::Metadata(name) => name@,
                PerCellDataSource::Counts(_, _) => "Error_naming_legend"@,
            },
    {
        match self {
            PerCellDataSource::Metadata(name) => name,
            PerCellDataSource::Counts(_, _) => String::from_str("Error_naming_legend"),
        }
    }
}

} // verus!
