/// The comparator: select the larger of two ordered values.
pub mod compare;

/// Sample account records built from plain field values.
pub mod account;

/// Owned text assembled from borrowed pieces.
pub mod text;
