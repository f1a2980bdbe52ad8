//! Resolution of a disc's barcode into release metadata: the rules by which
//! a catalog search, an encyclopedia search and a tracker's release database
//! are chained, each query derived from the answer before it.

pub mod discogs;
pub mod error;
pub mod musicbrainz;
pub mod quota;
pub mod resolve;
pub mod text;
pub mod whatapi;
pub mod year;
