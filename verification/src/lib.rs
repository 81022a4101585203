//! Photo locations as GeoJSON features.
//!
//! A photo carries its position in its metadata: each axis as degrees, minutes and
//! seconds, with a letter for the hemisphere. This library decodes the metadata, turns each
//! axis into an exact signed angle in decimal degrees, reads the properties that were asked
//! for, and gathers the features of a batch of photos in the order of the photos. A photo
//! that fails is reported and left out; the batch goes on.
//!
//! The library reads no file and writes no document. Its caller hands it the bytes of each
//! photo, and turns the collection into text.

pub mod angle;
pub mod arith;
pub mod collection;
pub mod coordinate;
pub mod decode;
pub mod error;
pub mod feature;
pub mod json;
pub mod property;
pub mod record;
pub mod tag;
pub mod text;

pub use angle::{Angle, Magnitude, Rational};
pub use collection::{collect, Diagnostic, FeatureCollection, Report};
pub use coordinate::{
    get_coordinate, get_degrees, get_latitude, get_longitude, get_string, hemisphere_sign,
    Coordinate,
};
pub use decode::open;
pub use error::{Error, Flaw};
pub use feature::{
    build, extract_feature, get_feature, get_properties, get_property, Feature, Source,
};
pub use property::{parse_properties, Property};
pub use record::{MetadataRecord, RawFieldValue};
pub use tag::Tag;
