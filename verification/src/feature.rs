use crate::angle::Angle;
use crate::coordinate::{
    coordinate_of, get_coordinate, get_string, string_of, Coordinate, CoordinateView,
};
use crate::decode::{container_fields, open};
use crate::error::{Error, ErrorView};
use crate::json::{insert_text, new_object, object_entries};
use crate::property::{lemma_names_differ, Property};
use crate::record::{FieldView, MetadataRecord};
use crate::tag::Tag;
use vstd::prelude::*;
use vstd::string::*;

verus! {

/// One photo as the caller found it on disk. The library reads no file: whoever calls it
/// reads the bytes and resolves the path, and says here how each went.
#[derive(Debug)]
pub struct Source {
    /// The name by which the photo is reported where it fails.
    pub label: String,
    /// The base name of the photo's file.
    pub file_name: String,
    /// The canonical path of the photo's file, or why it cannot be had.
    pub canonical_path: Result<String, String>,
    /// The bytes of the photo's file, or why they cannot be had.
    pub contents: Result<Vec<u8>, String>,
}

/// One photo as the caller found it, over sequences.
pub struct SourceView {
    pub label: Seq<char>,
    pub file_name: Seq<char>,
    pub canonical_path: Result<Seq<char>, Seq<char>>,
    pub contents: Result<Seq<u8>, Seq<char>>,
}

impl View for Source {
    type V = SourceView;

    open spec fn view(&self) -> SourceView {
        SourceView {
            label: self.label@,
            file_name: self.file_name@,
            canonical_path: match self.canonical_path {
                Ok(path) => Ok(path@),
                Err(reason) => Err(reason@),
            },
            contents: match self.contents {
                Ok(bytes) => Ok(bytes@),
                Err(reason) => Err(reason@),
            },
        }
    }
}

/// A point on the globe with the properties that were asked for. The properties are always
/// there, if only as an empty object.
#[derive(Debug)]
pub struct Feature {
    pub coordinate: Coordinate,
    pub properties: serde_json::Map<String, serde_json::Value>,
}

/// A feature over real numbers and sequences.
pub struct FeatureView {
    pub coordinate: CoordinateView,
    pub properties: Map<Seq<char>, Seq<char>>,
}

impl View for Feature {
    type V = FeatureView;

    open spec fn view(&self) -> FeatureView {
        FeatureView { coordinate: self.coordinate@, properties: object_entries(self.properties) }
    }
}

impl FeatureView {
    /// The position of the point, in the order of the axes of a GeoJSON document: the
    /// longitude first, then the latitude, both in decimal degrees.
    pub open spec fn position(self) -> (real, real) {
        (self.coordinate.longitude.value(), self.coordinate.latitude.value())
    }
}

impl Feature {
    /// A feature is well formed when its coordinate is.
    pub open spec fn wf(self) -> bool {
        self.coordinate.wf()
    }

    /// The position of the point, in the order of the axes of a GeoJSON document: the
    /// longitude first, then the latitude.
    pub fn position(&self) -> (axes: (Angle, Angle))
        ensures
            axes.0 == self.coordinate.longitude,
            axes.1 == self.coordinate.latitude,
            (axes.0@.value(), axes.1@.value()) == self@.position(),
    {
        (self.coordinate.longitude, self.coordinate.latitude)
    }
}

/// The value of one property of a photo, or the error that says why it has none.
pub open spec fn property_of(source: SourceView, record: Map<Tag, FieldView>, property: Property)
    -> Result<Seq<char>, ErrorView> {
    match property {
        Property::Filename => Ok(source.file_name),
        Property::Path => match source.canonical_path {
            Ok(path) => Ok(path),
            Err(reason) => Err(ErrorView::Access(reason)),
        },
        Property::Datetime => match string_of(record, Tag::DateTimeOriginal) {
            Ok(text) => Ok(text),
            Err(error) => Err(error@),
        },
    }
}

/// The properties of a photo: one entry for each selector, made in the order of the
/// selectors, so that of two selectors of one name the later one decides. The first
/// selector that fails decides the error.
pub open spec fn properties_of(
    source: SourceView,
    record: Map<Tag, FieldView>,
    selectors: Seq<Property>,
) -> Result<Map<Seq<char>, Seq<char>>, ErrorView>
    decreases selectors.len(),
{
    if selectors.len() == 0 {
        Ok(Map::empty())
    } else {
        match properties_of(source, record, selectors.drop_last()) {
            Err(error) => Err(error),
            Ok(entries) => match property_of(source, record, selectors.last()) {
                Err(error) => Err(error),
                Ok(value) => Ok(entries.insert(selectors.last().name_text(), value)),
            },
        }
    }
}

/// The feature that a decoded photo gives: its coordinate first, then its properties.
pub open spec fn feature_of_record(
    source: SourceView,
    record: Map<Tag, FieldView>,
    selectors: Seq<Property>,
) -> Result<FeatureView, ErrorView> {
    match coordinate_of(record) {
        Err(error) => Err(error@),
        Ok(coordinate) => match properties_of(source, record, selectors) {
            Err(error) => Err(error),
            Ok(properties) => Ok(FeatureView { coordinate, properties }),
        },
    }
}

/// The feature that a photo gives, or the error that keeps it out of the collection.
pub open spec fn feature_of(source: SourceView, selectors: Seq<Property>) -> Result<
    FeatureView,
    ErrorView,
> {
    match source.contents {
        Err(reason) => Err(ErrorView::Access(reason)),
        Ok(bytes) => match container_fields(bytes) {
            Err(reason) => Err(ErrorView::Decode(reason)),
            Ok(record) => feature_of_record(source, record, selectors),
        },
    }
}

/// The value of one property of a photo.
pub fn get_property(source: &Source, record: &MetadataRecord, property: Property) -> (out: Result<
    String,
    Error,
>)
    ensures
        match property_of(source@, record@, property) {
            Ok(value) => out matches Ok(text) && text@ == value,
            Err(error) => out matches Err(e) && e@ == error,
        },
{
    match property {
        Property::Filename => Ok(source.file_name.clone()),
        Property::Path => match &source.canonical_path {
            Ok(path) => Ok(path.clone()),
            Err(reason) => Err(Error::Access(reason.clone())),
        },
        Property::Datetime => match get_string(record, Tag::DateTimeOriginal) {
            Ok(text) => Ok(String::from_str(text)),
            Err(error) => Err(error),
        },
    }
}

/// The properties of a photo that the selectors ask for, as a JSON object.
pub fn get_properties(source: &Source, record: &MetadataRecord, selectors: &[Property]) -> (out:
    Result<serde_json::Map<String, serde_json::Value>, Error>)
    ensures
        match properties_of(source@, record@, selectors@) {
            Ok(entries) => out matches Ok(object) && object_entries(object) == entries,
            Err(error) => out matches Err(e) && e@ == error,
        },
{
    let mut object = new_object();
    let mut i: usize = 0;
    while i < selectors.len()
        invariant
            i <= selectors.len(),
            properties_of(source@, record@, selectors@.take(i as int)) == Ok::<
                Map<Seq<char>, Seq<char>>,
                ErrorView,
            >(object_entries(object)),
        decreases selectors.len() - i,
    {
        let property = selectors[i];
        proof {
            let next = selectors@.take(i + 1);
            assert(next.drop_last() == selectors@.take(i as int));
            assert(next.last() == property);
        }
        match get_property(source, record, property) {
            Ok(value) => insert_text(&mut object, String::from_str(property.name()), value.as_str()),
            Err(error) => {
                proof {
                    lemma_failure_stays(source@, record@, selectors@, i + 1);
                }
                return Err(error);
            },
        }
        i += 1;
    }
    assert(selectors@.take(i as int) == selectors@);
    Ok(object)
}

/// Once the first `n` selectors have failed, so has the whole list, with the same error.
proof fn lemma_failure_stays(
    source: SourceView,
    record: Map<Tag, FieldView>,
    selectors: Seq<Property>,
    n: int,
)
    requires
        0 <= n <= selectors.len(),
        properties_of(source, record, selectors.take(n)) is Err,
    ensures
        properties_of(source, record, selectors) == properties_of(
            source,
            record,
            selectors.take(n),
        ),
    decreases selectors.len() - n,
{
    if n == selectors.len() {
        assert(selectors.take(n) == selectors);
    } else {
        let next = selectors.take(n + 1);
        assert(next.drop_last() == selectors.take(n));
        lemma_failure_stays(source, record, selectors, n + 1);
    }
}

/// The properties of a photo are those that were asked for, no more and no less: each
/// under its name and with its value, however often it was asked for.
pub proof fn lemma_properties_are_those_asked_for(
    source: SourceView,
    record: Map<Tag, FieldView>,
    selectors: Seq<Property>,
)
    requires
        properties_of(source, record, selectors) is Ok,
    ensures
        forall|key: Seq<char>| #[trigger]
            properties_of(source, record, selectors)->Ok_0.contains_key(key) <==> exists|i: int|
                0 <= i < selectors.len() && (#[trigger] selectors[i]).name_text() == key,
        forall|i: int|
            0 <= i < selectors.len() ==> property_of(source, record, #[trigger] selectors[i])
                == Ok::<Seq<char>, ErrorView>(
                properties_of(source, record, selectors)->Ok_0[selectors[i].name_text()],
            ),
    decreases selectors.len(),
{
    let entries = properties_of(source, record, selectors)->Ok_0;
    if selectors.len() > 0 {
        let rest = selectors.drop_last();
        let last = selectors.last();
        lemma_properties_are_those_asked_for(source, record, rest);
        let before = properties_of(source, record, rest)->Ok_0;
        assert forall|key: Seq<char>| #[trigger] entries.contains_key(key) <==> exists|i: int|
            0 <= i < selectors.len() && (#[trigger] selectors[i]).name_text() == key by {
            if entries.contains_key(key) {
                if key == last.name_text() {
                    assert(selectors[selectors.len() - 1].name_text() == key);
                } else {
                    assert(before.contains_key(key));
                    let i = choose|i: int|
                        0 <= i < rest.len() && (#[trigger] rest[i]).name_text() == key;
                    assert(selectors[i].name_text() == key);
                }
            }
            if exists|i: int|
                0 <= i < selectors.len() && (#[trigger] selectors[i]).name_text() == key {
                let i = choose|i: int|
                    0 <= i < selectors.len() && (#[trigger] selectors[i]).name_text() == key;
                if i < rest.len() {
                    assert(rest[i].name_text() == key);
                }
            }
        }
        assert forall|i: int| 0 <= i < selectors.len() implies property_of(
            source,
            record,
            #[trigger] selectors[i],
        ) == Ok::<Seq<char>, ErrorView>(entries[selectors[i].name_text()]) by {
            if i < rest.len() {
                assert(rest[i] == selectors[i]);
                if selectors[i].name_text() == last.name_text() {
                    lemma_names_differ(selectors[i], last);
                }
            }
        }
    }
}

/// Puts a coordinate and its properties together. Nothing is checked and nothing can fail.
pub fn build(coordinate: Coordinate, properties: serde_json::Map<String, serde_json::Value>) -> (feature:
    Feature)
    ensures
        feature.coordinate == coordinate,
        feature.properties == properties,
{
    Feature { coordinate, properties }
}

/// The feature of a photo whose metadata has been decoded.
pub fn extract_feature(source: &Source, record: &MetadataRecord, selectors: &[Property]) -> (out:
    Result<Feature, Error>)
    ensures
        match feature_of_record(source@, record@, selectors@) {
            Ok(feature) => out matches Ok(f) && f.wf() && f@ == feature,
            Err(error) => out matches Err(e) && e@ == error,
        },
{
    let coordinate = match get_coordinate(record) {
        Ok(coordinate) => coordinate,
        Err(error) => {
            return Err(error);
        },
    };
    let properties = match get_properties(source, record, selectors) {
        Ok(properties) => properties,
        Err(error) => {
            return Err(error);
        },
    };
    Ok(build(coordinate, properties))
}

/// The feature of a photo: decodes its metadata, reads its coordinate, then its properties.
/// Whatever fails on the way is the photo's error.
pub fn get_feature(source: &Source, selectors: &[Property]) -> (out: Result<Feature, Error>)
    ensures
        match feature_of(source@, selectors@) {
            Ok(feature) => out matches Ok(f) && f.wf() && f@ == feature,
            Err(error) => out matches Err(e) && e@ == error,
        },
{
    let bytes = match &source.contents {
        Ok(bytes) => bytes,
        Err(reason) => {
            return Err(Error::Access(reason.clone()));
        },
    };
    let record = match open(bytes.as_slice()) {
        Ok(record) => record,
        Err(error) => {
            return Err(error);
        },
    };
    extract_feature(source, &record, selectors)
}

} // verus!
