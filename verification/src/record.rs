use crate::angle::Rational;
use crate::error::Error;
use crate::tag::Tag;
use vstd::prelude::*;

verus! {

/// What a metadata field holds.
#[derive(Clone, Debug, PartialEq, Eq)]
pub enum RawFieldValue {
    /// A list of unsigned rationals.
    Rational(Vec<Rational>),
    /// A list of byte strings that are meant to be text.
    Ascii(Vec<Vec<u8>>),
    /// Anything else; this library reads no such field.
    Other,
}

/// What a metadata field holds, as sequences.
pub enum FieldView {
    Rational(Seq<Rational>),
    Ascii(Seq<Seq<u8>>),
    Other,
}

impl View for RawFieldValue {
    type V = FieldView;

    open spec fn view(&self) -> FieldView {
        match self {
            RawFieldValue::Rational(numbers) => FieldView::Rational(numbers@),
            RawFieldValue::Ascii(strings) => FieldView::Ascii(
                Seq::new(strings@.len(), |i: int| strings@[i]@),
            ),
            RawFieldValue::Other => FieldView::Other,
        }
    }
}

/// The fields of one photo, by tag. A record is read, never changed, while a photo is
/// processed.
#[derive(Clone, Debug, PartialEq, Eq)]
pub struct MetadataRecord {
    latitude: Option<RawFieldValue>,
    latitude_ref: Option<RawFieldValue>,
    longitude: Option<RawFieldValue>,
    longitude_ref: Option<RawFieldValue>,
    date_time_original: Option<RawFieldValue>,
}

impl MetadataRecord {
    closed spec fn slot(&self, tag: Tag) -> Option<RawFieldValue> {
        match tag {
            Tag::GPSLatitude => self.latitude,
            Tag::GPSLatitudeRef => self.latitude_ref,
            Tag::GPSLongitude => self.longitude,
            Tag::GPSLongitudeRef => self.longitude_ref,
            Tag::DateTimeOriginal => self.date_time_original,
        }
    }

    /// A record without fields.
    pub fn new() -> (record: MetadataRecord)
        ensures
            record@ == Map::<Tag, FieldView>::empty(),
    {
        let record = MetadataRecord {
            latitude: None,
            latitude_ref: None,
            longitude: None,
            longitude_ref: None,
            date_time_original: None,
        };
        assert(record@ =~= Map::<Tag, FieldView>::empty());
        record
    }

    /// Sets the field `tag` to `value`, in place of what the record held for that tag.
    pub fn insert(&mut self, tag: Tag, value: RawFieldValue)
        ensures
            final(self)@ == old(self)@.insert(tag, value@),
    {
        match tag {
            Tag::GPSLatitude => {
                self.latitude = Some(value);
            },
            Tag::GPSLatitudeRef => {
                self.latitude_ref = Some(value);
            },
            Tag::GPSLongitude => {
                self.longitude = Some(value);
            },
            Tag::GPSLongitudeRef => {
                self.longitude_ref = Some(value);
            },
            Tag::DateTimeOriginal => {
                self.date_time_original = Some(value);
            },
        }
        assert(self@ =~= old(self)@.insert(tag, value@));
    }

    /// The field `tag`, or the error that says it is missing.
    pub fn field(&self, tag: Tag) -> (found: Result<&RawFieldValue, Error>)
        ensures
            match found {
                Ok(value) => self@.contains_key(tag) && self@[tag] == value@,
                Err(error) => !self@.contains_key(tag) && error == Error::FieldMissing(tag),
            },
    {
        let slot = match tag {
            Tag::GPSLatitude => &self.latitude,
            Tag::GPSLatitudeRef => &self.latitude_ref,
            Tag::GPSLongitude => &self.longitude,
            Tag::GPSLongitudeRef => &self.longitude_ref,
            Tag::DateTimeOriginal => &self.date_time_original,
        };
        match slot {
            Some(value) => Ok(value),
            None => Err(Error::FieldMissing(tag)),
        }
    }
}

impl View for MetadataRecord {
    type V = Map<Tag, FieldView>;

    closed spec fn view(&self) -> Map<Tag, FieldView> {
        Map::new(|tag: Tag| self.slot(tag) is Some, |tag: Tag| self.slot(tag)->Some_0@)
    }
}

} // verus!
