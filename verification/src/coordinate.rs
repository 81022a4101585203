use crate::angle::{dms_degrees, Angle, AngleView, Magnitude};
use crate::error::{Error, Flaw};
use crate::record::{FieldView, MetadataRecord, RawFieldValue};
use crate::tag::Tag;
use crate::text::{ends_with, text_ends_with, text_of};
use vstd::prelude::*;
use vstd::utf8::*;

verus! {

/// A position on the globe: latitude and longitude in decimal degrees.
#[derive(Clone, Copy, Debug)]
pub struct Coordinate {
    pub latitude: Angle,
    pub longitude: Angle,
}

/// A position on the globe over real numbers.
pub struct CoordinateView {
    pub latitude: AngleView,
    pub longitude: AngleView,
}

impl View for Coordinate {
    type V = CoordinateView;

    open spec fn view(&self) -> CoordinateView {
        CoordinateView { latitude: self.latitude@, longitude: self.longitude@ }
    }
}

impl CoordinateView {
    /// The latitude lies between -90 and 90 degrees, the longitude between -180 and 180.
    pub open spec fn in_range(self) -> bool {
        &&& 0real <= self.latitude.magnitude <= 90real
        &&& 0real <= self.longitude.magnitude <= 180real
    }
}

impl Coordinate {
    /// A coordinate is well formed when both angles are and it lies on the globe.
    pub open spec fn wf(self) -> bool {
        &&& self.latitude.wf()
        &&& self.longitude.wf()
        &&& self@.in_range()
    }
}

/// The magnitude that the sexagesimal field `tag` of a record stands for, or the error that
/// says why it stands for none.
pub open spec fn degrees_of(record: Map<Tag, FieldView>, tag: Tag) -> Result<real, Error> {
    if !record.contains_key(tag) {
        Err(Error::FieldMissing(tag))
    } else {
        match record[tag] {
            FieldView::Rational(numbers) => if numbers.len() != 3 {
                Err(Error::InvalidField(tag, Flaw::WrongCount))
            } else if numbers[0].denom == 0 || numbers[1].denom == 0 || numbers[2].denom == 0 {
                Err(Error::InvalidField(tag, Flaw::ZeroDenominator))
            } else {
                Ok(dms_degrees(numbers[0].value(), numbers[1].value(), numbers[2].value()))
            },
            _ => Err(Error::InvalidField(tag, Flaw::WrongType)),
        }
    }
}

/// The text that the field `tag` of a record holds, or the error that says why it holds
/// none. Of a field with several strings the first one counts.
pub open spec fn string_of(record: Map<Tag, FieldView>, tag: Tag) -> Result<Seq<char>, Error> {
    if !record.contains_key(tag) {
        Err(Error::FieldMissing(tag))
    } else {
        match record[tag] {
            FieldView::Ascii(strings) => if strings.len() == 0 {
                Err(Error::InvalidField(tag, Flaw::NoText))
            } else if !valid_utf8(strings[0]) {
                Err(Error::TextEncoding)
            } else {
                Ok(decode_utf8(strings[0]))
            },
            _ => Err(Error::InvalidField(tag, Flaw::NotText)),
        }
    }
}

/// The sign that the reference field `reference` gives an axis: -1 where its text ends
/// with `negative_letter`, else 1.
pub open spec fn sign_of(record: Map<Tag, FieldView>, reference: Tag, negative_letter: char)
    -> Result<int, Error> {
    match string_of(record, reference) {
        Ok(text) => Ok(
            if ends_with(text, negative_letter) {
                -1int
            } else {
                1int
            },
        ),
        Err(error) => Err(error),
    }
}

/// The signed angle of one axis: the magnitude of the field `value`, with the sign that the
/// field `reference` gives it. A magnitude above `bound` is no angle of that axis.
pub open spec fn axis_of(
    record: Map<Tag, FieldView>,
    value: Tag,
    reference: Tag,
    negative_letter: char,
    bound: int,
) -> Result<AngleView, Error> {
    match degrees_of(record, value) {
        Err(error) => Err(error),
        Ok(magnitude) => match sign_of(record, reference, negative_letter) {
            Err(error) => Err(error),
            Ok(sign) => if magnitude > bound as real {
                Err(Error::InvalidField(value, Flaw::OutOfRange))
            } else {
                Ok(AngleView { negative: sign == -1, magnitude })
            },
        },
    }
}

/// The latitude of a record: negative in the southern hemisphere.
pub open spec fn latitude_of(record: Map<Tag, FieldView>) -> Result<AngleView, Error> {
    axis_of(record, Tag::GPSLatitude, Tag::GPSLatitudeRef, 'S', 90)
}

/// The longitude of a record: negative in the western hemisphere.
pub open spec fn longitude_of(record: Map<Tag, FieldView>) -> Result<AngleView, Error> {
    axis_of(record, Tag::GPSLongitude, Tag::GPSLongitudeRef, 'W', 180)
}

/// The coordinate of a record: all of it or nothing, the latitude read first.
pub open spec fn coordinate_of(record: Map<Tag, FieldView>) -> Result<CoordinateView, Error> {
    match latitude_of(record) {
        Err(error) => Err(error),
        Ok(latitude) => match longitude_of(record) {
            Err(error) => Err(error),
            Ok(longitude) => Ok(CoordinateView { latitude, longitude }),
        },
    }
}

/// The hemisphere of the latitude: a reference text that ends in "S" negates the magnitude;
/// any other text, one that ends in "N" among them, leaves it as it is.
pub proof fn lemma_latitude_hemisphere(record: Map<Tag, FieldView>)
    requires
        latitude_of(record) is Ok,
    ensures
        degrees_of(record, Tag::GPSLatitude) is Ok,
        string_of(record, Tag::GPSLatitudeRef) is Ok,
        ends_with(string_of(record, Tag::GPSLatitudeRef)->Ok_0, 'S') ==> latitude_of(
            record,
        )->Ok_0.value() == -degrees_of(record, Tag::GPSLatitude)->Ok_0,
        ends_with(string_of(record, Tag::GPSLatitudeRef)->Ok_0, 'N') ==> latitude_of(
            record,
        )->Ok_0.value() == degrees_of(record, Tag::GPSLatitude)->Ok_0,
        !ends_with(string_of(record, Tag::GPSLatitudeRef)->Ok_0, 'S') ==> latitude_of(
            record,
        )->Ok_0.value() == degrees_of(record, Tag::GPSLatitude)->Ok_0,
{
}

/// The hemisphere of the longitude: a reference text that ends in "W" negates the
/// magnitude; any other text, one that ends in "E" among them, leaves it as it is.
pub proof fn lemma_longitude_hemisphere(record: Map<Tag, FieldView>)
    requires
        longitude_of(record) is Ok,
    ensures
        degrees_of(record, Tag::GPSLongitude) is Ok,
        string_of(record, Tag::GPSLongitudeRef) is Ok,
        ends_with(string_of(record, Tag::GPSLongitudeRef)->Ok_0, 'W') ==> longitude_of(
            record,
        )->Ok_0.value() == -degrees_of(record, Tag::GPSLongitude)->Ok_0,
        ends_with(string_of(record, Tag::GPSLongitudeRef)->Ok_0, 'E') ==> longitude_of(
            record,
        )->Ok_0.value() == degrees_of(record, Tag::GPSLongitude)->Ok_0,
        !ends_with(string_of(record, Tag::GPSLongitudeRef)->Ok_0, 'W') ==> longitude_of(
            record,
        )->Ok_0.value() == degrees_of(record, Tag::GPSLongitude)->Ok_0,
{
}

/// A coordinate that is read lies on the globe.
pub proof fn lemma_coordinate_in_range(record: Map<Tag, FieldView>)
    requires
        coordinate_of(record) is Ok,
    ensures
        -90real <= coordinate_of(record)->Ok_0.latitude.value() <= 90real,
        -180real <= coordinate_of(record)->Ok_0.longitude.value() <= 180real,
{
    lemma_degrees_not_negative(record, Tag::GPSLatitude);
    lemma_degrees_not_negative(record, Tag::GPSLongitude);
}

/// The magnitude of a sexagesimal field is not negative.
pub proof fn lemma_degrees_not_negative(record: Map<Tag, FieldView>, tag: Tag)
    requires
        degrees_of(record, tag) is Ok,
    ensures
        degrees_of(record, tag)->Ok_0 >= 0real,
{
    let numbers = record[tag]->Rational_0;
    crate::angle::lemma_rational_not_negative(numbers[0]);
    crate::angle::lemma_rational_not_negative(numbers[1]);
    crate::angle::lemma_rational_not_negative(numbers[2]);
}

/// Reads the field `tag` as degrees, minutes and seconds and gives the exact value of
/// `degrees + minutes / 60 + seconds / 3600`.
pub fn get_degrees(record: &MetadataRecord, tag: Tag) -> (out: Result<Magnitude, Error>)
    ensures
        match degrees_of(record@, tag) {
            Ok(value) => out matches Ok(magnitude) && magnitude.wf() && magnitude.value() == value,
            Err(error) => out matches Err(e) && e == error,
        },
{
    let field = match record.field(tag) {
        Ok(field) => field,
        Err(error) => {
            return Err(error);
        },
    };
    match field {
        RawFieldValue::Rational(dms) => {
            if dms.len() != 3 {
                return Err(Error::InvalidField(tag, Flaw::WrongCount));
            }
            match Magnitude::from_dms(dms[0], dms[1], dms[2]) {
                Some(magnitude) => Ok(magnitude),
                None => Err(Error::InvalidField(tag, Flaw::ZeroDenominator)),
            }
        },
        _ => Err(Error::InvalidField(tag, Flaw::WrongType)),
    }
}

/// Reads the field `tag` as text: the first of its strings.
pub fn get_string(record: &MetadataRecord, tag: Tag) -> (out: Result<&str, Error>)
    ensures
        match string_of(record@, tag) {
            Ok(text) => out matches Ok(s) && s@ == text,
            Err(error) => out matches Err(e) && e == error,
        },
{
    let field = match record.field(tag) {
        Ok(field) => field,
        Err(error) => {
            return Err(error);
        },
    };
    match field {
        RawFieldValue::Ascii(strings) => {
            if strings.len() == 0 {
                return Err(Error::InvalidField(tag, Flaw::NoText));
            }
            match text_of(strings[0].as_slice()) {
                Some(text) => Ok(text),
                None => Err(Error::TextEncoding),
            }
        },
        _ => Err(Error::InvalidField(tag, Flaw::NotText)),
    }
}

/// The sign of an axis: -1 where the text of the field `reference` ends with
/// `negative_letter`, else 1. Only the end of the text counts, so padding before the letter
/// does no harm.
pub fn hemisphere_sign(record: &MetadataRecord, reference: Tag, negative_letter: char) -> (out:
    Result<i8, Error>)
    ensures
        match sign_of(record@, reference, negative_letter) {
            Ok(sign) => out matches Ok(s) && s == sign,
            Err(error) => out matches Err(e) && e == error,
        },
{
    match get_string(record, reference) {
        Ok(text) => Ok(
            if text_ends_with(text, negative_letter) {
                -1
            } else {
                1
            },
        ),
        Err(error) => Err(error),
    }
}

/// The signed angle of one axis, or the first error met: that of the magnitude, that of the
/// reference, or that of a magnitude above `bound`.
pub fn get_axis(
    record: &MetadataRecord,
    value: Tag,
    reference: Tag,
    negative_letter: char,
    bound: u32,
) -> (out: Result<Angle, Error>)
    ensures
        match axis_of(record@, value, reference, negative_letter, bound as int) {
            Ok(angle) => out matches Ok(a) && a.wf() && a@ == angle,
            Err(error) => out matches Err(e) && e == error,
        },
{
    let magnitude = match get_degrees(record, value) {
        Ok(magnitude) => magnitude,
        Err(error) => {
            return Err(error);
        },
    };
    let sign = match hemisphere_sign(record, reference, negative_letter) {
        Ok(sign) => sign,
        Err(error) => {
            return Err(error);
        },
    };
    if !magnitude.at_most(bound) {
        return Err(Error::InvalidField(value, Flaw::OutOfRange));
    }
    Ok(Angle { negative: sign == -1, magnitude })
}

/// The latitude of a photo, negative in the southern hemisphere.
pub fn get_latitude(record: &MetadataRecord) -> (out: Result<Angle, Error>)
    ensures
        match latitude_of(record@) {
            Ok(angle) => out matches Ok(a) && a.wf() && a@ == angle,
            Err(error) => out matches Err(e) && e == error,
        },
{
    get_axis(record, Tag::GPSLatitude, Tag::GPSLatitudeRef, 'S', 90)
}

/// The longitude of a photo, negative in the western hemisphere.
pub fn get_longitude(record: &MetadataRecord) -> (out: Result<Angle, Error>)
    ensures
        match longitude_of(record@) {
            Ok(angle) => out matches Ok(a) && a.wf() && a@ == angle,
            Err(error) => out matches Err(e) && e == error,
        },
{
    get_axis(record, Tag::GPSLongitude, Tag::GPSLongitudeRef, 'W', 180)
}

/// The coordinate of a photo: both angles, or the first error met.
pub fn get_coordinate(record: &MetadataRecord) -> (out: Result<Coordinate, Error>)
    ensures
        match coordinate_of(record@) {
            Ok(coordinate) => out matches Ok(c) && c.wf() && c@ == coordinate,
            Err(error) => out matches Err(e) && e == error,
        },
{
    let latitude = match get_latitude(record) {
        Ok(latitude) => latitude,
        Err(error) => {
            return Err(error);
        },
    };
    let longitude = match get_longitude(record) {
        Ok(longitude) => longitude,
        Err(error) => {
            return Err(error);
        },
    };
    proof {
        crate::angle::lemma_magnitude_not_negative(latitude.magnitude);
        crate::angle::lemma_magnitude_not_negative(longitude.magnitude);
    }
    Ok(Coordinate { latitude, longitude })
}

} // verus!
