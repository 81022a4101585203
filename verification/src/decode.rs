use crate::angle::Rational;
use crate::error::{Error, ErrorView};
use crate::record::{FieldView, MetadataRecord, RawFieldValue};
use crate::tag::Tag;
use vstd::prelude::*;

verus! {

/// The metadata of one photo as the decoder holds it. Nothing is known of its inside; what
/// it holds is read through `decoded_field`.
#[verifier::external_type_specification]
#[verifier::external_body]
pub struct ExExif(exif::Exif);

/// What `exif::Reader::read_from_container` makes of the bytes of a file: the fields of the
/// primary image that it finds under the tags of this library, or the text of the error
/// that it reports.
pub uninterp spec fn container_fields(bytes: Seq<u8>) -> Result<Map<Tag, FieldView>, Seq<char>>;

/// The fields of the primary image that decoded metadata holds under the tags of this
/// library.
pub uninterp spec fn decoded_fields(decoded: exif::Exif) -> Map<Tag, FieldView>;

/// Calls `exif::Reader::read_from_container` on the bytes of a file, held in memory. The
/// contract claims only that the outcome depends on the bytes and on nothing else: it
/// names the fields of what was decoded, and the text of the error, after the bytes.
/// Nothing is claimed of the time and memory that the decoder takes, which grow with the
/// number of directory entries in the file.
#[verifier::external_body]
fn read_container(bytes: &[u8]) -> (outcome: Result<exif::Exif, String>)
    ensures
        match outcome {
            Ok(decoded) => container_fields(bytes@) == Ok::<Map<Tag, FieldView>, Seq<char>>(
                decoded_fields(decoded),
            ),
            Err(reason) => container_fields(bytes@) == Err::<Map<Tag, FieldView>, Seq<char>>(
                reason@,
            ),
        },
{
    let mut input = std::io::Cursor::new(bytes);
    exif::Reader::new().read_from_container(&mut input).map_err(|error| error.to_string())
}

/// Calls `exif::Exif::get_field` for the primary image. The contract claims that the call
/// finds a field exactly where the metadata holds one under the tag, and that the value
/// handed back is that field's: its rationals, its byte strings, or the mark of another
/// type.
#[verifier::external_body]
fn decoded_field(decoded: &exif::Exif, tag: Tag) -> (found: Option<RawFieldValue>)
    ensures
        match found {
            Some(value) => decoded_fields(*decoded).contains_key(tag) && decoded_fields(
                *decoded,
            )[tag] == value@,
            None => !decoded_fields(*decoded).contains_key(tag),
        },
{
    let key = match tag {
        Tag::GPSLatitude => exif::Tag::GPSLatitude,
        Tag::GPSLatitudeRef => exif::Tag::GPSLatitudeRef,
        Tag::GPSLongitude => exif::Tag::GPSLongitude,
        Tag::GPSLongitudeRef => exif::Tag::GPSLongitudeRef,
        Tag::DateTimeOriginal => exif::Tag::DateTimeOriginal,
    };
    decoded.get_field(key, exif::In::PRIMARY).map(|field| match field.value {
        exif::Value::Rational(ref v) => RawFieldValue::Rational(
            v.iter().map(|r| Rational { num: r.num, denom: r.denom }).collect(),
        ),
        exif::Value::Ascii(ref v) => RawFieldValue::Ascii(v.clone()),
        _ => RawFieldValue::Other,
    })
}

/// Copies the field `tag` into the record, where the decoded metadata holds one.
fn copy_field(decoded: &exif::Exif, record: &mut MetadataRecord, tag: Tag)
    ensures
        final(record)@ == if decoded_fields(*decoded).contains_key(tag) {
            old(record)@.insert(tag, decoded_fields(*decoded)[tag])
        } else {
            old(record)@
        },
{
    match decoded_field(decoded, tag) {
        Some(value) => record.insert(tag, value),
        None => {},
    }
}

/// Decodes the metadata of a photo from the bytes of its file.
///
/// The record holds the fields that the file has for its primary image. Bytes that are no
/// image file of a kind the decoder knows, or hold no metadata, give `Error::Decode` with
/// the decoder's own words.
pub fn open(bytes: &[u8]) -> (opened: Result<MetadataRecord, Error>)
    ensures
        match container_fields(bytes@) {
            Ok(fields) => opened matches Ok(record) && record@ == fields,
            Err(reason) => opened matches Err(error) && error@ == ErrorView::Decode(reason),
        },
{
    match read_container(bytes) {
        Err(reason) => Err(Error::Decode(reason)),
        Ok(decoded) => {
            let mut record = MetadataRecord::new();
            copy_field(&decoded, &mut record, Tag::GPSLatitude);
            copy_field(&decoded, &mut record, Tag::GPSLatitudeRef);
            copy_field(&decoded, &mut record, Tag::GPSLongitude);
            copy_field(&decoded, &mut record, Tag::GPSLongitudeRef);
            copy_field(&decoded, &mut record, Tag::DateTimeOriginal);
            assert(record@ =~= decoded_fields(decoded));
            Ok(record)
        },
    }
}

} // verus!
