use plag::{
    get_coordinate, get_degrees, get_latitude, get_longitude, get_string, hemisphere_sign, Angle,
    Error, Flaw, MetadataRecord, RawFieldValue, Rational, Tag,
};

fn dms(d: u32, m: u32, s: u32) -> RawFieldValue {
    RawFieldValue::Rational(vec![
        Rational { num: d, denom: 1 },
        Rational { num: m, denom: 1 },
        Rational { num: s, denom: 1 },
    ])
}

fn text(s: &str) -> RawFieldValue {
    RawFieldValue::Ascii(vec![s.as_bytes().to_vec()])
}

fn record(lat: (u32, u32, u32), lat_ref: &str, lon: (u32, u32, u32), lon_ref: &str) -> MetadataRecord {
    let mut r = MetadataRecord::new();
    r.insert(Tag::GPSLatitude, dms(lat.0, lat.1, lat.2));
    r.insert(Tag::GPSLatitudeRef, text(lat_ref));
    r.insert(Tag::GPSLongitude, dms(lon.0, lon.1, lon.2));
    r.insert(Tag::GPSLongitudeRef, text(lon_ref));
    r
}

fn degrees(angle: &Angle) -> f64 {
    let size = angle.magnitude.numerator as f64 / angle.magnitude.denominator as f64;
    if angle.negative {
        -size
    } else {
        size
    }
}

#[test]
fn degrees_of_three_rationals() {
    let r = record((40, 26, 46), "N", (79, 56, 55), "W");
    let m = get_degrees(&r, Tag::GPSLatitude).unwrap();
    assert_eq!(m.numerator * 3600, 145606 * m.denominator);
    let m = get_degrees(&r, Tag::GPSLongitude).unwrap();
    assert_eq!(m.numerator * 3600, 287815 * m.denominator);
}

#[test]
fn degrees_of_a_missing_field() {
    let r = MetadataRecord::new();
    assert_eq!(get_degrees(&r, Tag::GPSLatitude).unwrap_err(), Error::FieldMissing(Tag::GPSLatitude));
    assert_eq!(
        get_degrees(&r, Tag::GPSLongitude).unwrap_err(),
        Error::FieldMissing(Tag::GPSLongitude)
    );
}

#[test]
fn two_rationals_are_an_invalid_field() {
    let mut r = MetadataRecord::new();
    r.insert(
        Tag::GPSLatitude,
        RawFieldValue::Rational(vec![Rational { num: 40, denom: 1 }, Rational { num: 26, denom: 1 }]),
    );
    assert_eq!(
        get_degrees(&r, Tag::GPSLatitude).unwrap_err(),
        Error::InvalidField(Tag::GPSLatitude, Flaw::WrongCount)
    );
    assert_eq!(
        get_latitude(&r).unwrap_err(),
        Error::InvalidField(Tag::GPSLatitude, Flaw::WrongCount)
    );
    assert_eq!(
        get_coordinate(&r).unwrap_err(),
        Error::InvalidField(Tag::GPSLatitude, Flaw::WrongCount)
    );
}

#[test]
fn no_rationals_and_four_rationals_are_invalid_fields() {
    let one = Rational { num: 1, denom: 1 };
    let mut r = MetadataRecord::new();
    r.insert(Tag::GPSLongitude, RawFieldValue::Rational(vec![]));
    assert_eq!(
        get_degrees(&r, Tag::GPSLongitude).unwrap_err(),
        Error::InvalidField(Tag::GPSLongitude, Flaw::WrongCount)
    );
    r.insert(Tag::GPSLongitude, RawFieldValue::Rational(vec![one, one, one, one]));
    assert_eq!(
        get_degrees(&r, Tag::GPSLongitude).unwrap_err(),
        Error::InvalidField(Tag::GPSLongitude, Flaw::WrongCount)
    );
}

#[test]
fn degrees_of_a_field_of_another_type() {
    let mut r = MetadataRecord::new();
    r.insert(Tag::GPSLatitude, text("40"));
    assert_eq!(
        get_degrees(&r, Tag::GPSLatitude).unwrap_err(),
        Error::InvalidField(Tag::GPSLatitude, Flaw::WrongType)
    );
    r.insert(Tag::GPSLatitude, RawFieldValue::Other);
    assert_eq!(
        get_degrees(&r, Tag::GPSLatitude).unwrap_err(),
        Error::InvalidField(Tag::GPSLatitude, Flaw::WrongType)
    );
}

#[test]
fn degrees_with_a_zero_denominator() {
    let mut r = MetadataRecord::new();
    r.insert(
        Tag::GPSLatitude,
        RawFieldValue::Rational(vec![
            Rational { num: 40, denom: 1 },
            Rational { num: 26, denom: 0 },
            Rational { num: 46, denom: 1 },
        ]),
    );
    assert_eq!(
        get_degrees(&r, Tag::GPSLatitude).unwrap_err(),
        Error::InvalidField(Tag::GPSLatitude, Flaw::ZeroDenominator)
    );
}

#[test]
fn string_of_a_text_field() {
    let mut r = MetadataRecord::new();
    r.insert(Tag::DateTimeOriginal, text("2018:07:14 10:30:00"));
    assert_eq!(get_string(&r, Tag::DateTimeOriginal).unwrap(), "2018:07:14 10:30:00");
}

#[test]
fn string_of_a_field_with_several_strings_is_the_first() {
    let mut r = MetadataRecord::new();
    r.insert(
        Tag::DateTimeOriginal,
        RawFieldValue::Ascii(vec![b"first".to_vec(), b"second".to_vec()]),
    );
    assert_eq!(get_string(&r, Tag::DateTimeOriginal).unwrap(), "first");
}

#[test]
fn string_of_an_empty_text() {
    let mut r = MetadataRecord::new();
    r.insert(Tag::DateTimeOriginal, text(""));
    assert_eq!(get_string(&r, Tag::DateTimeOriginal).unwrap(), "");
}

#[test]
fn string_beyond_ascii() {
    let mut r = MetadataRecord::new();
    r.insert(Tag::DateTimeOriginal, text("späť ☀"));
    assert_eq!(get_string(&r, Tag::DateTimeOriginal).unwrap(), "späť ☀");
}

#[test]
fn string_of_a_missing_field() {
    let r = MetadataRecord::new();
    assert_eq!(
        get_string(&r, Tag::DateTimeOriginal).unwrap_err(),
        Error::FieldMissing(Tag::DateTimeOriginal)
    );
}

#[test]
fn string_of_a_field_without_strings() {
    let mut r = MetadataRecord::new();
    r.insert(Tag::GPSLatitudeRef, RawFieldValue::Ascii(vec![]));
    assert_eq!(
        get_string(&r, Tag::GPSLatitudeRef).unwrap_err(),
        Error::InvalidField(Tag::GPSLatitudeRef, Flaw::NoText)
    );
}

#[test]
fn string_of_a_field_of_another_type() {
    let mut r = MetadataRecord::new();
    r.insert(Tag::GPSLatitudeRef, dms(1, 2, 3));
    assert_eq!(
        get_string(&r, Tag::GPSLatitudeRef).unwrap_err(),
        Error::InvalidField(Tag::GPSLatitudeRef, Flaw::NotText)
    );
    r.insert(Tag::GPSLatitudeRef, RawFieldValue::Other);
    assert_eq!(
        get_string(&r, Tag::GPSLatitudeRef).unwrap_err(),
        Error::InvalidField(Tag::GPSLatitudeRef, Flaw::NotText)
    );
}

#[test]
fn string_that_is_not_utf8() {
    let mut r = MetadataRecord::new();
    r.insert(Tag::GPSLatitudeRef, RawFieldValue::Ascii(vec![vec![0x53, 0xff]]));
    assert_eq!(get_string(&r, Tag::GPSLatitudeRef).unwrap_err(), Error::TextEncoding);
    r.insert(Tag::GPSLatitudeRef, RawFieldValue::Ascii(vec![vec![0xbe]]));
    assert_eq!(get_latitude(&r).unwrap_err(), Error::FieldMissing(Tag::GPSLatitude));
    r.insert(Tag::GPSLatitude, dms(1, 2, 3));
    assert_eq!(get_latitude(&r).unwrap_err(), Error::TextEncoding);
}

#[test]
fn hemisphere_signs() {
    let r = record((1, 2, 3), "N", (4, 5, 6), "E");
    assert_eq!(hemisphere_sign(&r, Tag::GPSLatitudeRef, 'S').unwrap(), 1);
    assert_eq!(hemisphere_sign(&r, Tag::GPSLongitudeRef, 'W').unwrap(), 1);
    let r = record((1, 2, 3), "S", (4, 5, 6), "W");
    assert_eq!(hemisphere_sign(&r, Tag::GPSLatitudeRef, 'S').unwrap(), -1);
    assert_eq!(hemisphere_sign(&r, Tag::GPSLongitudeRef, 'W').unwrap(), -1);
}

#[test]
fn hemisphere_sign_looks_at_the_end_of_the_text() {
    let r = record((1, 2, 3), "  S", (4, 5, 6), "W ");
    assert_eq!(hemisphere_sign(&r, Tag::GPSLatitudeRef, 'S').unwrap(), -1);
    assert_eq!(hemisphere_sign(&r, Tag::GPSLongitudeRef, 'W').unwrap(), 1);
    let r = record((1, 2, 3), "", (4, 5, 6), "w");
    assert_eq!(hemisphere_sign(&r, Tag::GPSLatitudeRef, 'S').unwrap(), 1);
    assert_eq!(hemisphere_sign(&r, Tag::GPSLongitudeRef, 'W').unwrap(), 1);
    let r = record((1, 2, 3), "NS", (4, 5, 6), "Sé");
    assert_eq!(hemisphere_sign(&r, Tag::GPSLatitudeRef, 'S').unwrap(), -1);
    assert_eq!(hemisphere_sign(&r, Tag::GPSLongitudeRef, 'S').unwrap(), 1);
}

#[test]
fn hemisphere_sign_of_a_field_that_is_no_text() {
    let mut r = MetadataRecord::new();
    assert_eq!(
        hemisphere_sign(&r, Tag::GPSLatitudeRef, 'S').unwrap_err(),
        Error::FieldMissing(Tag::GPSLatitudeRef)
    );
    r.insert(Tag::GPSLatitudeRef, dms(1, 2, 3));
    assert_eq!(
        hemisphere_sign(&r, Tag::GPSLatitudeRef, 'S').unwrap_err(),
        Error::InvalidField(Tag::GPSLatitudeRef, Flaw::NotText)
    );
}

#[test]
fn pittsburgh() {
    let r = record((40, 26, 46), "N", (79, 56, 55), "W");
    let c = get_coordinate(&r).unwrap();
    assert!(!c.latitude.negative);
    assert!(c.longitude.negative);
    assert!((degrees(&c.latitude) - (40.0 + 26.0 / 60.0 + 46.0 / 3600.0)).abs() < 1e-6);
    assert!((degrees(&c.longitude) + (79.0 + 56.0 / 60.0 + 55.0 / 3600.0)).abs() < 1e-6);
    assert!((degrees(&c.latitude) - 40.446111).abs() < 1e-6);
    assert!((degrees(&c.longitude) + 79.948611).abs() < 1e-6);
}

#[test]
fn southern_and_eastern_hemisphere() {
    let r = record((33, 51, 54), "S", (151, 12, 36), "E");
    let lat = get_latitude(&r).unwrap();
    let lon = get_longitude(&r).unwrap();
    assert!(lat.negative);
    assert!(!lon.negative);
    assert!((degrees(&lat) + 33.865).abs() < 1e-9);
    assert!((degrees(&lon) - 151.21).abs() < 1e-9);
}

#[test]
fn the_sign_leaves_the_magnitude_alone() {
    let north = get_latitude(&record((12, 34, 56), "N", (1, 1, 1), "E")).unwrap();
    let south = get_latitude(&record((12, 34, 56), "S", (1, 1, 1), "E")).unwrap();
    assert_eq!(north.magnitude.numerator, south.magnitude.numerator);
    assert_eq!(north.magnitude.denominator, south.magnitude.denominator);
    assert_eq!(degrees(&north), -degrees(&south));
}

#[test]
fn latitude_without_its_fields() {
    let mut r = MetadataRecord::new();
    assert_eq!(get_latitude(&r).unwrap_err(), Error::FieldMissing(Tag::GPSLatitude));
    r.insert(Tag::GPSLatitude, dms(1, 2, 3));
    assert_eq!(get_latitude(&r).unwrap_err(), Error::FieldMissing(Tag::GPSLatitudeRef));
    r.insert(Tag::GPSLatitudeRef, text("N"));
    assert!(get_latitude(&r).is_ok());
    assert_eq!(get_longitude(&r).unwrap_err(), Error::FieldMissing(Tag::GPSLongitude));
    assert_eq!(get_coordinate(&r).unwrap_err(), Error::FieldMissing(Tag::GPSLongitude));
    r.insert(Tag::GPSLongitude, dms(1, 2, 3));
    assert_eq!(get_coordinate(&r).unwrap_err(), Error::FieldMissing(Tag::GPSLongitudeRef));
    r.insert(Tag::GPSLongitudeRef, text("E"));
    assert!(get_coordinate(&r).is_ok());
}

#[test]
fn the_latitude_is_read_before_the_longitude() {
    let mut r = MetadataRecord::new();
    r.insert(Tag::GPSLongitude, RawFieldValue::Other);
    assert_eq!(get_coordinate(&r).unwrap_err(), Error::FieldMissing(Tag::GPSLatitude));
}

#[test]
fn angles_beyond_the_globe() {
    let r = record((90, 0, 1), "N", (0, 0, 0), "E");
    assert_eq!(
        get_latitude(&r).unwrap_err(),
        Error::InvalidField(Tag::GPSLatitude, Flaw::OutOfRange)
    );
    let r = record((90, 0, 0), "S", (180, 0, 0), "W");
    let c = get_coordinate(&r).unwrap();
    assert_eq!(degrees(&c.latitude), -90.0);
    assert_eq!(degrees(&c.longitude), -180.0);
    let r = record((90, 0, 0), "S", (180, 0, 1), "W");
    assert_eq!(
        get_coordinate(&r).unwrap_err(),
        Error::InvalidField(Tag::GPSLongitude, Flaw::OutOfRange)
    );
    let r = record((0, 0, 0), "N", (91, 0, 0), "E");
    assert!(get_coordinate(&r).is_ok());
}

#[test]
fn a_missing_reference_is_reported_before_the_range() {
    let mut r = MetadataRecord::new();
    r.insert(Tag::GPSLatitude, dms(200, 0, 0));
    assert_eq!(get_latitude(&r).unwrap_err(), Error::FieldMissing(Tag::GPSLatitudeRef));
}

#[test]
fn a_later_insert_replaces_the_field() {
    let mut r = MetadataRecord::new();
    r.insert(Tag::GPSLatitudeRef, text("N"));
    r.insert(Tag::GPSLatitudeRef, text("S"));
    assert_eq!(get_string(&r, Tag::GPSLatitudeRef).unwrap(), "S");
    assert_eq!(r.field(Tag::GPSLatitudeRef).unwrap(), &text("S"));
    assert_eq!(r.field(Tag::GPSLatitude).unwrap_err(), Error::FieldMissing(Tag::GPSLatitude));
}
