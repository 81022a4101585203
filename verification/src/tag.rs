use vstd::prelude::*;

verus! {

/// The metadata fields that are read from a photo.
#[derive(Clone, Copy, Debug, PartialEq, Eq, Structural)]
pub enum Tag {
    /// Magnitude of the latitude: degrees, minutes, seconds.
    GPSLatitude,
    /// Hemisphere of the latitude: north or south.
    GPSLatitudeRef,
    /// Magnitude of the longitude: degrees, minutes, seconds.
    GPSLongitude,
    /// Hemisphere of the longitude: east or west.
    GPSLongitudeRef,
    /// The moment the photo was taken.
    DateTimeOriginal,
}

impl Tag {
    /// The name under which the field is reported.
    pub open spec fn name_text(self) -> Seq<char> {
        match self {
            Tag::GPSLatitude => "GPSLatitude"@,
            Tag::GPSLatitudeRef => "GPSLatitudeRef"@,
            Tag::GPSLongitude => "GPSLongitude"@,
            Tag::GPSLongitudeRef => "GPSLongitudeRef"@,
            Tag::DateTimeOriginal => "DateTimeOriginal"@,
        }
    }

    /// The name under which the field is reported.
    pub fn name(self) -> (text: &'static str)
        ensures
            text@ == self.name_text(),
    {
        match self {
            Tag::GPSLatitude => "GPSLatitude",
            Tag::GPSLatitudeRef => "GPSLatitudeRef",
            Tag::GPSLongitude => "GPSLongitude",
            Tag::GPSLongitudeRef => "GPSLongitudeRef",
            Tag::DateTimeOriginal => "DateTimeOriginal",
        }
    }
}

} // verus!
