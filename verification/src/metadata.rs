//! The metadata record of a photo: twelve capture attributes read from the
//! EXIF block of the file, each one optional, and the size of the file.
//!
//! Decoding the EXIF block and rendering a value as text are the work of the
//! `exif` crate. This module picks the attributes, gives each its form and
//! assembles the record. Content that holds no readable EXIF block gives a
//! record that is empty but for the file size.

use vstd::prelude::*;
use vstd::string::*;
use crate::file_size::{file_size_text, format_file_size};
use crate::text::{text_of, trim_matching_quotes, trim_quotes};

verus! {

/// `exif::Exif`, a decoded EXIF block. It is carried from the decoder to
/// the lookup of its fields; nothing inside it is looked at here.
#[verifier::external_type_specification]
#[verifier::external_body]
pub struct ExExif(exif::Exif);

/// `exif::Error`, the decoder's account of why it gave up. Which error it
/// is makes no difference to a record.
#[verifier::external_type_specification]
#[verifier::external_body]
pub struct ExExifError(exif::Error);

/// The directory of an EXIF block in which a tag number is to be read.
#[derive(Clone, Copy, Debug, PartialEq, Eq, Structural)]
pub enum TagContext {
    /// Attributes of the TIFF standard, held in the top-level directory.
    Tiff,
    /// Attributes of the Exif standard, held in the Exif sub-directory.
    Exif,
}

/// The attributes that a record holds.
#[derive(Clone, Copy, Debug, PartialEq, Eq, Structural)]
pub enum ExifField {
    CameraMake,
    CameraModel,
    Lens,
    FocalLength,
    Aperture,
    ShutterSpeed,
    Iso,
    DateTaken,
    ExposureCompensation,
    Flash,
    WhiteBalance,
    MeteringMode,
}

/// What is known of one photo. A field is `None` where the file does not
/// say; `file_size` is `None` only where the size could not be had.
#[derive(Clone, Debug, PartialEq, Eq)]
pub struct ExifData {
    pub camera_make: Option<String>,
    pub camera_model: Option<String>,
    pub lens: Option<String>,
    pub focal_length: Option<String>,
    pub aperture: Option<String>,
    pub shutter_speed: Option<String>,
    pub iso: Option<String>,
    pub date_taken: Option<String>,
    pub exposure_compensation: Option<String>,
    pub flash: Option<String>,
    pub white_balance: Option<String>,
    pub metering_mode: Option<String>,
    pub file_size: Option<String>,
}

/// The display text of every field of the primary image in a decoded EXIF
/// block, keyed by directory and tag number.
pub uninterp spec fn exif_fields(exif: exif::Exif) -> Map<(TagContext, u16), Seq<char>>;

/// The fields that decoding `data` yields, or `None` where `data` is no
/// image container with a readable EXIF block.
pub uninterp spec fn decoded_exif(data: Seq<u8>) -> Option<Map<(TagContext, u16), Seq<char>>>;

/// The value a record holds for `field` when the EXIF block decodes to
/// `decoded`: the rendered display text where the tag is present.
pub open spec fn metadata_value(
    decoded: Option<Map<(TagContext, u16), Seq<char>>>,
    field: ExifField,
) -> Option<Seq<char>> {
    match decoded {
        Some(fields) => if fields.contains_key(field.tag_id()) {
            Some(field.render(fields[field.tag_id()]))
        } else {
            None
        },
        None => None,
    }
}

/// The text of the size field for a file whose length is `file_len`.
pub open spec fn size_value(file_len: Option<u64>) -> Option<Seq<char>> {
    match file_len {
        Some(n) => Some(file_size_text(n as nat)),
        None => None,
    }
}

/// Decodes the EXIF block of an image held in memory, by
/// `exif::Reader::read_from_container` on a cursor over `data`. The reader
/// consults nothing but the bytes, so the outcome is a function of `data`:
/// `decoded_exif` names it, an error standing for `None`.
#[verifier::external_body]
fn read_exif(data: &[u8]) -> (r: Result<exif::Exif, exif::Error>)
    ensures
        match r {
            Ok(block) => decoded_exif(data@) == Some(exif_fields(block)),
            Err(_) => decoded_exif(data@) is None,
        },
{
    exif::Reader::new().read_from_container(&mut std::io::Cursor::new(data))
}

/// Looks one tag up among the fields of the primary image, by
/// `exif::Exif::get_field`, and renders what is found by
/// `exif::Field::display_value`. The result is `Some` exactly where the block
/// holds the tag, and is then the text that `exif_fields` records for it.
#[verifier::external_body]
fn field_text(block: &exif::Exif, context: TagContext, number: u16) -> (r: Option<String>)
    ensures
        match r {
            Some(text) => exif_fields(*block).contains_key((context, number)) && exif_fields(
                *block,
            )[(context, number)] == text@,
            None => !exif_fields(*block).contains_key((context, number)),
        },
{
    let context = match context {
        TagContext::Tiff => exif::Context::Tiff,
        TagContext::Exif => exif::Context::Exif,
    };
    block.get_field(exif::Tag(context, number), exif::In::PRIMARY).map(
        |field| field.display_value().to_string(),
    )
}

impl ExifField {
    /// The directory and number of the tag that carries this attribute.
    pub open spec fn tag_id(self) -> (TagContext, u16) {
        match self {
            ExifField::CameraMake => (TagContext::Tiff, 0x010f),
            ExifField::CameraModel => (TagContext::Tiff, 0x0110),
            ExifField::Lens => (TagContext::Exif, 0xa434),
            ExifField::FocalLength => (TagContext::Exif, 0x920a),
            ExifField::Aperture => (TagContext::Exif, 0x829d),
            ExifField::ShutterSpeed => (TagContext::Exif, 0x829a),
            ExifField::Iso => (TagContext::Exif, 0x8827),
            ExifField::DateTaken => (TagContext::Exif, 0x9003),
            ExifField::ExposureCompensation => (TagContext::Exif, 0x9204),
            ExifField::Flash => (TagContext::Exif, 0x9209),
            ExifField::WhiteBalance => (TagContext::Exif, 0xa403),
            ExifField::MeteringMode => (TagContext::Exif, 0x9207),
        }
    }

    /// The form in which the display text `raw` of this attribute enters a
    /// record. Names and the date lose their enclosing quotation marks; the
    /// aperture, the exposure time, the sensitivity and the exposure bias get
    /// their customary prefix or unit; the rest passes unchanged.
    pub open spec fn render(self, raw: Seq<char>) -> Seq<char> {
        match self {
            ExifField::CameraMake => trim_quotes(raw),
            ExifField::CameraModel => trim_quotes(raw),
            ExifField::Lens => trim_quotes(raw),
            ExifField::DateTaken => trim_quotes(raw),
            ExifField::Aperture => seq!['f', '/'] + raw,
            ExifField::ShutterSpeed => raw + seq![' ', 's'],
            ExifField::Iso => seq!['I', 'S', 'O', ' '] + raw,
            ExifField::ExposureCompensation => raw + seq![' ', 'E', 'V'],
            ExifField::FocalLength => raw,
            ExifField::Flash => raw,
            ExifField::WhiteBalance => raw,
            ExifField::MeteringMode => raw,
        }
    }

    /// The tag that carries this attribute.
    pub fn tag(&self) -> (r: (TagContext, u16))
        ensures
            r == self.tag_id(),
    {
        match self {
            ExifField::CameraMake => (TagContext::Tiff, 0x010f),
            ExifField::CameraModel => (TagContext::Tiff, 0x0110),
            ExifField::Lens => (TagContext::Exif, 0xa434),
            ExifField::FocalLength => (TagContext::Exif, 0x920a),
            ExifField::Aperture => (TagContext::Exif, 0x829d),
            ExifField::ShutterSpeed => (TagContext::Exif, 0x829a),
            ExifField::Iso => (TagContext::Exif, 0x8827),
            ExifField::DateTaken => (TagContext::Exif, 0x9003),
            ExifField::ExposureCompensation => (TagContext::Exif, 0x9204),
            ExifField::Flash => (TagContext::Exif, 0x9209),
            ExifField::WhiteBalance => (TagContext::Exif, 0xa403),
            ExifField::MeteringMode => (TagContext::Exif, 0x9207),
        }
    }

    /// Puts the display text `raw` of this attribute into the form of a
    /// record.
    pub fn present(&self, raw: &str) -> (r: String)
        ensures
            r@ == self.render(raw@),
    {
        proof {
            reveal_strlit("f/");
            reveal_strlit(" s");
            reveal_strlit("ISO ");
            reveal_strlit(" EV");
        }
        match self {
            ExifField::CameraMake | ExifField::CameraModel | ExifField::Lens | ExifField::DateTaken => {
                trim_matching_quotes(raw)
            },
            ExifField::Aperture => {
                let mut text = String::from_str("f/");
                text.append(raw);
                text
            },
            ExifField::ShutterSpeed => {
                let mut text = String::from_str(raw);
                text.append(" s");
                text
            },
            ExifField::Iso => {
                let mut text = String::from_str("ISO ");
                text.append(raw);
                text
            },
            ExifField::ExposureCompensation => {
                let mut text = String::from_str(raw);
                text.append(" EV");
                text
            },
            ExifField::FocalLength | ExifField::Flash | ExifField::WhiteBalance | ExifField::MeteringMode => {
                String::from_str(raw)
            },
        }
    }
}

impl Default for ExifData {
    /// The record that knows nothing.
    fn default() -> (r: ExifData)
        ensures
            r.size() is None,
            forall|field: ExifField| r.value(field) is None,
    {
        ExifData {
            camera_make: None,
            camera_model: None,
            lens: None,
            focal_length: None,
            aperture: None,
            shutter_speed: None,
            iso: None,
            date_taken: None,
            exposure_compensation: None,
            flash: None,
            white_balance: None,
            metering_mode: None,
            file_size: None,
        }
    }
}

impl ExifData {
    /// The text held for `field`.
    pub open spec fn value(&self, field: ExifField) -> Option<Seq<char>> {
        match field {
            ExifField::CameraMake => text_of(self.camera_make),
            ExifField::CameraModel => text_of(self.camera_model),
            ExifField::Lens => text_of(self.lens),
            ExifField::FocalLength => text_of(self.focal_length),
            ExifField::Aperture => text_of(self.aperture),
            ExifField::ShutterSpeed => text_of(self.shutter_speed),
            ExifField::Iso => text_of(self.iso),
            ExifField::DateTaken => text_of(self.date_taken),
            ExifField::ExposureCompensation => text_of(self.exposure_compensation),
            ExifField::Flash => text_of(self.flash),
            ExifField::WhiteBalance => text_of(self.white_balance),
            ExifField::MeteringMode => text_of(self.metering_mode),
        }
    }

    /// The text held for the size of the file.
    pub open spec fn size(&self) -> Option<Seq<char>> {
        text_of(self.file_size)
    }

    /// The record with `field` set from the display text `raw` of its tag:
    /// to the rendered text where there is one, to nothing where the tag is
    /// absent. Every other field keeps its value.
    pub fn with_field(self, field: ExifField, raw: Option<String>) -> (r: ExifData)
        ensures
            r.size() == self.size(),
            r.value(field) == match raw {
                Some(text) => Some(field.render(text@)),
                None => None,
            },
            forall|other: ExifField| other != field ==> r.value(other) == self.value(other),
    {
        let text = match raw {
            Some(raw) => Some(field.present(raw.as_str())),
            None => None,
        };
        let mut record = self;
        match field {
            ExifField::CameraMake => record.camera_make = text,
            ExifField::CameraModel => record.camera_model = text,
            ExifField::Lens => record.lens = text,
            ExifField::FocalLength => record.focal_length = text,
            ExifField::Aperture => record.aperture = text,
            ExifField::ShutterSpeed => record.shutter_speed = text,
            ExifField::Iso => record.iso = text,
            ExifField::DateTaken => record.date_taken = text,
            ExifField::ExposureCompensation => record.exposure_compensation = text,
            ExifField::Flash => record.flash = text,
            ExifField::WhiteBalance => record.white_balance = text,
            ExifField::MeteringMode => record.metering_mode = text,
        }
        record
    }

    /// The record of a file of which only the length is known.
    pub fn sized(file_len: Option<u64>) -> (r: ExifData)
        ensures
            r.size() == size_value(file_len),
            forall|field: ExifField| r.value(field) is None,
    {
        let empty = ExifData::default();
        let file_size = match file_len {
            Some(n) => Some(format_file_size(n)),
            None => None,
        };
        let record = ExifData { file_size, ..empty };
        assert forall|field: ExifField| record.value(field) is None by {
            assert(empty.value(field) is None);
        }
        record
    }
}

/// Reads `field` from a decoded block into `record`.
fn read_field(record: ExifData, block: &exif::Exif, field: ExifField) -> (r: ExifData)
    ensures
        r.size() == record.size(),
        r.value(field) == metadata_value(Some(exif_fields(*block)), field),
        forall|other: ExifField| other != field ==> r.value(other) == record.value(other),
{
    let (context, number) = field.tag();
    record.with_field(field, field_text(block, context, number))
}

/// Builds the metadata record of a file from its length, where known, and
/// its content.
///
/// The size field is the formatted length, whatever the content holds. Where
/// the content decodes as an image with an EXIF block, each attribute whose
/// tag the block holds for the primary image is set to its rendered display
/// text, and each other attribute is absent. Where it does not decode, every
/// attribute is absent: malformed or missing EXIF data is no failure.
pub fn get_exif_data(file_len: Option<u64>, data: &[u8]) -> (r: ExifData)
    ensures
        r.size() == size_value(file_len),
        forall|field: ExifField| r.value(field) == metadata_value(decoded_exif(data@), field),
        decoded_exif(data@) is None ==> forall|field: ExifField| r.value(field) is None,
{
    let record = ExifData::sized(file_len);
    match read_exif(data) {
        Ok(block) => {
            let record = read_field(record, &block, ExifField::CameraMake);
            let record = read_field(record, &block, ExifField::CameraModel);
            let record = read_field(record, &block, ExifField::Lens);
            let record = read_field(record, &block, ExifField::FocalLength);
            let record = read_field(record, &block, ExifField::Aperture);
            let record = read_field(record, &block, ExifField::ShutterSpeed);
            let record = read_field(record, &block, ExifField::Iso);
            let record = read_field(record, &block, ExifField::ExposureCompensation);
            let record = read_field(record, &block, ExifField::DateTaken);
            let record = read_field(record, &block, ExifField::Flash);
            let record = read_field(record, &block, ExifField::WhiteBalance);
            let record = read_field(record, &block, ExifField::MeteringMode);
            record
        },
        Err(_) => record,
    }
}

} // verus!
