//! EXIF metadata: the orientation code of an image and its tags as text.
//!
//! The metadata is parsed by the `exif` crate. The parsed attributes and
//! their fields are opaque here; what the parser and the fields give is
//! named by functions of them.

use vstd::prelude::*;

verus! {

/// The parsed EXIF attributes of an image, as the `exif` crate holds
/// them.
#[verifier::external_type_specification]
#[verifier::external_body]
pub struct ExExif(exif::Exif);

/// One field of the attributes: a tag with its value.
#[verifier::external_type_specification]
#[verifier::external_body]
pub struct ExField(exif::Field);

/// The error of the `exif` crate's parser.
#[verifier::external_type_specification]
#[verifier::external_body]
pub struct ExExifError(exif::Error);

/// The orientation code of an image whose metadata gives none.
pub const DEFAULT_ORIENTATION: u16 = 1;

/// The EXIF attributes that a byte sequence holds, or the reason why none
/// could be read.
pub uninterp spec fn exif_of(data: Seq<u8>) -> Result<exif::Exif, exif::Error>;

/// The orientation field of the primary image, if the attributes hold one.
pub uninterp spec fn primary_orientation(attributes: exif::Exif) -> Option<exif::Field>;

/// The fields of the attributes, in the order in which they were read.
pub uninterp spec fn exif_fields(attributes: exif::Exif) -> Seq<exif::Field>;

/// The unsigned integers that a field holds, if its value is of an
/// unsigned integer type (BYTE, SHORT or LONG).
pub uninterp spec fn unsigned_values(field: exif::Field) -> Option<Seq<u32>>;

/// The name of the tag of a field.
pub uninterp spec fn tag_name(field: exif::Field) -> Seq<char>;

/// The value of a field as text, with its unit where the tag has one. The
/// unit may be given by another field of the attributes.
pub uninterp spec fn display_value(field: exif::Field, attributes: exif::Exif) -> Seq<char>;

/// The description of a parse error.
pub uninterp spec fn error_text(error: exif::Error) -> Seq<char>;

/// `exif::Reader::read_from_container`, with a reader made by
/// `Reader::new`, on the bytes in memory: finds the EXIF segment of a TIFF,
/// JPEG, HEIF, PNG or WebP file and parses it. The outcome depends on the
/// bytes alone.
#[verifier::external_body]
pub(crate) fn read_from_container(data: &[u8]) -> (r: Result<exif::Exif, exif::Error>)
    ensures
        r == exif_of(data@),
{
    exif::Reader::new().read_from_container(&mut std::io::Cursor::new(data))
}

/// `exif::Exif::get_field` for the tag `Orientation` in the primary image.
#[verifier::external_body]
pub(crate) fn get_orientation_field(attributes: &exif::Exif) -> (r: Option<&exif::Field>)
    ensures
        match r {
            Some(field) => primary_orientation(*attributes) == Some(*field),
            None => primary_orientation(*attributes) is None,
        },
{
    attributes.get_field(exif::Tag::Orientation, exif::In::PRIMARY)
}

/// `exif::Value::get_uint` on the value of a field: the unsigned integer at
/// a position, and nothing if the value is not of an unsigned integer type
/// or the position is out of bounds.
#[verifier::external_body]
pub(crate) fn get_uint(field: &exif::Field, index: usize) -> (r: Option<u32>)
    ensures
        r == match unsigned_values(*field) {
            Some(values) => if index < values.len() {
                Some(values[index as int])
            } else {
                None
            },
            None => None,
        },
{
    field.value.get_uint(index)
}

/// `exif::Exif::fields`: the fields, in the order in which they were read.
#[verifier::external_body]
pub(crate) fn fields(attributes: &exif::Exif) -> (r: Vec<&exif::Field>)
    ensures
        r@.len() == exif_fields(*attributes).len(),
        forall|i: int| 0 <= i < r@.len() ==> *(#[trigger] r@[i]) == exif_fields(*attributes)[i],
{
    attributes.fields().collect()
}

/// `to_string` of the tag of a field: the tag's name.
#[verifier::external_body]
pub(crate) fn tag_to_string(field: &exif::Field) -> (s: String)
    ensures
        s@ == tag_name(*field),
{
    field.tag.to_string()
}

/// `exif::Field::display_value`, `with_unit` and `to_string`: the value as
/// text, followed by its unit where the tag has one.
#[verifier::external_body]
pub(crate) fn display_with_unit(field: &exif::Field, attributes: &exif::Exif) -> (s: String)
    ensures
        s@ == display_value(*field, *attributes),
{
    field.display_value().with_unit(attributes).to_string()
}

/// `to_string` of an `exif::Error`: its description.
#[verifier::external_body]
pub(crate) fn error_to_string(error: &exif::Error) -> (s: String)
    ensures
        s@ == error_text(*error),
{
    error.to_string()
}

/// The unsigned integer at a position of a field, if there is one.
pub open spec fn uint_at(field: exif::Field, index: int) -> Option<u32> {
    match unsigned_values(field) {
        Some(values) => if 0 <= index < values.len() {
            Some(values[index])
        } else {
            None
        },
        None => None,
    }
}

/// The orientation code that a tag value stands for: the value cut down to
/// sixteen bits, and the default when there is no value.
pub open spec fn code_of(value: Option<u32>) -> u16 {
    match value {
        Some(v) => (v % 0x1_0000) as u16,
        None => DEFAULT_ORIENTATION,
    }
}

/// The orientation code of an image: that of the first value of the
/// orientation field of the primary image, and the default when the
/// metadata cannot be read, holds no such field, or the field holds no
/// unsigned integer.
pub open spec fn orientation_of(data: Seq<u8>) -> u16 {
    match exif_of(data) {
        Ok(attributes) => match primary_orientation(attributes) {
            Some(field) => code_of(uint_at(field, 0)),
            None => DEFAULT_ORIENTATION,
        },
        Err(_) => DEFAULT_ORIENTATION,
    }
}

/// The tag and value pairs of an image: one for each field, or a single
/// pair that reports why the metadata could not be read.
pub open spec fn tag_pairs_of(data: Seq<u8>) -> Seq<Seq<Seq<char>>> {
    match exif_of(data) {
        Ok(attributes) => Seq::new(
            exif_fields(attributes).len(),
            |i: int|
                seq![
                    tag_name(exif_fields(attributes)[i]),
                    display_value(exif_fields(attributes)[i], attributes),
                ],
        ),
        Err(error) => seq![seq!["Failed to read EXIF data"@, error_text(error)]],
    }
}

/// The orientation code is the default whenever the metadata cannot be
/// read, holds no orientation field for the primary image, or that field
/// holds no unsigned integer.
pub proof fn lemma_default_orientation(data: Seq<u8>)
    ensures
        exif_of(data) is Err ==> orientation_of(data) == DEFAULT_ORIENTATION,
        exif_of(data) matches Ok(attributes) && primary_orientation(attributes) is None
            ==> orientation_of(data) == DEFAULT_ORIENTATION,
        exif_of(data) matches Ok(attributes) && primary_orientation(attributes) matches Some(field)
            && (unsigned_values(field) is None || unsigned_values(field)->0.len() == 0)
            ==> orientation_of(data) == DEFAULT_ORIENTATION,
{
}

/// When the metadata cannot be read, the tag pairs are a single pair that
/// starts with the words `Failed to read EXIF data`.
pub proof fn lemma_failure_pair(data: Seq<u8>)
    requires
        exif_of(data) is Err,
    ensures
        tag_pairs_of(data).len() == 1,
        tag_pairs_of(data)[0].len() == 2,
        tag_pairs_of(data)[0][0] == "Failed to read EXIF data"@,
{
}

/// The orientation code for the value of the orientation tag.
pub fn orientation_code(value: Option<u32>) -> (code: u16)
    ensures
        code == code_of(value),
{
    match value {
        Some(v) => (v % 0x1_0000) as u16,
        None => DEFAULT_ORIENTATION,
    }
}

/// Reads the orientation code from the EXIF metadata of an image. Never
/// fails: the default stands for whatever cannot be read.
pub fn read_orientation(image_data: &[u8]) -> (code: u16)
    ensures
        code == orientation_of(image_data@),
{
    match read_from_container(image_data) {
        Ok(attributes) => match get_orientation_field(&attributes) {
            Some(field) => orientation_code(get_uint(field, 0)),
            None => DEFAULT_ORIENTATION,
        },
        Err(_) => DEFAULT_ORIENTATION,
    }
}

/// Reads every EXIF tag of an image as a pair of tag name and display
/// value. When the metadata cannot be read the result is one pair, of the
/// words `Failed to read EXIF data` and the description of the error.
pub fn parse_exif_data(image_data: &[u8]) -> (exif_tags: Vec<[String; 2]>)
    ensures
        exif_tags.deep_view() == tag_pairs_of(image_data@),
{
    let mut exif_tags: Vec<[String; 2]> = Vec::new();
    match read_from_container(image_data) {
        Ok(attributes) => {
            let all = fields(&attributes);
            let mut i: usize = 0;
            while i < all.len()
                invariant
                    i <= all.len(),
                    all@.len() == exif_fields(attributes).len(),
                    forall|k: int|
                        0 <= k < all@.len() ==> *(#[trigger] all@[k]) == exif_fields(
                            attributes,
                        )[k],
                    exif_tags@.len() == i,
                    forall|k: int|
                        0 <= k < i ==> (#[trigger] exif_tags@[k]).deep_view() == seq![
                            tag_name(exif_fields(attributes)[k]),
                            display_value(exif_fields(attributes)[k], attributes),
                        ],
                decreases all.len() - i,
            {
                let field = all[i];
                let tag_pair: [String; 2] = [
                    tag_to_string(field),
                    display_with_unit(field, &attributes),
                ];
                assert(tag_pair.deep_view() =~= seq![
                    tag_name(*field),
                    display_value(*field, attributes),
                ]);
                exif_tags.push(tag_pair);
                i += 1;
            }
            assert(exif_tags.deep_view() =~= tag_pairs_of(image_data@));
        },
        Err(error) => {
            let tag_pair: [String; 2] = [
                "Failed to read EXIF data".to_owned(),
                error_to_string(&error),
            ];
            assert(tag_pair.deep_view() =~= seq![
                "Failed to read EXIF data"@,
                error_text(error),
            ]);
            exif_tags.push(tag_pair);
            assert(exif_tags.deep_view() =~= tag_pairs_of(image_data@));
        },
    }
    exif_tags
}

} // verus!
