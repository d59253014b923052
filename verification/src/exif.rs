//! The metadata extractor: what the embedded capture metadata of an image
//! says, read tolerantly. A file without metadata, or with metadata that
//! cannot be parsed, yields a record with every field absent.

use vstd::prelude::*;

verus! {

/// An unsigned rational number as image metadata stores it.
#[derive(Debug, Clone, Copy, PartialEq, Eq)]
pub struct Rational {
    pub num: u32,
    pub denom: u32,
}

/// A signed rational number as image metadata stores it.
#[derive(Debug, Clone, Copy, PartialEq, Eq)]
pub struct SRational {
    pub num: i32,
    pub denom: i32,
}

/// An angle in decimal degrees, kept exactly as a fraction. The denominator
/// of a value that this module hands out is positive.
#[derive(Debug, Clone, Copy, PartialEq, Eq)]
pub struct Degrees {
    pub num: u128,
    pub denom: u128,
}

/// The directory of attributes that a tag number belongs to.
#[derive(Debug, Clone, Copy, PartialEq, Eq)]
pub enum TagContext {
    /// Attributes of the image itself.
    Tiff,
    /// Attributes of the capture.
    Exif,
    /// Attributes of the position.
    Gps,
}

/// A metadata tag: a directory and a number within it.
#[derive(Debug, Clone, Copy, PartialEq, Eq)]
pub struct TagId {
    pub context: TagContext,
    pub number: u16,
}

/// The values of a metadata field, as far as this module reads them.
#[derive(Debug, Clone, PartialEq, Eq)]
pub enum FieldValue {
    Rational(Vec<Rational>),
    SRational(Vec<SRational>),
    Short(Vec<u16>),
    /// A value of any other type.
    Other,
}

/// The values of a metadata field as mathematical values.
pub enum FieldValueView {
    Rational(Seq<Rational>),
    SRational(Seq<SRational>),
    Short(Seq<u16>),
    Other,
}

impl View for FieldValue {
    type V = FieldValueView;

    open spec fn view(&self) -> FieldValueView {
        match self {
            FieldValue::Rational(v) => FieldValueView::Rational(v@),
            FieldValue::SRational(v) => FieldValueView::SRational(v@),
            FieldValue::Short(v) => FieldValueView::Short(v@),
            FieldValue::Other => FieldValueView::Other,
        }
    }
}

/// One metadata field: its values and the text that displays them.
#[derive(Debug, Clone, PartialEq, Eq)]
pub struct RawField {
    pub display: String,
    pub value: FieldValue,
}

/// A metadata field as mathematical values.
pub struct RawFieldView {
    pub display: Seq<char>,
    pub value: FieldValueView,
}

impl View for RawField {
    type V = RawFieldView;

    open spec fn view(&self) -> RawFieldView {
        RawFieldView { display: self.display@, value: self.value@ }
    }
}

/// The view of a field that may be absent.
pub open spec fn field_view(field: Option<RawField>) -> Option<RawFieldView> {
    match field {
        Some(f) => Some(f@),
        None => None,
    }
}

/// The fields of the primary image that the extractor reads, each as found.
#[derive(Debug, Clone, PartialEq, Eq)]
pub struct RawMetadata {
    pub make: Option<RawField>,
    pub model: Option<RawField>,
    pub lens_model: Option<RawField>,
    pub focal_length: Option<RawField>,
    pub f_number: Option<RawField>,
    pub exposure_time: Option<RawField>,
    pub sensitivity: Option<RawField>,
    pub exposure_bias: Option<RawField>,
    pub flash: Option<RawField>,
    pub orientation: Option<RawField>,
    pub date_time_original: Option<RawField>,
    pub date_time: Option<RawField>,
    pub gps_latitude: Option<RawField>,
    pub gps_longitude: Option<RawField>,
    pub gps_altitude: Option<RawField>,
}

/// The fields that the extractor reads, as mathematical values.
pub struct RawMetadataView {
    pub make: Option<RawFieldView>,
    pub model: Option<RawFieldView>,
    pub lens_model: Option<RawFieldView>,
    pub focal_length: Option<RawFieldView>,
    pub f_number: Option<RawFieldView>,
    pub exposure_time: Option<RawFieldView>,
    pub sensitivity: Option<RawFieldView>,
    pub exposure_bias: Option<RawFieldView>,
    pub flash: Option<RawFieldView>,
    pub orientation: Option<RawFieldView>,
    pub date_time_original: Option<RawFieldView>,
    pub date_time: Option<RawFieldView>,
    pub gps_latitude: Option<RawFieldView>,
    pub gps_longitude: Option<RawFieldView>,
    pub gps_altitude: Option<RawFieldView>,
}

impl View for RawMetadata {
    type V = RawMetadataView;

    open spec fn view(&self) -> RawMetadataView {
        RawMetadataView {
            make: field_view(self.make),
            model: field_view(self.model),
            lens_model: field_view(self.lens_model),
            focal_length: field_view(self.focal_length),
            f_number: field_view(self.f_number),
            exposure_time: field_view(self.exposure_time),
            sensitivity: field_view(self.sensitivity),
            exposure_bias: field_view(self.exposure_bias),
            flash: field_view(self.flash),
            orientation: field_view(self.orientation),
            date_time_original: field_view(self.date_time_original),
            date_time: field_view(self.date_time),
            gps_latitude: field_view(self.gps_latitude),
            gps_longitude: field_view(self.gps_longitude),
            gps_altitude: field_view(self.gps_altitude),
        }
    }
}

/// The capture metadata of an image. Every field is absent where the image
/// does not state it.
#[derive(Debug, Clone, PartialEq, Eq)]
pub struct EXIFData {
    pub camera_make: Option<String>,
    pub camera_model: Option<String>,
    pub lens_model: Option<String>,
    /// In millimetres.
    pub focal_length: Option<Rational>,
    /// The f-number.
    pub aperture: Option<Rational>,
    /// The exposure time, in the text that displays it.
    pub shutter_speed: Option<String>,
    pub iso: Option<u32>,
    pub exposure_bias: Option<SRational>,
    pub flash: Option<String>,
    pub orientation: Option<u32>,
    pub capture_date: Option<String>,
    pub gps_latitude: Option<Degrees>,
    pub gps_longitude: Option<Degrees>,
    pub gps_altitude: Option<Rational>,
}

/// Capture metadata as mathematical values.
pub struct EXIFDataView {
    pub camera_make: Option<Seq<char>>,
    pub camera_model: Option<Seq<char>>,
    pub lens_model: Option<Seq<char>>,
    pub focal_length: Option<Rational>,
    pub aperture: Option<Rational>,
    pub shutter_speed: Option<Seq<char>>,
    pub iso: Option<u32>,
    pub exposure_bias: Option<SRational>,
    pub flash: Option<Seq<char>>,
    pub orientation: Option<u32>,
    pub capture_date: Option<Seq<char>>,
    pub gps_latitude: Option<Degrees>,
    pub gps_longitude: Option<Degrees>,
    pub gps_altitude: Option<Rational>,
}

/// The view of a text that may be absent.
pub open spec fn text_view(text: Option<String>) -> Option<Seq<char>> {
    match text {
        Some(t) => Some(t@),
        None => None,
    }
}

impl View for EXIFData {
    type V = EXIFDataView;

    open spec fn view(&self) -> EXIFDataView {
        EXIFDataView {
            camera_make: text_view(self.camera_make),
            camera_model: text_view(self.camera_model),
            lens_model: text_view(self.lens_model),
            focal_length: self.focal_length,
            aperture: self.aperture,
            shutter_speed: text_view(self.shutter_speed),
            iso: self.iso,
            exposure_bias: self.exposure_bias,
            flash: text_view(self.flash),
            orientation: self.orientation,
            capture_date: text_view(self.capture_date),
            gps_latitude: self.gps_latitude,
            gps_longitude: self.gps_longitude,
            gps_altitude: self.gps_altitude,
        }
    }
}

/// The record of an image that states nothing.
pub open spec fn empty_metadata() -> EXIFDataView {
    EXIFDataView {
        camera_make: None,
        camera_model: None,
        lens_model: None,
        focal_length: None,
        aperture: None,
        shutter_speed: None,
        iso: None,
        exposure_bias: None,
        flash: None,
        orientation: None,
        capture_date: None,
        gps_latitude: None,
        gps_longitude: None,
        gps_altitude: None,
    }
}

impl Default for EXIFData {
    fn default() -> (r: EXIFData)
        ensures
            r@ == empty_metadata(),
    {
        EXIFData {
            camera_make: None,
            camera_model: None,
            lens_model: None,
            focal_length: None,
            aperture: None,
            shutter_speed: None,
            iso: None,
            exposure_bias: None,
            flash: None,
            orientation: None,
            capture_date: None,
            gps_latitude: None,
            gps_longitude: None,
            gps_altitude: None,
        }
    }
}

/// The first of a list of rationals, absent where the list is empty or the
/// denominator is zero.
pub open spec fn leading_rational(values: Seq<Rational>) -> Option<Rational> {
    if values.len() > 0 && values[0].denom != 0 {
        Some(values[0])
    } else {
        None
    }
}

/// The first of a list of signed rationals, absent where the list is empty or
/// the denominator is zero.
pub open spec fn leading_srational(values: Seq<SRational>) -> Option<SRational> {
    if values.len() > 0 && values[0].denom != 0 {
        Some(values[0])
    } else {
        None
    }
}

/// The first of a list of short integers.
pub open spec fn leading_short(values: Seq<u16>) -> Option<u32> {
    if values.len() > 0 {
        Some(values[0] as u32)
    } else {
        None
    }
}

/// The numerator of `degrees + minutes/60 + seconds/3600`, the three
/// fractions brought to the denominator `dms_denominator`.
pub open spec fn dms_numerator(degrees: Rational, minutes: Rational, seconds: Rational) -> int {
    degrees.num * minutes.denom * seconds.denom * 3600 + minutes.num * degrees.denom
        * seconds.denom * 60 + seconds.num * degrees.denom * minutes.denom
}

/// The common denominator of degrees, minutes over 60 and seconds over 3600.
pub open spec fn dms_denominator(degrees: Rational, minutes: Rational, seconds: Rational) -> int {
    degrees.denom * minutes.denom * seconds.denom * 3600
}

/// The decimal degrees of a degrees-minutes-seconds triple:
/// `degrees + minutes/60 + seconds/3600`. Absent where fewer than three
/// rationals are given, or where one of the first three has a zero denominator.
pub open spec fn dms_degrees(values: Seq<Rational>) -> Option<Degrees> {
    if values.len() >= 3 && values[0].denom != 0 && values[1].denom != 0 && values[2].denom != 0 {
        Some(
            Degrees {
                num: dms_numerator(values[0], values[1], values[2]) as u128,
                denom: dms_denominator(values[0], values[1], values[2]) as u128,
            },
        )
    } else {
        None
    }
}

/// The text of a field.
pub open spec fn field_text(field: Option<RawFieldView>) -> Option<Seq<char>> {
    match field {
        Some(f) => Some(f.display),
        None => None,
    }
}

/// The rational that a field states: the first of its unsigned rationals.
pub open spec fn field_rational(field: Option<RawFieldView>) -> Option<Rational> {
    match field {
        Some(RawFieldView { value: FieldValueView::Rational(values), .. }) => leading_rational(
            values,
        ),
        _ => None,
    }
}

/// The signed rational that a field states: the first of its signed rationals.
pub open spec fn field_srational(field: Option<RawFieldView>) -> Option<SRational> {
    match field {
        Some(RawFieldView { value: FieldValueView::SRational(values), .. }) => leading_srational(
            values,
        ),
        _ => None,
    }
}

/// The integer that a field states: the first of its short integers.
pub open spec fn field_short(field: Option<RawFieldView>) -> Option<u32> {
    match field {
        Some(RawFieldView { value: FieldValueView::Short(values), .. }) => leading_short(values),
        _ => None,
    }
}

/// The angle that a field states in degrees, minutes and seconds.
pub open spec fn field_degrees(field: Option<RawFieldView>) -> Option<Degrees> {
    match field {
        Some(RawFieldView { value: FieldValueView::Rational(values), .. }) => dms_degrees(values),
        _ => None,
    }
}

/// The capture time: that of the original capture where it is stated, else
/// that of the last modification.
pub open spec fn capture_text(
    original: Option<RawFieldView>,
    modified: Option<RawFieldView>,
) -> Option<Seq<char>> {
    if original is Some {
        field_text(original)
    } else {
        field_text(modified)
    }
}

/// What the fields of an image say, field by field.
pub open spec fn interpret(raw: RawMetadataView) -> EXIFDataView {
    EXIFDataView {
        camera_make: field_text(raw.make),
        camera_model: field_text(raw.model),
        lens_model: field_text(raw.lens_model),
        focal_length: field_rational(raw.focal_length),
        aperture: field_rational(raw.f_number),
        shutter_speed: field_text(raw.exposure_time),
        iso: field_short(raw.sensitivity),
        exposure_bias: field_srational(raw.exposure_bias),
        flash: field_text(raw.flash),
        orientation: field_short(raw.orientation),
        capture_date: capture_text(raw.date_time_original, raw.date_time),
        gps_latitude: field_degrees(raw.gps_latitude),
        gps_longitude: field_degrees(raw.gps_longitude),
        gps_altitude: field_rational(raw.gps_altitude),
    }
}

/// The tag with a number in a directory.
pub open spec fn tag(context: TagContext, number: u16) -> TagId {
    TagId { context, number }
}

/// A field of a directory of fields, absent where the directory lacks the tag.
pub open spec fn field_at(fields: Map<TagId, RawFieldView>, id: TagId) -> Option<RawFieldView> {
    if fields.contains_key(id) {
        Some(fields[id])
    } else {
        None
    }
}

/// The fields that the extractor reads, picked from the fields of the
/// primary image by their tags.
pub open spec fn selected_fields(fields: Map<TagId, RawFieldView>) -> RawMetadataView {
    RawMetadataView {
        make: field_at(fields, tag(TagContext::Tiff, 0x010f)),
        model: field_at(fields, tag(TagContext::Tiff, 0x0110)),
        lens_model: field_at(fields, tag(TagContext::Exif, 0xa434)),
        focal_length: field_at(fields, tag(TagContext::Exif, 0x920a)),
        f_number: field_at(fields, tag(TagContext::Exif, 0x829d)),
        exposure_time: field_at(fields, tag(TagContext::Exif, 0x829a)),
        sensitivity: field_at(fields, tag(TagContext::Exif, 0x8827)),
        exposure_bias: field_at(fields, tag(TagContext::Exif, 0x9204)),
        flash: field_at(fields, tag(TagContext::Exif, 0x9209)),
        orientation: field_at(fields, tag(TagContext::Tiff, 0x0112)),
        date_time_original: field_at(fields, tag(TagContext::Exif, 0x9003)),
        date_time: field_at(fields, tag(TagContext::Tiff, 0x0132)),
        gps_latitude: field_at(fields, tag(TagContext::Gps, 0x0002)),
        gps_longitude: field_at(fields, tag(TagContext::Gps, 0x0004)),
        gps_altitude: field_at(fields, tag(TagContext::Gps, 0x0006)),
    }
}

/// The metadata of an image whose container was parsed to `fields`, or
/// could not be parsed.
pub open spec fn metadata_of(fields: Option<Map<TagId, RawFieldView>>) -> EXIFDataView {
    match fields {
        Some(found) => interpret(selected_fields(found)),
        None => empty_metadata(),
    }
}

/// `exif::Exif`, the parsed metadata of an image: carried through as it
/// is, and read field by field.
#[verifier::external_type_specification]
#[verifier::external_body]
pub struct ExExif(::exif::Exif);

/// The fields of the primary image that parsed metadata holds, by tag.
pub uninterp spec fn primary_fields(parsed: ::exif::Exif) -> Map<TagId, RawFieldView>;

/// The fields of the primary image that the bytes of an image file hold, or
/// `None` where the bytes are no image container with metadata that parses.
pub uninterp spec fn container_fields(bytes: Seq<u8>) -> Option<Map<TagId, RawFieldView>>;

/// `exif::Reader::read_from_container` on the bytes of a file. The crate
/// finds the metadata in a TIFF, JPEG, PNG, HEIF or WebP container and parses
/// it; every failure is `None` here. What it found is a function of the bytes
/// alone, and is named `container_fields`.
#[verifier::external_body]
fn read_container(bytes: &[u8]) -> (r: Option<::exif::Exif>)
    ensures
        match r {
            Some(parsed) => container_fields(bytes@) == Some(primary_fields(parsed)),
            None => container_fields(bytes@) is None,
        },
{
    ::exif::Reader::new().read_from_container(&mut std::io::Cursor::new(bytes)).ok()
}

/// `exif::Exif::get_field` for a tag of the primary image, and
/// `exif::Field::display_value` of what it finds: the text that displays the
/// field, or `None` where the metadata holds no such field.
#[verifier::external_body]
fn display_of(parsed: &::exif::Exif, id: TagId) -> (r: Option<String>)
    ensures
        text_view(r) == field_text(field_at(primary_fields(*parsed), id)),
{
    let context = match id.context {
        TagContext::Tiff => ::exif::Context::Tiff,
        TagContext::Exif => ::exif::Context::Exif,
        TagContext::Gps => ::exif::Context::Gps,
    };
    let field = parsed.get_field(::exif::Tag(context, id.number), ::exif::In::PRIMARY);
    field.map(|f| f.display_value().to_string())
}

/// The values that a field holds, absent where there is no field.
pub open spec fn field_values(field: Option<RawFieldView>) -> Option<FieldValueView> {
    match field {
        Some(f) => Some(f.value),
        None => None,
    }
}

/// The view of values that may be absent.
pub open spec fn value_view(value: Option<FieldValue>) -> Option<FieldValueView> {
    match value {
        Some(v) => Some(v@),
        None => None,
    }
}

/// `exif::Exif::get_field` for a tag of the primary image: the typed values
/// of the field, or `None` where the metadata holds no such field.
#[verifier::external_body]
fn value_of(parsed: &::exif::Exif, id: TagId) -> (r: Option<FieldValue>)
    ensures
        value_view(r) == field_values(field_at(primary_fields(*parsed), id)),
{
    let context = match id.context {
        TagContext::Tiff => ::exif::Context::Tiff,
        TagContext::Exif => ::exif::Context::Exif,
        TagContext::Gps => ::exif::Context::Gps,
    };
    let field = parsed.get_field(::exif::Tag(context, id.number), ::exif::In::PRIMARY)?;
    Some(match &field.value {
        ::exif::Value::Rational(v) => FieldValue::Rational(
            v.iter().map(|r| Rational { num: r.num, denom: r.denom }).collect()),
        ::exif::Value::SRational(v) => FieldValue::SRational(
            v.iter().map(|r| SRational { num: r.num, denom: r.denom }).collect()),
        ::exif::Value::Short(v) => FieldValue::Short(v.clone()),
        _ => FieldValue::Other,
    })
}

/// A field of the primary image: its values and the text that displays it.
fn get_field(parsed: &::exif::Exif, id: TagId) -> (r: Option<RawField>)
    ensures
        field_view(r) == field_at(primary_fields(*parsed), id),
{
    match (display_of(parsed, id), value_of(parsed, id)) {
        (Some(display), Some(value)) => Some(RawField { display, value }),
        _ => None,
    }
}

/// The text of a field, as a string of its own.
fn text_of(field: &Option<RawField>) -> (r: Option<String>)
    ensures
        text_view(r) == field_text(field_view(*field)),
{
    match field {
        Some(f) => Some(f.display.clone()),
        None => None,
    }
}

/// The rational that a field states.
fn rational_of(field: &Option<RawField>) -> (r: Option<Rational>)
    ensures
        r == field_rational(field_view(*field)),
{
    match field {
        Some(RawField { value: FieldValue::Rational(values), .. }) => EXIFService::first_rational(
            values,
        ),
        _ => None,
    }
}

/// The signed rational that a field states.
fn srational_of(field: &Option<RawField>) -> (r: Option<SRational>)
    ensures
        r == field_srational(field_view(*field)),
{
    match field {
        Some(RawField { value: FieldValue::SRational(values), .. }) => {
            if values.len() > 0 && values[0].denom != 0 {
                Some(values[0])
            } else {
                None
            }
        },
        _ => None,
    }
}

/// The integer that a field states.
fn short_of(field: &Option<RawField>) -> (r: Option<u32>)
    ensures
        r == field_short(field_view(*field)),
{
    match field {
        Some(RawField { value: FieldValue::Short(values), .. }) => {
            if values.len() > 0 {
                Some(values[0] as u32)
            } else {
                None
            }
        },
        _ => None,
    }
}

/// The angle that a field states.
fn degrees_of(field: &Option<RawField>) -> (r: Option<Degrees>)
    ensures
        r == field_degrees(field_view(*field)),
{
    match field {
        Some(RawField { value: FieldValue::Rational(values), .. }) => EXIFService::decimal_degrees(
            values,
        ),
        _ => None,
    }
}

/// The fields that the extractor reads, looked up in parsed metadata.
fn select_fields(parsed: &::exif::Exif) -> (raw: RawMetadata)
    ensures
        raw@ == selected_fields(primary_fields(*parsed)),
{
    RawMetadata {
        make: get_field(parsed, TagId { context: TagContext::Tiff, number: 0x010f }),
        model: get_field(parsed, TagId { context: TagContext::Tiff, number: 0x0110 }),
        lens_model: get_field(parsed, TagId { context: TagContext::Exif, number: 0xa434 }),
        focal_length: get_field(parsed, TagId { context: TagContext::Exif, number: 0x920a }),
        f_number: get_field(parsed, TagId { context: TagContext::Exif, number: 0x829d }),
        exposure_time: get_field(parsed, TagId { context: TagContext::Exif, number: 0x829a }),
        sensitivity: get_field(parsed, TagId { context: TagContext::Exif, number: 0x8827 }),
        exposure_bias: get_field(parsed, TagId { context: TagContext::Exif, number: 0x9204 }),
        flash: get_field(parsed, TagId { context: TagContext::Exif, number: 0x9209 }),
        orientation: get_field(parsed, TagId { context: TagContext::Tiff, number: 0x0112 }),
        date_time_original: get_field(
            parsed,
            TagId { context: TagContext::Exif, number: 0x9003 },
        ),
        date_time: get_field(parsed, TagId { context: TagContext::Tiff, number: 0x0132 }),
        gps_latitude: get_field(parsed, TagId { context: TagContext::Gps, number: 0x0002 }),
        gps_longitude: get_field(parsed, TagId { context: TagContext::Gps, number: 0x0004 }),
        gps_altitude: get_field(parsed, TagId { context: TagContext::Gps, number: 0x0006 }),
    }
}

/// The metadata extractor.
pub struct EXIFService;

impl EXIFService {
    /// The capture metadata embedded in the bytes of an image file. Bytes
    /// without metadata, or with metadata that cannot be parsed, give the
    /// empty record; each field is read on its own.
    pub fn extract_exif(bytes: &[u8]) -> (data: EXIFData)
        ensures
            data@ == metadata_of(container_fields(bytes@)),
    {
        match read_container(bytes) {
            Some(parsed) => {
                let raw = select_fields(&parsed);
                Self::from_fields(&raw)
            },
            None => EXIFData::default(),
        }
    }

    /// The capture metadata that a set of fields states.
    pub fn from_fields(raw: &RawMetadata) -> (data: EXIFData)
        ensures
            data@ == interpret(raw@),
    {
        let capture_date = if raw.date_time_original.is_some() {
            text_of(&raw.date_time_original)
        } else {
            text_of(&raw.date_time)
        };
        EXIFData {
            camera_make: text_of(&raw.make),
            camera_model: text_of(&raw.model),
            lens_model: text_of(&raw.lens_model),
            focal_length: rational_of(&raw.focal_length),
            aperture: rational_of(&raw.f_number),
            shutter_speed: text_of(&raw.exposure_time),
            iso: short_of(&raw.sensitivity),
            exposure_bias: srational_of(&raw.exposure_bias),
            flash: text_of(&raw.flash),
            orientation: short_of(&raw.orientation),
            capture_date,
            gps_latitude: degrees_of(&raw.gps_latitude),
            gps_longitude: degrees_of(&raw.gps_longitude),
            gps_altitude: rational_of(&raw.gps_altitude),
        }
    }

    /// The first of a list of rationals, unless its denominator is zero.
    pub fn first_rational(values: &Vec<Rational>) -> (r: Option<Rational>)
        ensures
            r == leading_rational(values@),
    {
        if values.len() > 0 && values[0].denom != 0 {
            Some(values[0])
        } else {
            None
        }
    }

    /// Decimal degrees from degrees, minutes and seconds:
    /// `degrees + minutes/60 + seconds/3600`, exactly. Fewer than three
    /// rationals, or a zero denominator among the first three, give `None`.
    pub fn decimal_degrees(values: &Vec<Rational>) -> (r: Option<Degrees>)
        ensures
            r == dms_degrees(values@),
            r matches Some(angle) ==> angle.denom > 0,
    {
        if values.len() < 3 {
            return None;
        }
        let d = values[0];
        let m = values[1];
        let s = values[2];
        if d.denom == 0 || m.denom == 0 || s.denom == 0 {
            return None;
        }
        let dn: u128 = d.num as u128;
        let dd: u128 = d.denom as u128;
        let mn: u128 = m.num as u128;
        let md: u128 = m.denom as u128;
        let sn: u128 = s.num as u128;
        let sd: u128 = s.denom as u128;
        proof {
            lemma_product_bound(dn as int, md as int, sd as int);
            lemma_product_bound(mn as int, dd as int, sd as int);
            lemma_product_bound(sn as int, dd as int, md as int);
            lemma_product_bound(dd as int, md as int, sd as int);
            assert(dd * md * sd > 0) by (nonlinear_arith)
                requires
                    dd > 0,
                    md > 0,
                    sd > 0,
            ;
        }
        let num: u128 = dn * md * sd * 3600 + mn * dd * sd * 60 + sn * dd * md;
        let denom: u128 = dd * md * sd * 3600;
        Some(Degrees { num, denom })
    }
}

/// A product of three 32-bit numbers stays below 2^96.
proof fn lemma_product_bound(a: int, b: int, c: int)
    requires
        0 <= a < 0x1_0000_0000,
        0 <= b < 0x1_0000_0000,
        0 <= c < 0x1_0000_0000,
    ensures
        0 <= a * b < 0x1_0000_0000_0000_0000,
        0 <= a * b * c < 0x1_0000_0000_0000_0000_0000_0000,
{
    assert(0 <= a * b < 0x1_0000_0000_0000_0000) by (nonlinear_arith)
        requires
            0 <= a < 0x1_0000_0000,
            0 <= b < 0x1_0000_0000,
    ;
    assert(0 <= a * b * c < 0x1_0000_0000_0000_0000_0000_0000) by (nonlinear_arith)
        requires
            0 <= a * b < 0x1_0000_0000_0000_0000,
            0 <= c < 0x1_0000_0000,
    ;
}

} // verus!
