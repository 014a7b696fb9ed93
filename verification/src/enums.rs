//! The protocol's identified enumerations: each value is named by a fixed C
//! string, written and recognized exactly.

use vstd::prelude::*;
use crate::text::{c_bytes_of, matches_c_name, spec_c_bytes};

verus! {

/// An enumeration whose values the protocol identifies by fixed C strings.
/// `to_bytes` yields the C form of a value's name (bytes with the
/// terminating null); `from_bytes` is its exact inverse over recognized
/// names.
pub trait IdentifiedEnum: Sized {
    /// The protocol name of this value, in C form.
    spec fn spec_name(&self) -> Seq<u8>;

    fn to_bytes(&self) -> (r: Vec<u8>)
        ensures
            r@ == self.spec_name(),
    ;

    fn from_bytes(ofx_name: &[u8]) -> (r: Option<Self>)
        ensures
            r matches Some(v) ==> ofx_name@ == v.spec_name(),
            r is None ==> forall|v: Self| ofx_name@ != v.spec_name(),
    ;
}

/// The kind a property-set handle describes itself as.
#[derive(Copy, Clone, Debug, PartialEq, Eq, Structural)]
pub enum Type {
    ImageEffectHost,
    ImageEffect,
    ImageEffectInstance,
    Parameter,
    ParameterInstance,
    Clip,
    Image,
}

impl IdentifiedEnum for Type {
    open spec fn spec_name(&self) -> Seq<u8> {
        match *self {
            Type::ImageEffectHost => spec_c_bytes("OfxTypeImageEffectHost"),
            Type::ImageEffect => spec_c_bytes("OfxTypeImageEffect"),
            Type::ImageEffectInstance => spec_c_bytes("OfxTypeImageEffectInstance"),
            Type::Parameter => spec_c_bytes("OfxTypeParameter"),
            Type::ParameterInstance => spec_c_bytes("OfxTypeParameterInstance"),
            Type::Clip => spec_c_bytes("OfxTypeClip"),
            Type::Image => spec_c_bytes("OfxTypeImage"),
        }
    }

    fn to_bytes(&self) -> (r: Vec<u8>) {
        match *self {
            Type::ImageEffectHost => c_bytes_of("OfxTypeImageEffectHost"),
            Type::ImageEffect => c_bytes_of("OfxTypeImageEffect"),
            Type::ImageEffectInstance => c_bytes_of("OfxTypeImageEffectInstance"),
            Type::Parameter => c_bytes_of("OfxTypeParameter"),
            Type::ParameterInstance => c_bytes_of("OfxTypeParameterInstance"),
            Type::Clip => c_bytes_of("OfxTypeClip"),
            Type::Image => c_bytes_of("OfxTypeImage"),
        }
    }

    fn from_bytes(ofx_name: &[u8]) -> (r: Option<Self>) {
        if matches_c_name("OfxTypeImageEffectHost", ofx_name) {
            Some(Type::ImageEffectHost)
        } else if matches_c_name("OfxTypeImageEffect", ofx_name) {
            Some(Type::ImageEffect)
        } else if matches_c_name("OfxTypeImageEffectInstance", ofx_name) {
            Some(Type::ImageEffectInstance)
        } else if matches_c_name("OfxTypeParameter", ofx_name) {
            Some(Type::Parameter)
        } else if matches_c_name("OfxTypeParameterInstance", ofx_name) {
            Some(Type::ParameterInstance)
        } else if matches_c_name("OfxTypeClip", ofx_name) {
            Some(Type::Clip)
        } else if matches_c_name("OfxTypeImage", ofx_name) {
            Some(Type::Image)
        } else {
            None
        }
    }
}

/// The context an effect is instantiated in.
#[derive(Copy, Clone, Debug, PartialEq, Eq, Structural)]
pub enum ImageEffectContext {
    Filter,
    General,
    Retimer,
}

impl IdentifiedEnum for ImageEffectContext {
    open spec fn spec_name(&self) -> Seq<u8> {
        match *self {
            ImageEffectContext::Filter => spec_c_bytes("OfxImageEffectContextFilter"),
            ImageEffectContext::General => spec_c_bytes("OfxImageEffectContextGeneral"),
            ImageEffectContext::Retimer => spec_c_bytes("OfxImageEffectContextRetimer"),
        }
    }

    fn to_bytes(&self) -> (r: Vec<u8>) {
        match *self {
            ImageEffectContext::Filter => c_bytes_of("OfxImageEffectContextFilter"),
            ImageEffectContext::General => c_bytes_of("OfxImageEffectContextGeneral"),
            ImageEffectContext::Retimer => c_bytes_of("OfxImageEffectContextRetimer"),
        }
    }

    fn from_bytes(ofx_name: &[u8]) -> (r: Option<Self>) {
        if matches_c_name("OfxImageEffectContextFilter", ofx_name) {
            Some(ImageEffectContext::Filter)
        } else if matches_c_name("OfxImageEffectContextGeneral", ofx_name) {
            Some(ImageEffectContext::General)
        } else if matches_c_name("OfxImageEffectContextRetimer", ofx_name) {
            Some(ImageEffectContext::Retimer)
        } else {
            None
        }
    }
}

impl ImageEffectContext {
    pub fn is_general(self) -> (r: bool)
        ensures
            r == (self == ImageEffectContext::General),
    {
        self == ImageEffectContext::General
    }

    pub fn is_retimer(self) -> (r: bool)
        ensures
            r == (self == ImageEffectContext::Retimer),
    {
        self == ImageEffectContext::Retimer
    }
}

/// Pixel storage depth of an image.
#[derive(Copy, Clone, Debug, PartialEq, Eq, Structural)]
pub enum BitDepth {
    Null,
    Byte,
    Short,
    Half,
    Float,
}

impl IdentifiedEnum for BitDepth {
    open spec fn spec_name(&self) -> Seq<u8> {
        match *self {
            BitDepth::Null => spec_c_bytes("OfxBitDepthNone"),
            BitDepth::Byte => spec_c_bytes("OfxBitDepthByte"),
            BitDepth::Short => spec_c_bytes("OfxBitDepthShort"),
            BitDepth::Half => spec_c_bytes("OfxBitDepthHalf"),
            BitDepth::Float => spec_c_bytes("OfxBitDepthFloat"),
        }
    }

    fn to_bytes(&self) -> (r: Vec<u8>) {
        match *self {
            BitDepth::Null => c_bytes_of("OfxBitDepthNone"),
            BitDepth::Byte => c_bytes_of("OfxBitDepthByte"),
            BitDepth::Short => c_bytes_of("OfxBitDepthShort"),
            BitDepth::Half => c_bytes_of("OfxBitDepthHalf"),
            BitDepth::Float => c_bytes_of("OfxBitDepthFloat"),
        }
    }

    fn from_bytes(ofx_name: &[u8]) -> (r: Option<Self>) {
        if matches_c_name("OfxBitDepthNone", ofx_name) {
            Some(BitDepth::Null)
        } else if matches_c_name("OfxBitDepthByte", ofx_name) {
            Some(BitDepth::Byte)
        } else if matches_c_name("OfxBitDepthShort", ofx_name) {
            Some(BitDepth::Short)
        } else if matches_c_name("OfxBitDepthHalf", ofx_name) {
            Some(BitDepth::Half)
        } else if matches_c_name("OfxBitDepthFloat", ofx_name) {
            Some(BitDepth::Float)
        } else {
            None
        }
    }
}

impl BitDepth {
    /// Bits of storage per component at this depth.
    pub fn bits(self) -> (r: usize)
        ensures
            r == match self {
                BitDepth::Null => 0usize,
                BitDepth::Byte => 8usize,
                BitDepth::Short => 16usize,
                BitDepth::Half => 16usize,
                BitDepth::Float => 32usize,
            },
    {
        match self {
            BitDepth::Null => 0,
            BitDepth::Byte => 8,
            BitDepth::Short => 16,
            BitDepth::Half => 16,
            BitDepth::Float => 32,
        }
    }
}

/// Colour components an image carries.
#[derive(Copy, Clone, Debug, PartialEq, Eq, Structural)]
pub enum ImageComponent {
    RGBA,
    RGB,
    Alpha,
}

impl IdentifiedEnum for ImageComponent {
    open spec fn spec_name(&self) -> Seq<u8> {
        match *self {
            ImageComponent::RGBA => spec_c_bytes("OfxImageComponentRGBA"),
            ImageComponent::RGB => spec_c_bytes("OfxImageComponentRGB"),
            ImageComponent::Alpha => spec_c_bytes("OfxImageComponentAlpha"),
        }
    }

    fn to_bytes(&self) -> (r: Vec<u8>) {
        match *self {
            ImageComponent::RGBA => c_bytes_of("OfxImageComponentRGBA"),
            ImageComponent::RGB => c_bytes_of("OfxImageComponentRGB"),
            ImageComponent::Alpha => c_bytes_of("OfxImageComponentAlpha"),
        }
    }

    fn from_bytes(ofx_name: &[u8]) -> (r: Option<Self>) {
        if matches_c_name("OfxImageComponentRGBA", ofx_name) {
            Some(ImageComponent::RGBA)
        } else if matches_c_name("OfxImageComponentRGB", ofx_name) {
            Some(ImageComponent::RGB)
        } else if matches_c_name("OfxImageComponentAlpha", ofx_name) {
            Some(ImageComponent::Alpha)
        } else {
            None
        }
    }
}

impl ImageComponent {
    pub fn is_alpha(self) -> (r: bool)
        ensures
            r == (self == ImageComponent::Alpha),
    {
        self == ImageComponent::Alpha
    }

    pub fn is_rgb(self) -> (r: bool)
        ensures
            r == (self != ImageComponent::Alpha),
    {
        !self.is_alpha()
    }
}

/// The kind of a parameter.
#[derive(Copy, Clone, Debug, PartialEq, Eq, Structural)]
pub enum ParamType {
    Integer,
    Double,
    Boolean,
    Choice,
    RGBA,
    RGB,
    Integer2D,
    Double2D,
    Double3D,
    Integer3D,
    Text,
    Custom,
    Group,
    Page,
    PushButton,
}

impl IdentifiedEnum for ParamType {
    open spec fn spec_name(&self) -> Seq<u8> {
        match *self {
            ParamType::Integer => spec_c_bytes("OfxParamTypeInteger"),
            ParamType::Double => spec_c_bytes("OfxParamTypeDouble"),
            ParamType::Boolean => spec_c_bytes("OfxParamTypeBoolean"),
            ParamType::Choice => spec_c_bytes("OfxParamTypeChoice"),
            ParamType::RGBA => spec_c_bytes("OfxParamTypeRGBA"),
            ParamType::RGB => spec_c_bytes("OfxParamTypeRGB"),
            ParamType::Integer2D => spec_c_bytes("OfxParamTypeInteger2D"),
            ParamType::Double2D => spec_c_bytes("OfxParamTypeDouble2D"),
            ParamType::Double3D => spec_c_bytes("OfxParamTypeDouble3D"),
            ParamType::Integer3D => spec_c_bytes("OfxParamTypeInteger3D"),
            ParamType::Text => spec_c_bytes("OfxParamTypeString"),
            ParamType::Custom => spec_c_bytes("OfxParamTypeCustom"),
            ParamType::Group => spec_c_bytes("OfxParamTypeGroup"),
            ParamType::Page => spec_c_bytes("OfxParamTypePage"),
            ParamType::PushButton => spec_c_bytes("OfxParamTypePushButton"),
        }
    }

    fn to_bytes(&self) -> (r: Vec<u8>) {
        match *self {
            ParamType::Integer => c_bytes_of("OfxParamTypeInteger"),
            ParamType::Double => c_bytes_of("OfxParamTypeDouble"),
            ParamType::Boolean => c_bytes_of("OfxParamTypeBoolean"),
            ParamType::Choice => c_bytes_of("OfxParamTypeChoice"),
            ParamType::RGBA => c_bytes_of("OfxParamTypeRGBA"),
            ParamType::RGB => c_bytes_of("OfxParamTypeRGB"),
            ParamType::Integer2D => c_bytes_of("OfxParamTypeInteger2D"),
            ParamType::Double2D => c_bytes_of("OfxParamTypeDouble2D"),
            ParamType::Double3D => c_bytes_of("OfxParamTypeDouble3D"),
            ParamType::Integer3D => c_bytes_of("OfxParamTypeInteger3D"),
            ParamType::Text => c_bytes_of("OfxParamTypeString"),
            ParamType::Custom => c_bytes_of("OfxParamTypeCustom"),
            ParamType::Group => c_bytes_of("OfxParamTypeGroup"),
            ParamType::Page => c_bytes_of("OfxParamTypePage"),
            ParamType::PushButton => c_bytes_of("OfxParamTypePushButton"),
        }
    }

    fn from_bytes(ofx_name: &[u8]) -> (r: Option<Self>) {
        if matches_c_name("OfxParamTypeInteger", ofx_name) {
            Some(ParamType::Integer)
        } else if matches_c_name("OfxParamTypeDouble", ofx_name) {
            Some(ParamType::Double)
        } else if matches_c_name("OfxParamTypeBoolean", ofx_name) {
            Some(ParamType::Boolean)
        } else if matches_c_name("OfxParamTypeChoice", ofx_name) {
            Some(ParamType::Choice)
        } else if matches_c_name("OfxParamTypeRGBA", ofx_name) {
            Some(ParamType::RGBA)
        } else if matches_c_name("OfxParamTypeRGB", ofx_name) {
            Some(ParamType::RGB)
        } else if matches_c_name("OfxParamTypeInteger2D", ofx_name) {
            Some(ParamType::Integer2D)
        } else if matches_c_name("OfxParamTypeDouble2D", ofx_name) {
            Some(ParamType::Double2D)
        } else if matches_c_name("OfxParamTypeDouble3D", ofx_name) {
            Some(ParamType::Double3D)
        } else if matches_c_name("OfxParamTypeInteger3D", ofx_name) {
            Some(ParamType::Integer3D)
        } else if matches_c_name("OfxParamTypeString", ofx_name) {
            Some(ParamType::Text)
        } else if matches_c_name("OfxParamTypeCustom", ofx_name) {
            Some(ParamType::Custom)
        } else if matches_c_name("OfxParamTypeGroup", ofx_name) {
            Some(ParamType::Group)
        } else if matches_c_name("OfxParamTypePage", ofx_name) {
            Some(ParamType::Page)
        } else if matches_c_name("OfxParamTypePushButton", ofx_name) {
            Some(ParamType::PushButton)
        } else {
            None
        }
    }
}

/// How a double parameter is interpreted and presented.
#[derive(Copy, Clone, Debug, PartialEq, Eq, Structural)]
pub enum ParamDoubleType {
    Plain,
    Angle,
    Scale,
    Time,
    AbsoluteTime,
    X,
    XAbsolute,
    Y,
    YAbsolute,
    XY,
    XYAbsolute,
}

impl IdentifiedEnum for ParamDoubleType {
    open spec fn spec_name(&self) -> Seq<u8> {
        match *self {
            ParamDoubleType::Plain => spec_c_bytes("OfxParamDoubleTypePlain"),
            ParamDoubleType::Angle => spec_c_bytes("OfxParamDoubleTypeAngle"),
            ParamDoubleType::Scale => spec_c_bytes("OfxParamDoubleTypeScale"),
            ParamDoubleType::Time => spec_c_bytes("OfxParamDoubleTypeTime"),
            ParamDoubleType::AbsoluteTime => spec_c_bytes("OfxParamDoubleTypeAbsoluteTime"),
            ParamDoubleType::X => spec_c_bytes("OfxParamDoubleTypeX"),
            ParamDoubleType::XAbsolute => spec_c_bytes("OfxParamDoubleTypeXAbsolute"),
            ParamDoubleType::Y => spec_c_bytes("OfxParamDoubleTypeY"),
            ParamDoubleType::YAbsolute => spec_c_bytes("OfxParamDoubleTypeYAbsolute"),
            ParamDoubleType::XY => spec_c_bytes("OfxParamDoubleTypeXY"),
            ParamDoubleType::XYAbsolute => spec_c_bytes("OfxParamDoubleTypeXYAbsolute"),
        }
    }

    fn to_bytes(&self) -> (r: Vec<u8>) {
        match *self {
            ParamDoubleType::Plain => c_bytes_of("OfxParamDoubleTypePlain"),
            ParamDoubleType::Angle => c_bytes_of("OfxParamDoubleTypeAngle"),
            ParamDoubleType::Scale => c_bytes_of("OfxParamDoubleTypeScale"),
            ParamDoubleType::Time => c_bytes_of("OfxParamDoubleTypeTime"),
            ParamDoubleType::AbsoluteTime => c_bytes_of("OfxParamDoubleTypeAbsoluteTime"),
            ParamDoubleType::X => c_bytes_of("OfxParamDoubleTypeX"),
            ParamDoubleType::XAbsolute => c_bytes_of("OfxParamDoubleTypeXAbsolute"),
            ParamDoubleType::Y => c_bytes_of("OfxParamDoubleTypeY"),
            ParamDoubleType::YAbsolute => c_bytes_of("OfxParamDoubleTypeYAbsolute"),
            ParamDoubleType::XY => c_bytes_of("OfxParamDoubleTypeXY"),
            ParamDoubleType::XYAbsolute => c_bytes_of("OfxParamDoubleTypeXYAbsolute"),
        }
    }

    fn from_bytes(ofx_name: &[u8]) -> (r: Option<Self>) {
        if matches_c_name("OfxParamDoubleTypePlain", ofx_name) {
            Some(ParamDoubleType::Plain)
        } else if matches_c_name("OfxParamDoubleTypeAngle", ofx_name) {
            Some(ParamDoubleType::Angle)
        } else if matches_c_name("OfxParamDoubleTypeScale", ofx_name) {
            Some(ParamDoubleType::Scale)
        } else if matches_c_name("OfxParamDoubleTypeTime", ofx_name) {
            Some(ParamDoubleType::Time)
        } else if matches_c_name("OfxParamDoubleTypeAbsoluteTime", ofx_name) {
            Some(ParamDoubleType::AbsoluteTime)
        } else if matches_c_name("OfxParamDoubleTypeX", ofx_name) {
            Some(ParamDoubleType::X)
        } else if matches_c_name("OfxParamDoubleTypeXAbsolute", ofx_name) {
            Some(ParamDoubleType::XAbsolute)
        } else if matches_c_name("OfxParamDoubleTypeY", ofx_name) {
            Some(ParamDoubleType::Y)
        } else if matches_c_name("OfxParamDoubleTypeYAbsolute", ofx_name) {
            Some(ParamDoubleType::YAbsolute)
        } else if matches_c_name("OfxParamDoubleTypeXY", ofx_name) {
            Some(ParamDoubleType::XY)
        } else if matches_c_name("OfxParamDoubleTypeXYAbsolute", ofx_name) {
            Some(ParamDoubleType::XYAbsolute)
        } else {
            None
        }
    }
}

/// Which fields an interlaced image holds.
#[derive(Copy, Clone, Debug, PartialEq, Eq, Structural)]
pub enum ImageField {
    Null,
    Both,
    Lower,
    Upper,
}

impl IdentifiedEnum for ImageField {
    open spec fn spec_name(&self) -> Seq<u8> {
        match *self {
            ImageField::Null => spec_c_bytes("OfxFieldNone"),
            ImageField::Both => spec_c_bytes("OfxFieldBoth"),
            ImageField::Lower => spec_c_bytes("OfxFieldLower"),
            ImageField::Upper => spec_c_bytes("OfxFieldUpper"),
        }
    }

    fn to_bytes(&self) -> (r: Vec<u8>) {
        match *self {
            ImageField::Null => c_bytes_of("OfxFieldNone"),
            ImageField::Both => c_bytes_of("OfxFieldBoth"),
            ImageField::Lower => c_bytes_of("OfxFieldLower"),
            ImageField::Upper => c_bytes_of("OfxFieldUpper"),
        }
    }

    fn from_bytes(ofx_name: &[u8]) -> (r: Option<Self>) {
        if matches_c_name("OfxFieldNone", ofx_name) {
            Some(ImageField::Null)
        } else if matches_c_name("OfxFieldBoth", ofx_name) {
            Some(ImageField::Both)
        } else if matches_c_name("OfxFieldLower", ofx_name) {
            Some(ImageField::Lower)
        } else if matches_c_name("OfxFieldUpper", ofx_name) {
            Some(ImageField::Upper)
        } else {
            None
        }
    }
}

/// Temporal order of fields in interlaced footage.
#[derive(Copy, Clone, Debug, PartialEq, Eq, Structural)]
pub enum ImageFieldOrder {
    Null,
    Lower,
    Upper,
}

impl IdentifiedEnum for ImageFieldOrder {
    open spec fn spec_name(&self) -> Seq<u8> {
        match *self {
            ImageFieldOrder::Null => spec_c_bytes("OfxFieldNone"),
            ImageFieldOrder::Lower => spec_c_bytes("OfxFieldLower"),
            ImageFieldOrder::Upper => spec_c_bytes("OfxFieldUpper"),
        }
    }

    fn to_bytes(&self) -> (r: Vec<u8>) {
        match *self {
            ImageFieldOrder::Null => c_bytes_of("OfxFieldNone"),
            ImageFieldOrder::Lower => c_bytes_of("OfxFieldLower"),
            ImageFieldOrder::Upper => c_bytes_of("OfxFieldUpper"),
        }
    }

    fn from_bytes(ofx_name: &[u8]) -> (r: Option<Self>) {
        if matches_c_name("OfxFieldNone", ofx_name) {
            Some(ImageFieldOrder::Null)
        } else if matches_c_name("OfxFieldLower", ofx_name) {
            Some(ImageFieldOrder::Lower)
        } else if matches_c_name("OfxFieldUpper", ofx_name) {
            Some(ImageFieldOrder::Upper)
        } else {
            None
        }
    }
}

/// How fields are extracted from interlaced frames.
#[derive(Copy, Clone, Debug, PartialEq, Eq, Structural)]
pub enum ImageFieldExtraction {
    Both,
    Single,
    Doubled,
}

impl IdentifiedEnum for ImageFieldExtraction {
    open spec fn spec_name(&self) -> Seq<u8> {
        match *self {
            ImageFieldExtraction::Both => spec_c_bytes("OfxFieldBoth"),
            ImageFieldExtraction::Single => spec_c_bytes("OfxFieldSingle"),
            ImageFieldExtraction::Doubled => spec_c_bytes("OfxFieldDoubled"),
        }
    }

    fn to_bytes(&self) -> (r: Vec<u8>) {
        match *self {
            ImageFieldExtraction::Both => c_bytes_of("OfxFieldBoth"),
            ImageFieldExtraction::Single => c_bytes_of("OfxFieldSingle"),
            ImageFieldExtraction::Doubled => c_bytes_of("OfxFieldDoubled"),
        }
    }

    fn from_bytes(ofx_name: &[u8]) -> (r: Option<Self>) {
        if matches_c_name("OfxFieldBoth", ofx_name) {
            Some(ImageFieldExtraction::Both)
        } else if matches_c_name("OfxFieldSingle", ofx_name) {
            Some(ImageFieldExtraction::Single)
        } else if matches_c_name("OfxFieldDoubled", ofx_name) {
            Some(ImageFieldExtraction::Doubled)
        } else {
            None
        }
    }
}

/// Premultiplication state of an image's alpha.
#[derive(Copy, Clone, Debug, PartialEq, Eq, Structural)]
pub enum ImageType {
    Opaque,
    PreMultiplied,
    UnPreMultiplied,
}

impl IdentifiedEnum for ImageType {
    open spec fn spec_name(&self) -> Seq<u8> {
        match *self {
            ImageType::Opaque => spec_c_bytes("OfxImageOpaque"),
            ImageType::PreMultiplied => spec_c_bytes("OfxImageAlphaPremultiplied"),
            ImageType::UnPreMultiplied => spec_c_bytes("OfxImageAlphaUnPremultiplied"),
        }
    }

    fn to_bytes(&self) -> (r: Vec<u8>) {
        match *self {
            ImageType::Opaque => c_bytes_of("OfxImageOpaque"),
            ImageType::PreMultiplied => c_bytes_of("OfxImageAlphaPremultiplied"),
            ImageType::UnPreMultiplied => c_bytes_of("OfxImageAlphaUnPremultiplied"),
        }
    }

    fn from_bytes(ofx_name: &[u8]) -> (r: Option<Self>) {
        if matches_c_name("OfxImageOpaque", ofx_name) {
            Some(ImageType::Opaque)
        } else if matches_c_name("OfxImageAlphaPremultiplied", ofx_name) {
            Some(ImageType::PreMultiplied)
        } else if matches_c_name("OfxImageAlphaUnPremultiplied", ofx_name) {
            Some(ImageType::UnPreMultiplied)
        } else {
            None
        }
    }
}

/// Presentation mode of a string parameter.
#[derive(Copy, Clone, Debug, PartialEq, Eq, Structural)]
pub enum ParamStringType {
    SingleLine,
    MultiLine,
    FilePath,
    DirectoryPath,
    Label,
    RichTextFormat,
}

impl IdentifiedEnum for ParamStringType {
    open spec fn spec_name(&self) -> Seq<u8> {
        match *self {
            ParamStringType::SingleLine => spec_c_bytes("OfxParamStringIsSingleLine"),
            ParamStringType::MultiLine => spec_c_bytes("OfxParamStringIsMultiLine"),
            ParamStringType::FilePath => spec_c_bytes("OfxParamStringIsFilePath"),
            ParamStringType::DirectoryPath => spec_c_bytes("OfxParamStringIsDirectoryPath"),
            ParamStringType::Label => spec_c_bytes("OfxParamStringIsLabel"),
            ParamStringType::RichTextFormat => spec_c_bytes("OfxParamStringIsRichTextFormat"),
        }
    }

    fn to_bytes(&self) -> (r: Vec<u8>) {
        match *self {
            ParamStringType::SingleLine => c_bytes_of("OfxParamStringIsSingleLine"),
            ParamStringType::MultiLine => c_bytes_of("OfxParamStringIsMultiLine"),
            ParamStringType::FilePath => c_bytes_of("OfxParamStringIsFilePath"),
            ParamStringType::DirectoryPath => c_bytes_of("OfxParamStringIsDirectoryPath"),
            ParamStringType::Label => c_bytes_of("OfxParamStringIsLabel"),
            ParamStringType::RichTextFormat => c_bytes_of("OfxParamStringIsRichTextFormat"),
        }
    }

    fn from_bytes(ofx_name: &[u8]) -> (r: Option<Self>) {
        if matches_c_name("OfxParamStringIsSingleLine", ofx_name) {
            Some(ParamStringType::SingleLine)
        } else if matches_c_name("OfxParamStringIsMultiLine", ofx_name) {
            Some(ParamStringType::MultiLine)
        } else if matches_c_name("OfxParamStringIsFilePath", ofx_name) {
            Some(ParamStringType::FilePath)
        } else if matches_c_name("OfxParamStringIsDirectoryPath", ofx_name) {
            Some(ParamStringType::DirectoryPath)
        } else if matches_c_name("OfxParamStringIsLabel", ofx_name) {
            Some(ParamStringType::Label)
        } else if matches_c_name("OfxParamStringIsRichTextFormat", ofx_name) {
            Some(ParamStringType::RichTextFormat)
        } else {
            None
        }
    }
}

/// Where the host's own user interface puts the image origin.
#[derive(Copy, Clone, Debug, PartialEq, Eq, Structural)]
pub enum HostNativeOrigin {
    BottomLeft,
    TopLeft,
    Center,
}

impl IdentifiedEnum for HostNativeOrigin {
    open spec fn spec_name(&self) -> Seq<u8> {
        match *self {
            HostNativeOrigin::BottomLeft => spec_c_bytes("kOfxImageEffectHostPropNativeOriginBottomLeft"),
            HostNativeOrigin::TopLeft => spec_c_bytes("kOfxImageEffectHostPropNativeOriginTopLeft"),
            HostNativeOrigin::Center => spec_c_bytes("kOfxImageEffectHostPropNativeOriginCenter"),
        }
    }

    fn to_bytes(&self) -> (r: Vec<u8>) {
        match *self {
            HostNativeOrigin::BottomLeft => c_bytes_of("kOfxImageEffectHostPropNativeOriginBottomLeft"),
            HostNativeOrigin::TopLeft => c_bytes_of("kOfxImageEffectHostPropNativeOriginTopLeft"),
            HostNativeOrigin::Center => c_bytes_of("kOfxImageEffectHostPropNativeOriginCenter"),
        }
    }

    fn from_bytes(ofx_name: &[u8]) -> (r: Option<Self>) {
        if matches_c_name("kOfxImageEffectHostPropNativeOriginBottomLeft", ofx_name) {
            Some(HostNativeOrigin::BottomLeft)
        } else if matches_c_name("kOfxImageEffectHostPropNativeOriginTopLeft", ofx_name) {
            Some(HostNativeOrigin::TopLeft)
        } else if matches_c_name("kOfxImageEffectHostPropNativeOriginCenter", ofx_name) {
            Some(HostNativeOrigin::Center)
        } else {
            None
        }
    }
}

/// Thread safety an effect declares for its renders.
#[derive(Copy, Clone, Debug, PartialEq, Eq, Structural)]
pub enum ImageEffectRender {
    Unsafe,
    InstanceSafe,
    FullySafe,
}

impl IdentifiedEnum for ImageEffectRender {
    open spec fn spec_name(&self) -> Seq<u8> {
        match *self {
            ImageEffectRender::Unsafe => spec_c_bytes("OfxImageEffectRenderUnsafe"),
            ImageEffectRender::InstanceSafe => spec_c_bytes("OfxImageEffectRenderInstanceSafe"),
            ImageEffectRender::FullySafe => spec_c_bytes("OfxImageEffectRenderFullySafe"),
        }
    }

    fn to_bytes(&self) -> (r: Vec<u8>) {
        match *self {
            ImageEffectRender::Unsafe => c_bytes_of("OfxImageEffectRenderUnsafe"),
            ImageEffectRender::InstanceSafe => c_bytes_of("OfxImageEffectRenderInstanceSafe"),
            ImageEffectRender::FullySafe => c_bytes_of("OfxImageEffectRenderFullySafe"),
        }
    }

    fn from_bytes(ofx_name: &[u8]) -> (r: Option<Self>) {
        if matches_c_name("OfxImageEffectRenderUnsafe", ofx_name) {
            Some(ImageEffectRender::Unsafe)
        } else if matches_c_name("OfxImageEffectRenderInstanceSafe", ofx_name) {
            Some(ImageEffectRender::InstanceSafe)
        } else if matches_c_name("OfxImageEffectRenderFullySafe", ofx_name) {
            Some(ImageEffectRender::FullySafe)
        } else {
            None
        }
    }
}

/// Why a parameter or instance changed.
#[derive(Copy, Clone, Debug, PartialEq, Eq, Structural)]
pub enum Change {
    UserEdited,
    PluginEdited,
    Time,
}

impl IdentifiedEnum for Change {
    open spec fn spec_name(&self) -> Seq<u8> {
        match *self {
            Change::UserEdited => spec_c_bytes("OfxChangeUserEdited"),
            Change::PluginEdited => spec_c_bytes("OfxChangePluginEdited"),
            Change::Time => spec_c_bytes("OfxChangeTime"),
        }
    }

    fn to_bytes(&self) -> (r: Vec<u8>) {
        match *self {
            Change::UserEdited => c_bytes_of("OfxChangeUserEdited"),
            Change::PluginEdited => c_bytes_of("OfxChangePluginEdited"),
            Change::Time => c_bytes_of("OfxChangeTime"),
        }
    }

    fn from_bytes(ofx_name: &[u8]) -> (r: Option<Self>) {
        if matches_c_name("OfxChangeUserEdited", ofx_name) {
            Some(Change::UserEdited)
        } else if matches_c_name("OfxChangePluginEdited", ofx_name) {
            Some(Change::PluginEdited)
        } else if matches_c_name("OfxChangeTime", ofx_name) {
            Some(Change::Time)
        } else {
            None
        }
    }
}

/// How far a parameter edit invalidates cached values.
#[derive(Copy, Clone, Debug, PartialEq, Eq, Structural)]
pub enum ParamInvalidate {
    All,
    ValueChangeToEnd,
}

impl IdentifiedEnum for ParamInvalidate {
    open spec fn spec_name(&self) -> Seq<u8> {
        match *self {
            ParamInvalidate::All => spec_c_bytes("OfxParamInvalidateAll"),
            ParamInvalidate::ValueChangeToEnd => spec_c_bytes("OfxParamInvalidateValueChangeToEnd"),
        }
    }

    fn to_bytes(&self) -> (r: Vec<u8>) {
        match *self {
            ParamInvalidate::All => c_bytes_of("OfxParamInvalidateAll"),
            ParamInvalidate::ValueChangeToEnd => c_bytes_of("OfxParamInvalidateValueChangeToEnd"),
        }
    }

    fn from_bytes(ofx_name: &[u8]) -> (r: Option<Self>) {
        if matches_c_name("OfxParamInvalidateAll", ofx_name) {
            Some(ParamInvalidate::All)
        } else if matches_c_name("OfxParamInvalidateValueChangeToEnd", ofx_name) {
            Some(ParamInvalidate::ValueChangeToEnd)
        } else {
            None
        }
    }
}

} // verus!
