use ofx::enums::{
    BitDepth, Change, HostNativeOrigin, IdentifiedEnum, ImageComponent, ImageEffectContext,
    ImageField, ImageType, ParamType, Type,
};

#[test]
fn auto_enum_names() {
    assert!(ImageEffectContext::Filter.to_bytes() == b"OfxImageEffectContextFilter\0".to_vec());
    assert!(ImageEffectContext::General.to_bytes() == b"OfxImageEffectContextGeneral\0".to_vec());
    assert!(ImageEffectContext::Retimer.to_bytes() == b"OfxImageEffectContextRetimer\0".to_vec());
}

#[test]
fn from_enum_names() {
    assert!(
        ImageEffectContext::from_bytes(b"OfxImageEffectContextFilter\0")
            == Some(ImageEffectContext::Filter)
    );
    assert!(
        ImageEffectContext::from_bytes(b"OfxImageEffectContextGeneral\0")
            == Some(ImageEffectContext::General)
    );
    assert!(
        ImageEffectContext::from_bytes(b"OfxImageEffectContextRetimer\0")
            == Some(ImageEffectContext::Retimer)
    );
    assert!(
        ImageEffectContext::from_bytes(b"OfxImageEffectContextGeneral\0")
            == Some(ImageEffectContext::General)
    );
    assert!(
        ImageEffectContext::from_bytes(b"OfxImageEffectContextRetimer\0")
            == Some(ImageEffectContext::Retimer)
    );
}

#[test]
fn enum_round_trips() {
    let values = [
        Type::ImageEffectHost,
        Type::ImageEffect,
        Type::ImageEffectInstance,
        Type::Parameter,
        Type::ParameterInstance,
        Type::Clip,
        Type::Image,
    ];
    for v in values {
        assert_eq!(Type::from_bytes(v.to_bytes().as_slice()), Some(v));
    }
    let depths = [
        BitDepth::Null,
        BitDepth::Byte,
        BitDepth::Short,
        BitDepth::Half,
        BitDepth::Float,
    ];
    for v in depths {
        assert_eq!(BitDepth::from_bytes(v.to_bytes().as_slice()), Some(v));
    }
    let changes = [Change::UserEdited, Change::PluginEdited, Change::Time];
    for v in changes {
        assert_eq!(Change::from_bytes(v.to_bytes().as_slice()), Some(v));
    }
}

#[test]
fn irregular_protocol_names() {
    // The published headers use "OfxField..." for the image-field values,
    // "OfxImageAlpha..." for premultiplication, and carry the constant's
    // leading letter in the host-origin strings.
    assert_eq!(ImageField::Null.to_bytes(), b"OfxFieldNone\0".to_vec());
    assert_eq!(ImageField::Both.to_bytes(), b"OfxFieldBoth\0".to_vec());
    assert_eq!(
        ImageType::PreMultiplied.to_bytes(),
        b"OfxImageAlphaPremultiplied\0".to_vec()
    );
    assert_eq!(
        ImageType::UnPreMultiplied.to_bytes(),
        b"OfxImageAlphaUnPremultiplied\0".to_vec()
    );
    assert_eq!(ImageType::Opaque.to_bytes(), b"OfxImageOpaque\0".to_vec());
    assert_eq!(
        HostNativeOrigin::BottomLeft.to_bytes(),
        b"kOfxImageEffectHostPropNativeOriginBottomLeft\0".to_vec()
    );
    assert_eq!(
        ImageField::from_bytes(b"OfxFieldLower\0"),
        Some(ImageField::Lower)
    );
    assert_eq!(ImageField::from_bytes(b"OfxImageFieldLower\0"), None);
}

#[test]
fn unrecognized_enum_names() {
    assert_eq!(ImageEffectContext::from_bytes(b"OfxImageEffectContextPaint\0"), None);
    assert_eq!(ImageEffectContext::from_bytes(b"OfxImageEffectContextGeneral"), None);
    assert_eq!(ParamType::from_bytes(b""), None);
}

#[test]
fn enum_helpers() {
    assert!(ImageEffectContext::General.is_general());
    assert!(!ImageEffectContext::Filter.is_general());
    assert!(ImageEffectContext::Retimer.is_retimer());
    assert_eq!(BitDepth::Null.bits(), 0);
    assert_eq!(BitDepth::Byte.bits(), 8);
    assert_eq!(BitDepth::Short.bits(), 16);
    assert_eq!(BitDepth::Half.bits(), 16);
    assert_eq!(BitDepth::Float.bits(), 32);
    assert!(ImageComponent::Alpha.is_alpha());
    assert!(!ImageComponent::RGBA.is_alpha());
    assert!(ImageComponent::RGB.is_rgb());
    assert!(!ImageComponent::Alpha.is_rgb());
    assert_eq!(
        ParamType::Text.to_bytes(),
        b"OfxParamTypeString\0".to_vec()
    );
    assert_eq!(
        ParamType::from_bytes(b"OfxParamTypePushButton\0"),
        Some(ParamType::PushButton)
    );
}
