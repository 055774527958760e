use rbrt_core::spectrum::SpectrumType;

#[test]
fn spectrum_tags_are_distinct() {
    assert_ne!(SpectrumType::Reflectance, SpectrumType::Illuminant);
    assert_eq!(SpectrumType::Reflectance, SpectrumType::Reflectance);
}

#[test]
fn spectrum_tags_copy() {
    let tag = SpectrumType::Illuminant;
    let copy = tag;
    assert_eq!(tag, copy);
}
