use rekos::sequence::{build_esq_xml, frame_type_options, SeqFrame};

#[test]
fn default_frame_row() {
    let f = SeqFrame::new_default();
    assert_eq!(f.frame_type, "Light");
    assert_eq!(f.exposure, "120");
    assert_eq!(f.count, "10");
    assert_eq!(f.gain, "100");
    assert!(f.filter.is_empty());
}

#[test]
fn frame_types_fall_back_to_the_standard_four() {
    assert_eq!(frame_type_options(vec![]), vec!["Light", "Dark", "Bias", "Flat"]);
    assert_eq!(frame_type_options(vec!["Light".to_string()]), vec!["Light"]);
}

#[test]
fn esq_document_for_one_frame() {
    let mut f = SeqFrame::new_default();
    f.filter = "Ha".to_string();
    f.offset = "10".to_string();
    let xml = build_esq_xml("M31", "/captures", &[f]);
    assert!(xml.starts_with("<?xml version=\"1.0\" encoding=\"UTF-8\"?>\n<SequenceQueue version='2.1'>\n"));
    assert!(xml.ends_with("</Job>\n</SequenceQueue>\n"));
    assert!(xml.contains("<Job>\n<Exposure>120</Exposure>\n<Format>FITS</Format>\n<Encoding>FITS</Encoding>\n<Binning><X>1</X><Y>1</Y></Binning>\n"));
    assert!(xml.contains("<Filter>Ha</Filter>\n<Type>Light</Type>\n<Count>10</Count>\n<Delay>0</Delay>\n<TargetName>M31</TargetName>\n"));
    assert!(xml.contains("<FITSDirectory>/captures</FITSDirectory>\n"));
    assert!(xml.contains("<Properties>\n<PropertyVector name='CCD_GAIN'><OneElement name='GAIN'>100</OneElement></PropertyVector>\n<PropertyVector name='CCD_OFFSET'><OneElement name='OFFSET'>10</OneElement></PropertyVector>\n</Properties>\n"));
    assert!(!xml.contains("<ISOIndex>"));
}

#[test]
fn esq_document_without_frames_or_target() {
    let mut f = SeqFrame::new_default();
    f.gain = String::new();
    f.format = String::new();
    let xml = build_esq_xml("", "", &[f]);
    assert!(!xml.contains("<TargetName>"));
    assert!(xml.contains("<Format>FITS</Format>"));
    assert!(xml.contains("<Properties/>\n"));
    let empty = build_esq_xml("x", "y", &[]);
    assert!(empty.ends_with("<RefocusOnMeridianFlip enabled='false'/>\n</SequenceQueue>\n"));
}
