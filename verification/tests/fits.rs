use rekos::fits::{
    find_header_end, fits_text_meta, header_get, header_has, header_i64, image_layout,
    layout_error_message, parse_fits_header, split_value_comment, LayoutError,
};

fn card(text: &str) -> Vec<u8> {
    let mut b = text.as_bytes().to_vec();
    assert!(b.len() <= 80);
    b.resize(80, b' ');
    b
}

fn value_card(key: &str, value: &str) -> Vec<u8> {
    card(&format!("{:<8}= {:>20}", key, value))
}

fn fits_file(cards: &[Vec<u8>], data: &[u8]) -> Vec<u8> {
    let mut out = Vec::new();
    for c in cards {
        out.extend_from_slice(c);
    }
    out.extend_from_slice(&card("END"));
    while out.len() % 2880 != 0 {
        out.push(b' ');
    }
    out.extend_from_slice(data);
    out
}

fn image(bitpix: &str, w: &str, h: &str, data: &[u8]) -> Vec<u8> {
    fits_file(
        &[
            value_card("SIMPLE", "T"),
            value_card("BITPIX", bitpix),
            value_card("NAXIS", "2"),
            value_card("NAXIS1", w),
            value_card("NAXIS2", h),
        ],
        data,
    )
}

#[test]
fn value_and_comment_split_respects_quotes() {
    assert_eq!(split_value_comment("  42 / the answer"), ("42 ".to_string(), "/ the answer".to_string()));
    assert_eq!(split_value_comment("'a/b' / path"), ("'a/b'".to_string(), "/ path".to_string()));
    assert_eq!(split_value_comment("'it''s' "), ("'it''s'".to_string(), String::new()));
    assert_eq!(split_value_comment("plain"), ("plain".to_string(), String::new()));
}

#[test]
fn header_cards_are_read_up_to_end() {
    let bytes = fits_file(
        &[
            value_card("SIMPLE", "T"),
            card("OBJECT  = 'M 31    '           / target name"),
            card("HISTORY processed by rekos"),
            value_card("XBINNING", "2"),
        ],
        &[],
    );
    let rows = parse_fits_header(&bytes).unwrap();
    assert_eq!(rows.len(), 4);
    assert_eq!(rows[1].key, "OBJECT");
    assert_eq!(rows[1].value, "M 31");
    assert_eq!(rows[1].comment, "target name");
    assert_eq!(rows[2].key, "HISTORY");
    assert_eq!(rows[2].value, "processed by rekos");
    assert_eq!(header_get(&rows, "OBJECT"), Some("M 31"));
    assert_eq!(header_i64(&rows, "XBINNING"), Some(2));
    assert!(header_has(&rows, "SIMPLE"));
    assert!(!header_has(&rows, "CRVAL1"));
    assert_eq!(find_header_end(&bytes), Ok(400));
}

#[test]
fn header_errors() {
    assert_eq!(parse_fits_header(&[b' '; 40]).err(), Some("file too short".to_string()));
    let no_end = value_card("SIMPLE", "T");
    assert_eq!(parse_fits_header(&no_end).err(), Some("no END card".to_string()));
    assert_eq!(find_header_end(&no_end), Err("no END".to_string()));
}

#[test]
fn text_meta_summarises_binning_and_solution() {
    let bytes = fits_file(
        &[
            value_card("XBINNING", "2"),
            card("IMAGETYP= 'Light Frame'"),
            card("FILTER  = 'Ha      '"),
            value_card("CRVAL1", "10.5"),
            value_card("NAXIS1", "640"),
        ],
        &[],
    );
    let rows = parse_fits_header(&bytes).unwrap();
    let m = fits_text_meta(&rows);
    assert_eq!(m.binning.as_deref(), Some("2x2"));
    assert_eq!(m.frame_type.as_deref(), Some("Light Frame"));
    assert_eq!(m.filter.as_deref(), Some("Ha"));
    assert!(m.target.is_none());
    assert!(m.plate_solved);
    assert_eq!(m.naxis1, Some(640));
    assert_eq!(m.naxis2, None);
}

#[test]
fn image_layout_locates_the_data_unit() {
    let data = vec![0u8; 4 * 3 * 2];
    let bytes = image("16", "4", "3", &data);
    let l = image_layout(&bytes).unwrap();
    assert_eq!(l.bitpix, 16);
    assert_eq!((l.width, l.height), (4, 3));
    assert_eq!(l.data_start, 2880);
    assert_eq!(l.data_end, 2880 + 24);
}

#[test]
fn image_layout_errors() {
    let short = image("16", "4", "3", &[0u8; 10]);
    match image_layout(&short) {
        Err(e @ LayoutError::Truncated { .. }) => {
            assert_eq!(layout_error_message(&e), "truncated: need 2904 have 2890");
        }
        _ => panic!("expected truncation"),
    }
    let odd = image("12", "1", "1", &[0u8; 1]);
    match image_layout(&odd) {
        Err(e @ LayoutError::Unsupported(12)) => {
            assert_eq!(layout_error_message(&e), "unsupported BITPIX 12");
        }
        _ => panic!("expected unsupported"),
    }
    let flat = fits_file(&[value_card("BITPIX", "8"), value_card("NAXIS", "1")], &[]);
    assert!(matches!(image_layout(&flat), Err(LayoutError::NotImage)));
    let nobit = fits_file(&[value_card("NAXIS", "2")], &[]);
    match image_layout(&nobit) {
        Err(e) => assert_eq!(layout_error_message(&e), "missing BITPIX"),
        Ok(_) => panic!(),
    }
}
