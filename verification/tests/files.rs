use rekos::files::{
    image_thumbnail,
    default_thumb_size, extension, is_fits_ext, list_entries, may_serve, parent_of, raw_plan,
    raw_reply, relative_to, sandbox_relative, thumb_cache_name, thumb_cache_path, thumb_side,
    CanonPath, FsItem, RawPlan, RawReply,
};

fn path(parts: &[&str]) -> CanonPath {
    CanonPath { parts: parts.iter().map(|p| p.to_string()).collect() }
}

fn item(name: &str, is_dir: bool) -> FsItem {
    FsItem { name: name.to_string(), is_dir, is_file: !is_dir, size: if is_dir { 0 } else { 100 }, mtime: 7 }
}

#[test]
fn thumbnail_sizes() {
    assert_eq!(default_thumb_size(), 256);
    assert_eq!(thumb_side(0), 64);
    assert_eq!(thumb_side(10), 64);
    assert_eq!(thumb_side(5000), 1024);
    assert_eq!(thumb_side(300), 300);
}

#[test]
fn requested_paths_are_made_relative() {
    assert_eq!(sandbox_relative("/a/b"), "a/b");
    assert_eq!(sandbox_relative("//x"), "x");
    assert_eq!(sandbox_relative("rel"), "rel");
}

#[test]
fn paths_relative_to_the_root() {
    let root = path(&["home", "astro", "captures"]);
    let child = path(&["home", "astro", "captures", "2024", "m31.fits"]);
    assert_eq!(relative_to(&root, &child), "2024/m31.fits");
    assert_eq!(relative_to(&root, &root), "");
    assert_eq!(parent_of(&root, &child).as_deref(), Some("2024"));
    assert_eq!(parent_of(&root, &path(&["home", "astro", "captures", "2024"])).as_deref(), Some(""));
    assert_eq!(parent_of(&root, &root), None);
    assert!(may_serve(&root, &child));
    assert!(!may_serve(&root, &path(&["home", "astro"])));
    assert!(!may_serve(&root, &path(&["etc", "passwd"])));
}

#[test]
fn extensions_are_lowercased() {
    assert_eq!(extension("M31.FITS"), "fits");
    assert_eq!(extension("archive.tar.gz"), "gz");
    assert_eq!(extension("README"), "");
    assert!(is_fits_ext("fit"));
    assert!(is_fits_ext("fts"));
    assert!(!is_fits_ext("jpg"));
}

#[test]
fn raw_download_plan() {
    assert_eq!(raw_plan("fits", &Some("preview".to_string())), RawPlan::FitsPreview);
    assert_eq!(raw_plan("fits", &None), RawPlan::Bytes);
    assert_eq!(raw_plan("jpg", &Some("preview".to_string())), RawPlan::Bytes);
}

#[test]
fn listing_puts_directories_first_sorted_and_hides_dotfiles() {
    let items = vec![
        item("b.fits", false),
        item(".rekos-thumbs", true),
        item("Zeta", true),
        item("alpha", true),
        item("A.jpg", false),
        item(".hidden", false),
    ];
    let l = list_entries(&items);
    let names: Vec<&str> = l.iter().map(|e| e.name.as_str()).collect();
    assert_eq!(names, vec!["alpha", "Zeta", "A.jpg", "b.fits"]);
    assert_eq!(l[0].kind, "dir");
    assert_eq!(l[0].size, 0);
    assert_eq!(l[0].ext, "");
    assert_eq!(l[2].kind, "file");
    assert_eq!(l[2].ext, "jpg");
    assert_eq!(l[3].size, 100);
}

#[test]
fn thumbnail_cache_lives_in_a_hidden_folder() {
    assert_eq!(thumb_cache_name(0xab, 256), "00000000000000ab_256.jpg");
    let root = path(&["data"]);
    let t = thumb_cache_path(&root, &path(&["data", "x.fits"]), 128, 5);
    assert_eq!(t.parts.len(), 3);
    assert_eq!(t.parts[0], "data");
    assert_eq!(t.parts[1], ".rekos-thumbs");
    assert!(t.parts[2].ends_with("_128.jpg"));
    let again = thumb_cache_path(&root, &path(&["data", "x.fits"]), 128, 5);
    assert_eq!(t.parts[2], again.parts[2]);
}

#[test]
fn raw_reply_types_bytes_by_path() {
    let png = raw_reply(&path(&["data", "shot.png"]), &None);
    assert!(matches!(png, RawReply::Bytes { ref content_type } if content_type == "image/png"));
    let fits_bytes = raw_reply(&path(&["data", "m31.fits"]), &None);
    assert!(matches!(fits_bytes, RawReply::Bytes { .. }));
    let preview = raw_reply(&path(&["data", "M31.FITS"]), &Some("preview".to_string()));
    assert!(matches!(preview, RawReply::FitsPreview));
    let unknown = raw_reply(&path(&["data", "notes.zzqq"]), &None);
    assert!(matches!(unknown, RawReply::Bytes { ref content_type } if content_type == "application/octet-stream"));
}

fn png_bytes(w: u32, h: u32) -> Vec<u8> {
    let img = image::RgbImage::from_pixel(w, h, image::Rgb([200, 40, 10]));
    let mut out = Vec::new();
    image::DynamicImage::ImageRgb8(img)
        .write_to(&mut std::io::Cursor::new(&mut out), image::ImageFormat::Png)
        .unwrap();
    out
}

#[test]
fn image_thumbnail_is_a_jpeg_fitted_to_the_clamped_edge() {
    let png = png_bytes(200, 100);
    let jpeg = image_thumbnail(&png, 10).unwrap();
    assert_eq!(&jpeg[..2], &[0xff, 0xd8]);
    let back = image::load_from_memory(&jpeg).unwrap();
    assert_eq!((back.width(), back.height()), (64, 32));
    let big = image::load_from_memory(&image_thumbnail(&png, 100).unwrap()).unwrap();
    assert_eq!((big.width(), big.height()), (100, 50));
    assert!(image_thumbnail(b"not an image", 256).is_err());
}
