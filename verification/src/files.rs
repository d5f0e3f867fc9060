//! Captures-folder browser: request parameters, the sandbox rule that keeps
//! every path inside the captures root, path arithmetic on canonical paths,
//! file extensions, thumbnail cache naming, image thumbnails and directory
//! listing order.

use std::collections::hash_map::DefaultHasher;
use std::hash::{Hash, Hasher};
use std::io::Cursor;

use vstd::bytes::{spec_u64_to_le_bytes, u64_to_le_bytes};
use vstd::prelude::*;
use vstd::std_specs::hash::DefaultHasherAdditionalSpecFns;
use vstd::utf8::encode_utf8;

use crate::text::{
    chars_eq, chars_eq_str, chars_of, copy_range, decimal, hex16, lowercase, push_decimal,
    push_hex16, push_str, string_of, to_lowercase,
};

verus! {

// ── Query parameters ─────────────────────────────────────────────────────────

/// `?path=<rel>` of `/list` and `/meta`.
#[derive(Clone, Debug)]
pub struct PathQ {
    pub path: String,
}

/// `?path=<rel>&size=N` of `/thumb`.
#[derive(Clone, Debug)]
pub struct ThumbQ {
    pub path: String,
    pub size: u32,
}

/// `?path=<rel>[&as=preview]` of `/raw`; `as` is held in `as_format`.
#[derive(Clone, Debug)]
pub struct RawQ {
    pub path: String,
    pub as_format: Option<String>,
}

/// Thumbnail edge used when the request gives none.
pub fn default_thumb_size() -> (r: u32)
    ensures
        r == 256,
{
    256
}

/// A requested thumbnail edge clamped to `64..=1024`.
pub open spec fn clamped_side(size: u32) -> u32 {
    if size < 64 {
        64
    } else if size > 1024 {
        1024
    } else {
        size
    }
}

/// The thumbnail edge actually produced: the request clamped to `64..=1024`.
pub fn thumb_side(size: u32) -> (r: u32)
    ensures
        r == clamped_side(size),
{
    if size < 64 {
        64
    } else if size > 1024 {
        1024
    } else {
        size
    }
}

// ── Canonical paths ──────────────────────────────────────────────────────────

/// An absolute, canonical path as its list of components (`/` is the empty list).
#[derive(Clone, Debug)]
pub struct CanonPath {
    pub parts: Vec<String>,
}

impl View for CanonPath {
    type V = Seq<Seq<char>>;

    open spec fn view(&self) -> Seq<Seq<char>> {
        self.parts@.map_values(|s: String| s@)
    }
}

/// Components joined with `/`.
pub open spec fn join_parts(parts: Seq<Seq<char>>) -> Seq<char>
    decreases parts.len(),
{
    if parts.len() == 0 {
        seq![]
    } else if parts.len() == 1 {
        parts[0]
    } else {
        join_parts(parts.drop_last()) + seq!['/'] + parts.last()
    }
}

/// The text of an absolute path.
pub open spec fn path_text(parts: Seq<Seq<char>>) -> Seq<char> {
    seq!['/'] + join_parts(parts)
}

/// Whether `root` is a leading run of components of `p`.
pub open spec fn is_within(root: Seq<Seq<char>>, p: Seq<Seq<char>>) -> bool {
    root.len() <= p.len() && p.subrange(0, root.len() as int) == root
}

/// `Path::strip_prefix` then `to_string_lossy`, or `""` when `p` is not
/// under `root`.
pub open spec fn relative_text(root: Seq<Seq<char>>, p: Seq<Seq<char>>) -> Seq<char> {
    if is_within(root, p) {
        join_parts(p.subrange(root.len() as int, p.len() as int))
    } else {
        seq![]
    }
}

/// The parent of `p` relative to `root`: `None` for the root itself and for `/`.
pub open spec fn parent_text(root: Seq<Seq<char>>, p: Seq<Seq<char>>) -> Option<Seq<char>> {
    if p == root || p.len() == 0 {
        None
    } else {
        Some(relative_text(root, p.drop_last()))
    }
}

fn push_joined(out: &mut Vec<char>, parts: &Vec<String>, lo: usize, hi: usize)
    requires
        lo <= hi <= parts@.len(),
    ensures
        final(out)@ == old(out)@ + join_parts(
            parts@.map_values(|s: String| s@).subrange(lo as int, hi as int),
        ),
{
    let ghost pv = parts@.map_values(|s: String| s@);
    let ghost start = out@;
    let mut i = lo;
    assert(pv.subrange(lo as int, lo as int) =~= seq![]);
    while i < hi
        invariant
            lo <= i <= hi <= parts@.len(),
            pv == parts@.map_values(|s: String| s@),
            out@ == start + join_parts(pv.subrange(lo as int, i as int)),
        decreases hi - i,
    {
        let ghost before = out@;
        if i > lo {
            out.push('/');
        }
        push_str(out, parts[i].as_str());
        proof {
            let s2 = pv.subrange(lo as int, i + 1);
            assert(s2.drop_last() =~= pv.subrange(lo as int, i as int));
            assert(s2.last() == parts@[i as int]@);
            if i == lo {
                assert(s2.len() == 1);
                assert(out@ =~= start + join_parts(s2));
            } else {
                assert(out@ =~= start + join_parts(s2));
            }
        }
        i += 1;
    }
}

/// Whether `p` lies inside `root` (component-wise prefix).
pub fn path_within(root: &CanonPath, p: &CanonPath) -> (r: bool)
    ensures
        r == is_within(root@, p@),
{
    if root.parts.len() > p.parts.len() {
        return false;
    }
    let mut i: usize = 0;
    while i < root.parts.len()
        invariant
            root.parts@.len() <= p.parts@.len(),
            i <= root.parts@.len(),
            forall|j: int| 0 <= j < i ==> #[trigger] p@[j] == root@[j],
        decreases root.parts.len() - i,
    {
        let a = chars_of(root.parts[i].as_str());
        let b = chars_of(p.parts[i].as_str());
        if !chars_eq(&a, &b) {
            assert(p@.subrange(0, root@.len() as int)[i as int] != root@[i as int]);
            return false;
        }
        i += 1;
    }
    assert(p@.subrange(0, root@.len() as int) =~= root@);
    true
}

/// The path of `p` relative to `root`, `""` when it is not under `root`.
pub fn relative_to(root: &CanonPath, p: &CanonPath) -> (r: String)
    ensures
        r@ == relative_text(root@, p@),
{
    let mut out: Vec<char> = Vec::new();
    if path_within(root, p) {
        push_joined(&mut out, &p.parts, root.parts.len(), p.parts.len());
        assert(out@ =~= relative_text(root@, p@));
    }
    string_of(out.as_slice())
}

fn paths_equal(a: &CanonPath, b: &CanonPath) -> (r: bool)
    ensures
        r == (a@ == b@),
{
    if a.parts.len() != b.parts.len() {
        return false;
    }
    let r = path_within(a, b);
    proof {
        if r {
            assert(b@.subrange(0, a@.len() as int) =~= b@);
        } else {
            assert(b@.subrange(0, a@.len() as int) =~= b@);
        }
    }
    r
}

/// The parent directory of `p` relative to `root`; `None` at the root.
pub fn parent_of(root: &CanonPath, p: &CanonPath) -> (r: Option<String>)
    ensures
        match parent_text(root@, p@) {
            Some(t) => r matches Some(s) && s@ == t,
            None => r is None,
        },
{
    if paths_equal(p, root) || p.parts.len() == 0 {
        return None;
    }
    let mut out: Vec<char> = Vec::new();
    let n = p.parts.len() - 1;
    if root.parts.len() <= n {
        let mut i: usize = 0;
        let mut ok = true;
        while i < root.parts.len()
            invariant
                root.parts@.len() <= n,
                n + 1 == p.parts@.len(),
                i <= root.parts@.len(),
                ok == (forall|j: int| 0 <= j < i ==> #[trigger] p@[j] == root@[j]),
            decreases root.parts.len() - i,
        {
            let a = chars_of(root.parts[i].as_str());
            let b = chars_of(p.parts[i].as_str());
            assert(root@[i as int] == a@);
            assert(p@[i as int] == b@);
            if !chars_eq(&a, &b) {
                ok = false;
            }
            i += 1;
        }
        proof {
            let q = p@.drop_last();
            assert(q.subrange(0, root@.len() as int) =~= root@ <==> ok);
        }
        if ok {
            push_joined(&mut out, &p.parts, root.parts.len(), n);
            proof {
                let q = p@.drop_last();
                assert(q.subrange(root@.len() as int, q.len() as int) =~= p@.subrange(
                    root@.len() as int,
                    n as int,
                ));
            }
        }
    }
    proof {
        let q = p@.drop_last();
        if !(root@.len() <= q.len()) {
            assert(out@ =~= relative_text(root@, q));
        }
    }
    Some(string_of(out.as_slice()))
}

/// A requested relative path with its leading `/` and `\` removed, so that
/// absolute-looking input is read as relative to the root.
pub open spec fn strip_separators(s: Seq<char>) -> Seq<char>
    decreases s.len(),
{
    if s.len() > 0 && (s[0] == '/' || s[0] == '\\') {
        strip_separators(s.drop_first())
    } else {
        s
    }
}

/// Removes leading `/` and `\` from a requested path.
pub fn sandbox_relative(rel: &str) -> (r: String)
    ensures
        r@ == strip_separators(rel@),
{
    let v = chars_of(rel);
    let mut a: usize = 0;
    assert(v@.subrange(0, v@.len() as int) =~= v@);
    while a < v.len() && (v[a] == '/' || v[a] == '\\')
        invariant
            a <= v@.len(),
            strip_separators(v@) == strip_separators(v@.subrange(a as int, v@.len() as int)),
        decreases v.len() - a,
    {
        assert(v@.subrange(a as int, v@.len() as int).drop_first() =~= v@.subrange(
            a + 1,
            v@.len() as int,
        ));
        a += 1;
    }
    proof {
        assert(v@.subrange(0, v@.len() as int) =~= v@);
    }
    let t = copy_range(&v, a, v.len());
    string_of(t.as_slice())
}

/// Whether a canonical target may be served: it must stay inside the
/// canonical root, which rules out `..` traversal and outward symlinks.
pub fn may_serve(root: &CanonPath, target: &CanonPath) -> (r: bool)
    ensures
        r == is_within(root@, target@),
{
    path_within(root, target)
}

// ── Extensions ───────────────────────────────────────────────────────────────

/// Index of the last `.` in `s`, if any.
pub open spec fn last_dot(s: Seq<char>) -> Option<int>
    decreases s.len(),
{
    if s.len() == 0 {
        None
    } else if s.last() == '.' {
        Some(s.len() - 1)
    } else {
        last_dot(s.drop_last())
    }
}

/// `Path::extension` of a file name: the text after its last `.`, unless the
/// name has no `.`, starts with its only `.`, or is `..`.
pub open spec fn name_extension(name: Seq<char>) -> Option<Seq<char>> {
    if name == seq!['.', '.'] {
        None
    } else {
        match last_dot(name) {
            Some(k) => if k == 0 {
                None
            } else {
                Some(name.subrange(k + 1, name.len() as int))
            },
            None => None,
        }
    }
}

/// The lowercased extension of a file name, `""` when it has none.
pub open spec fn extension_text(name: Seq<char>) -> Seq<char> {
    match name_extension(name) {
        Some(e) => lowercase(e),
        None => seq![],
    }
}

/// The lowercased extension of a file name, `""` when it has none.
pub fn extension(name: &str) -> (r: String)
    ensures
        r@ == extension_text(name@),
{
    let v = chars_of(name);
    let dd = vec!['.', '.'];
    if chars_eq(&v, &dd) {
        return String::new();
    }
    let mut k = v.len();
    assert(v@.subrange(0, v@.len() as int) =~= v@);
    while k > 0 && v[k - 1] != '.'
        invariant
            k <= v@.len(),
            last_dot(v@) == last_dot(v@.subrange(0, k as int)),
        decreases k,
    {
        assert(v@.subrange(0, k as int).drop_last() =~= v@.subrange(0, k - 1));
        k -= 1;
    }
    proof {
        assert(v@.subrange(0, v@.len() as int) =~= v@);
    }
    if k <= 1 {
        return String::new();
    }
    let e = copy_range(&v, k, v.len());
    let es = string_of(e.as_slice());
    to_lowercase(es.as_str())
}

/// Whether an extension names a FITS file.
pub open spec fn fits_extension(ext: Seq<char>) -> bool {
    ext == "fits"@ || ext == "fit"@ || ext == "fts"@
}

/// Whether an extension names a FITS file (`fits`, `fit`, `fts`).
pub fn is_fits_ext(ext: &str) -> (r: bool)
    ensures
        r == fits_extension(ext@),
{
    let v = chars_of(ext);
    chars_eq_str(&v, "fits") || chars_eq_str(&v, "fit") || chars_eq_str(&v, "fts")
}

// ── Raw downloads ────────────────────────────────────────────────────────────

/// How `/raw` answers.
#[derive(Clone, Copy, Debug, PartialEq, Eq)]
pub enum RawPlan {
    /// A full-resolution JPEG rendering of a FITS image.
    FitsPreview,
    /// The file's own bytes.
    Bytes,
}

/// A preview is rendered only for FITS files whose request says `as=preview`.
pub fn raw_plan(ext: &str, as_format: &Option<String>) -> (r: RawPlan)
    ensures
        r == (if (as_format matches Some(a) && a@ == "preview"@) && fits_extension(ext@) {
            RawPlan::FitsPreview
        } else {
            RawPlan::Bytes
        }),
{
    let want = match as_format {
        Some(a) => {
            let v = chars_of(a.as_str());
            chars_eq_str(&v, "preview")
        },
        None => false,
    };
    if want && is_fits_ext(ext) {
        RawPlan::FitsPreview
    } else {
        RawPlan::Bytes
    }
}

/// The last component of a path, `""` for the root.
pub open spec fn final_part(p: Seq<Seq<char>>) -> Seq<char> {
    if p.len() == 0 {
        seq![]
    } else {
        p.last()
    }
}

/// What `/raw` answers for a file.
#[derive(Clone, Debug)]
pub enum RawReply {
    /// A full-resolution JPEG rendering of a FITS image.
    FitsPreview,
    /// The file's own bytes, sent with this media type.
    Bytes { content_type: String },
}

/// The answer of `/raw` for `target`: a FITS preview when the request says
/// `as=preview` and the file's extension is a FITS one; otherwise the bytes,
/// typed by what `mime_guess` makes of the path.
pub fn raw_reply(target: &CanonPath, as_format: &Option<String>) -> (r: RawReply)
    ensures
        (r is FitsPreview) <==> ((as_format matches Some(a) && a@ == "preview"@)
            && fits_extension(extension_text(final_part(target@)))),
        r matches RawReply::Bytes { content_type } ==> content_type@ == guessed_mime(
            path_text(target@),
        ),
{
    let n = target.parts.len();
    let ext = if n == 0 {
        extension("")
    } else {
        extension(target.parts[n - 1].as_str())
    };
    proof {
        if n == 0 {
            reveal_strlit("");
            assert(""@ =~= seq![]);
        }
    }
    match raw_plan(ext.as_str(), as_format) {
        RawPlan::FitsPreview => RawReply::FitsPreview,
        RawPlan::Bytes => {
            let text = path_string(target);
            RawReply::Bytes { content_type: content_type_for(text.as_str()) }
        },
    }
}

/// The media type `mime_guess` gives a path (from its extension), with
/// `application/octet-stream` when it knows none.
pub uninterp spec fn guessed_mime(path: Seq<char>) -> Seq<char>;

/// `mime_guess::from_path(path).first_or_octet_stream()`, as its essence
/// string: a function of the path's extension alone (named [`guessed_mime`]).
#[verifier::external_body]
pub(crate) fn content_type_for(path: &str) -> (r: String)
    ensures
        r@ == guessed_mime(path@),
{
    mime_guess::from_path(path).first_or_octet_stream().essence_str().to_string()
}

// ── Image thumbnails ─────────────────────────────────────────────────────────

/// What the `image` crate makes of an encoded picture: decoded from its
/// bytes, scaled to fit a `max_side` × `max_side` box with its aspect ratio
/// kept, and encoded as JPEG; `None` when it cannot be decoded or encoded.
pub uninterp spec fn jpeg_thumbnail(bytes: Seq<u8>, max_side: u32) -> Option<Seq<u8>>;

/// `image::load_from_memory`, `DynamicImage::thumbnail` and `write_to` as
/// JPEG: the thumbnail's bytes, or the crate's error text. The result is a
/// function of the bytes and the box alone (named [`jpeg_thumbnail`]); the
/// error text is not stated.
#[verifier::external_body]
pub(crate) fn image_resize_jpeg(bytes: &[u8], max_side: u32) -> (r: Result<Vec<u8>, String>)
    ensures
        match jpeg_thumbnail(bytes@, max_side) {
            Some(b) => r matches Ok(v) && v@ == b,
            None => r is Err,
        },
{
    let img = image::load_from_memory(bytes).map_err(|e| e.to_string())?;
    let resized = img.thumbnail(max_side, max_side);
    let mut out = Vec::new();
    resized.write_to(&mut Cursor::new(&mut out), image::ImageFormat::Jpeg).map_err(|e| e.to_string())?;
    Ok(out)
}

/// The JPEG thumbnail of a JPEG or PNG picture for a requested edge: the
/// picture fitted into a square of the clamped edge (see [`thumb_side`]).
pub fn image_thumbnail(bytes: &[u8], size: u32) -> (r: Result<Vec<u8>, String>)
    ensures
        match jpeg_thumbnail(bytes@, clamped_side(size)) {
            Some(b) => r matches Ok(v) && v@ == b,
            None => r is Err,
        },
{
    image_resize_jpeg(bytes, thumb_side(size))
}

// ── Thumbnail cache ──────────────────────────────────────────────────────────

/// `<Path as Hash>::hash`: feeds the path (its components) to the hasher.
/// What it writes is not stated.
#[verifier::external_body]
#[allow(dead_code)]
fn hash_path_into(h: &mut DefaultHasher, path: &str) {
    std::path::Path::new(path).hash(h);
}

/// `<u64 as Hash>::hash`: feeds the integer (in native byte order) to the
/// hasher. What it writes is not stated.
#[verifier::external_body]
#[allow(dead_code)]
fn hash_u64_into(h: &mut DefaultHasher, x: u64) {
    x.hash(h);
}

/// What the thumbnail cache key hashes: the target's path text (UTF-8) and
/// its modification time (8 bytes, little-endian), written in that order.
pub open spec fn thumb_key_input(target: Seq<Seq<char>>, mtime: u64) -> Seq<Seq<u8>> {
    seq![encode_utf8(path_text(target)), spec_u64_to_le_bytes(mtime)]
}

/// The thumbnail cache key of a target and its modification time: the
/// standard library's `DefaultHasher` over [`thumb_key_input`].
pub open spec fn thumb_key(target: Seq<Seq<char>>, mtime: u64) -> u64 {
    DefaultHasher::spec_finish(thumb_key_input(target, mtime))
}

/// The standard library's `DefaultHasher` over a path's text and a
/// modification time.
fn path_hash(path: &str, mtime: u64) -> (h: u64)
    ensures
        h == DefaultHasher::spec_finish(seq![encode_utf8(path@), spec_u64_to_le_bytes(mtime)]),
{
    let mut h = DefaultHasher::new();
    let b = path.as_bytes();
    assert(b@ == encode_utf8(path@));
    h.write(b);
    let m = u64_to_le_bytes(mtime);
    h.write(m.as_slice());
    assert(h@ =~= seq![encode_utf8(path@), spec_u64_to_le_bytes(mtime)]);
    h.finish()
}

/// The cache file name for a hash and an edge: `{hash:016x}_{size}.jpg`.
pub open spec fn thumb_name(hash: u64, size: u32) -> Seq<char> {
    hex16(hash) + seq!['_'] + decimal(size as nat) + ".jpg"@
}

/// The cache file name for a hash and an edge.
pub fn thumb_cache_name(hash: u64, size: u32) -> (r: String)
    ensures
        r@ == thumb_name(hash, size),
{
    let mut v: Vec<char> = Vec::new();
    push_hex16(&mut v, hash);
    v.push('_');
    push_decimal(&mut v, size as u64);
    push_str(&mut v, ".jpg");
    assert(v@ =~= thumb_name(hash, size));
    string_of(v.as_slice())
}

/// The text of an absolute path.
pub fn path_string(p: &CanonPath) -> (r: String)
    ensures
        r@ == path_text(p@),
{
    let mut v: Vec<char> = Vec::new();
    v.push('/');
    push_joined(&mut v, &p.parts, 0, p.parts.len());
    proof {
        assert(p@.subrange(0, p@.len() as int) =~= p@);
        assert(v@ =~= path_text(p@));
    }
    string_of(v.as_slice())
}

/// Where the thumbnail of `target` (with modification time `mtime`) at edge
/// `size` is cached: `<root>/.rekos-thumbs/<hash>_<size>.jpg`, the hash
/// covering the target path and its modification time.
pub fn thumb_cache_path(root: &CanonPath, target: &CanonPath, size: u32, mtime: u64) -> (r:
    CanonPath)
    ensures
        exists|h: u64| r@ == root@ + seq![".rekos-thumbs"@, #[trigger] thumb_name(h, size)],
        r@ == root@ + seq![".rekos-thumbs"@, thumb_name(thumb_key(target@, mtime), size)],
{
    let text = path_string(target);
    let h = path_hash(text.as_str(), mtime);
    let name = thumb_cache_name(h, size);
    let mut parts = root.parts.clone();
    let ghost before = parts@;
    parts.push(String::from_str(".rekos-thumbs"));
    parts.push(name);
    let r = CanonPath { parts };
    proof {
        assert(before.map_values(|s: String| s@) == root@);
        assert(r@ =~= root@ + seq![".rekos-thumbs"@, thumb_name(h, size)]);
    }
    r
}

/// The cache key tells targets apart: two targets with different paths, or
/// one target at two modification times, are hashed from different inputs,
/// so the key of one is never the key of the other by construction (only
/// by a collision of the hasher itself).
pub proof fn law_thumb_key_tells_targets_apart(
    t1: Seq<Seq<char>>,
    m1: u64,
    t2: Seq<Seq<char>>,
    m2: u64,
)
    requires
        path_text(t1) != path_text(t2) || m1 != m2,
    ensures
        thumb_key_input(t1, m1) != thumb_key_input(t2, m2),
{
    if thumb_key_input(t1, m1) == thumb_key_input(t2, m2) {
        let a = thumb_key_input(t1, m1);
        let b = thumb_key_input(t2, m2);
        assert(a[0] == b[0] && a[1] == b[1]);
        vstd::utf8::encode_utf8_decode_utf8(path_text(t1));
        vstd::utf8::encode_utf8_decode_utf8(path_text(t2));
        vstd::bytes::lemma_auto_spec_u64_to_from_le_bytes();
    }
}

// ── Directory listing ────────────────────────────────────────────────────────

/// A directory entry as read from the file system.
#[derive(Clone, Debug)]
pub struct FsItem {
    pub name: String,
    pub is_dir: bool,
    pub is_file: bool,
    /// Length in bytes.
    pub size: u64,
    /// Modification time, seconds since the Unix epoch (0 when unknown).
    pub mtime: u64,
}

/// A listed entry.
#[derive(Clone, Debug)]
pub struct DirEntry {
    pub name: String,
    /// `"dir"` or `"file"`.
    pub kind: &'static str,
    /// Bytes; 0 for directories.
    pub size: u64,
    pub mtime: u64,
    /// Lowercased extension; `""` for directories.
    pub ext: String,
}

/// The contents of a [`DirEntry`].
pub struct DirEntryView {
    pub name: Seq<char>,
    pub is_dir: bool,
    pub size: u64,
    pub mtime: u64,
    pub ext: Seq<char>,
}

impl View for DirEntry {
    type V = DirEntryView;

    open spec fn view(&self) -> DirEntryView {
        DirEntryView {
            name: self.name@,
            is_dir: self.kind@ == "dir"@,
            size: self.size,
            mtime: self.mtime,
            ext: self.ext@,
        }
    }
}

/// Whether `a` sorts strictly before `b` (lexicographic on characters).
pub open spec fn lex_lt(a: Seq<char>, b: Seq<char>) -> bool
    decreases a.len(),
{
    if a.len() == 0 {
        b.len() > 0
    } else if b.len() == 0 {
        false
    } else if a[0] != b[0] {
        a[0] < b[0]
    } else {
        lex_lt(a.drop_first(), b.drop_first())
    }
}

/// Whether `a` sorts strictly before `b`.
pub fn chars_lt(a: &Vec<char>, b: &Vec<char>) -> (r: bool)
    ensures
        r == lex_lt(a@, b@),
{
    let mut i: usize = 0;
    assert(a@.subrange(0, a@.len() as int) =~= a@);
    assert(b@.subrange(0, b@.len() as int) =~= b@);
    while i < a.len() && i < b.len() && a[i] == b[i]
        invariant
            i <= a@.len(),
            i <= b@.len(),
            lex_lt(a@, b@) == lex_lt(
                a@.subrange(i as int, a@.len() as int),
                b@.subrange(i as int, b@.len() as int),
            ),
        decreases a.len() - i,
    {
        assert(a@.subrange(i as int, a@.len() as int).drop_first() =~= a@.subrange(
            i + 1,
            a@.len() as int,
        ));
        assert(b@.subrange(i as int, b@.len() as int).drop_first() =~= b@.subrange(
            i + 1,
            b@.len() as int,
        ));
        i += 1;
    }
    if i == a.len() {
        i < b.len()
    } else if i == b.len() {
        false
    } else {
        assert(a@.subrange(i as int, a@.len() as int)[0] == a@[i as int]);
        assert(b@.subrange(i as int, b@.len() as int)[0] == b@[i as int]);
        a[i] < b[i]
    }
}

/// The ordering key of an entry: its lowercased name.
pub open spec fn name_key(e: DirEntryView) -> Seq<char> {
    lowercase(e.name)
}

/// Inserts `x` into `s` after every entry whose key is not greater.
pub open spec fn insert_by_name(s: Seq<DirEntryView>, x: DirEntryView) -> Seq<DirEntryView>
    decreases s.len(),
{
    if s.len() == 0 {
        seq![x]
    } else if lex_lt(name_key(x), name_key(s.last())) {
        insert_by_name(s.drop_last(), x).push(s.last())
    } else {
        s.push(x)
    }
}

/// Stable sort by lowercased name (equal keys keep their order).
pub open spec fn sort_by_name(s: Seq<DirEntryView>) -> Seq<DirEntryView>
    decreases s.len(),
{
    if s.len() == 0 {
        seq![]
    } else {
        insert_by_name(sort_by_name(s.drop_last()), s.last())
    }
}

/// The listed form of a file-system entry.
pub open spec fn entry_of(it: FsItem) -> DirEntryView {
    if it.is_dir {
        DirEntryView { name: it.name@, is_dir: true, size: 0, mtime: it.mtime, ext: seq![] }
    } else {
        DirEntryView {
            name: it.name@,
            is_dir: false,
            size: it.size,
            mtime: it.mtime,
            ext: extension_text(it.name@),
        }
    }
}

/// Whether an entry is listed at all: hidden names (leading `.`, which
/// includes the thumbnail cache) and entries that are neither directory nor
/// file are left out.
pub open spec fn is_listed(it: FsItem) -> bool {
    !(it.name@.len() > 0 && it.name@[0] == '.') && (it.is_dir || it.is_file)
}

/// The listed directories (`want_dirs`) or files, in input order.
pub open spec fn pick(items: Seq<FsItem>, want_dirs: bool) -> Seq<DirEntryView>
    decreases items.len(),
{
    if items.len() == 0 {
        seq![]
    } else {
        let rest = pick(items.drop_last(), want_dirs);
        let it = items.last();
        if is_listed(it) && it.is_dir == want_dirs {
            rest.push(entry_of(it))
        } else {
            rest
        }
    }
}

/// A directory listing: directories first, then files, each group sorted by
/// lowercased name.
pub open spec fn listing(items: Seq<FsItem>) -> Seq<DirEntryView> {
    sort_by_name(pick(items, true)) + sort_by_name(pick(items, false))
}

/// Inserting at the scan point found from the right is the same as the
/// recursive insertion.
pub proof fn lemma_insert_at_scan_point(s: Seq<DirEntryView>, x: DirEntryView, p: int)
    requires
        0 <= p <= s.len(),
        forall|j: int| p <= j < s.len() ==> lex_lt(name_key(x), #[trigger] name_key(s[j])),
        p == 0 || !lex_lt(name_key(x), name_key(s[p - 1])),
    ensures
        insert_by_name(s, x) == s.take(p) + seq![x] + s.skip(p),
    decreases s.len(),
{
    if s.len() == 0 {
        assert(s.take(p) + seq![x] + s.skip(p) =~= seq![x]);
    } else if lex_lt(name_key(x), name_key(s.last())) {
        assert(name_key(s.last()) == name_key(s[s.len() - 1]));
        let t = s.drop_last();
        assert forall|j: int| p <= j < t.len() implies lex_lt(
            name_key(x),
            #[trigger] name_key(t[j]),
        ) by {
            assert(t[j] == s[j]);
        }
        if p > 0 {
            assert(t[p - 1] == s[p - 1]);
        }
        if p == s.len() {
            assert(!lex_lt(name_key(x), name_key(s[p - 1])));
            assert(false);
        }
        lemma_insert_at_scan_point(t, x, p);
        assert(t.take(p) + seq![x] + t.skip(p) + seq![s.last()] =~= s.take(p) + seq![x] + s.skip(
            p,
        ));
    } else {
        if p < s.len() {
            assert(lex_lt(name_key(x), name_key(s[s.len() - 1])));
            assert(false);
        }
        assert(s.take(p) + seq![x] + s.skip(p) =~= s.push(x));
    }
}

fn make_entry(it: &FsItem) -> (e: DirEntry)
    ensures
        e@ == entry_of(*it),
{
    if it.is_dir {
        DirEntry { name: it.name.clone(), kind: "dir", size: 0, mtime: it.mtime, ext: String::new() }
    } else {
        let ext = extension(it.name.as_str());
        let e = DirEntry { name: it.name.clone(), kind: "file", size: it.size, mtime: it.mtime, ext };
        proof {
            reveal_strlit("dir");
            reveal_strlit("file");
            assert(e.kind@ != "dir"@) by {
                assert(e.kind@[0] == 'f');
                assert("dir"@[0] == 'd');
            }
        }
        e
    }
}

/// Sorts the entries of one group by lowercased name, stably.
fn sort_group(items: &Vec<DirEntry>) -> (r: Vec<DirEntry>)
    ensures
        r@.map_values(|e: DirEntry| e@) == sort_by_name(items@.map_values(|e: DirEntry| e@)),
{
    let ghost iv = items@.map_values(|e: DirEntry| e@);
    let mut out: Vec<DirEntry> = Vec::new();
    let mut keys: Vec<Vec<char>> = Vec::new();
    let mut i: usize = 0;
    assert(iv.subrange(0, 0) =~= seq![]);
    while i < items.len()
        invariant
            i <= items@.len(),
            iv == items@.map_values(|e: DirEntry| e@),
            keys@.len() == out@.len(),
            forall|j: int| 0 <= j < keys@.len() ==> #[trigger] keys@[j]@ == name_key(out@[j]@),
            out@.map_values(|e: DirEntry| e@) == sort_by_name(iv.subrange(0, i as int)),
        decreases items.len() - i,
    {
        let x = items[i].clone_entry();
        let lx = to_lowercase(x.name.as_str());
        let kx = chars_of(lx.as_str());
        let ghost ov = out@.map_values(|e: DirEntry| e@);
        let mut p = out.len();
        while p > 0 && chars_lt(&kx, &keys[p - 1])
            invariant
                p <= out@.len(),
                keys@.len() == out@.len(),
                ov == out@.map_values(|e: DirEntry| e@),
                kx@ == name_key(x@),
                forall|j: int| 0 <= j < keys@.len() ==> #[trigger] keys@[j]@ == name_key(out@[j]@),
                forall|j: int| p <= j < out@.len() ==> lex_lt(kx@, #[trigger] name_key(ov[j])),
            decreases p,
        {
            assert(keys@[p - 1]@ == name_key(out@[p - 1]@));
            p -= 1;
        }
        proof {
            if p > 0 {
                assert(keys@[p - 1]@ == name_key(ov[p - 1]));
            }
            lemma_insert_at_scan_point(ov, x@, p as int);
            let t = iv.subrange(0, i + 1);
            assert(t.drop_last() =~= iv.subrange(0, i as int));
            assert(t.last() == x@);
        }
        let ghost old_keys = keys@;
        let ghost old_out = out@;
        out.insert(p, x);
        keys.insert(p, kx);
        proof {
            assert(out@.map_values(|e: DirEntry| e@) =~= ov.take(p as int) + seq![x@] + ov.skip(
                p as int,
            ));
            assert forall|j: int| 0 <= j < keys@.len() implies #[trigger] keys@[j]@ == name_key(
                out@[j]@,
            ) by {
                if j < p {
                    assert(keys@[j] == old_keys[j]);
                    assert(out@[j] == old_out[j]);
                } else if j > p {
                    assert(keys@[j] == old_keys[j - 1]);
                    assert(out@[j] == old_out[j - 1]);
                }
            }
        }
        i += 1;
    }
    assert(iv.subrange(0, items@.len() as int) =~= iv);
    out
}

impl DirEntry {
    /// A copy of the entry with the same contents.
    pub fn clone_entry(&self) -> (r: DirEntry)
        ensures
            r@ == self@,
    {
        DirEntry {
            name: self.name.clone(),
            kind: self.kind,
            size: self.size,
            mtime: self.mtime,
            ext: self.ext.clone(),
        }
    }
}

/// Builds a directory listing from file-system entries: hidden names are
/// dropped, directories come first, and each group is sorted by lowercased
/// name.
pub fn list_entries(items: &[FsItem]) -> (r: Vec<DirEntry>)
    ensures
        r@.map_values(|e: DirEntry| e@) == listing(items@),
{
    let mut dirs: Vec<DirEntry> = Vec::new();
    let mut files: Vec<DirEntry> = Vec::new();
    let mut i: usize = 0;
    while i < items.len()
        invariant
            i <= items@.len(),
            dirs@.map_values(|e: DirEntry| e@) == pick(items@.subrange(0, i as int), true),
            files@.map_values(|e: DirEntry| e@) == pick(items@.subrange(0, i as int), false),
        decreases items.len() - i,
    {
        let it = &items[i];
        let nv = chars_of(it.name.as_str());
        let hidden = nv.len() > 0 && nv[0] == '.';
        let ghost t = items@.subrange(0, i + 1);
        proof {
            assert(t.drop_last() =~= items@.subrange(0, i as int));
            assert(t.last() == *it);
        }
        if !hidden && (it.is_dir || it.is_file) {
            let e = make_entry(it);
            if it.is_dir {
                let ghost before = dirs@;
                dirs.push(e);
                assert(dirs@.map_values(|e: DirEntry| e@) =~= before.map_values(
                    |e: DirEntry| e@,
                ).push(entry_of(*it)));
            } else {
                let ghost before = files@;
                files.push(e);
                assert(files@.map_values(|e: DirEntry| e@) =~= before.map_values(
                    |e: DirEntry| e@,
                ).push(entry_of(*it)));
            }
        }
        i += 1;
    }
    assert(items@.subrange(0, items@.len() as int) =~= items@);
    let mut out = sort_group(&dirs);
    let mut sf = sort_group(&files);
    let ghost a = out@;
    let ghost b = sf@;
    out.append(&mut sf);
    assert(out@.map_values(|e: DirEntry| e@) =~= a.map_values(|e: DirEntry| e@) + b.map_values(
        |e: DirEntry| e@,
    ));
    out
}

// ── Laws of the listing order ────────────────────────────────────────────────

proof fn lemma_lex_irreflexive(a: Seq<char>)
    ensures
        !lex_lt(a, a),
    decreases a.len(),
{
    if a.len() > 0 {
        lemma_lex_irreflexive(a.drop_first());
    }
}

proof fn lemma_lex_transitive(a: Seq<char>, b: Seq<char>, c: Seq<char>)
    requires
        lex_lt(a, b),
        lex_lt(b, c),
    ensures
        lex_lt(a, c),
    decreases a.len(),
{
    if a.len() > 0 && b.len() > 0 && c.len() > 0 && a[0] == b[0] && b[0] == c[0] {
        lemma_lex_transitive(a.drop_first(), b.drop_first(), c.drop_first());
    }
}

proof fn lemma_lex_total(a: Seq<char>, b: Seq<char>)
    requires
        a != b,
    ensures
        lex_lt(a, b) || lex_lt(b, a),
    decreases a.len(),
{
    if a.len() > 0 && b.len() > 0 && a[0] == b[0] {
        if a.drop_first() == b.drop_first() {
            assert(a =~= seq![a[0]] + a.drop_first());
            assert(b =~= seq![b[0]] + b.drop_first());
        }
        lemma_lex_total(a.drop_first(), b.drop_first());
    } else if a.len() == 0 && b.len() == 0 {
        assert(a =~= b);
    }
}

/// Entries in order of their lowercased names.
pub open spec fn sorted_by_name(s: Seq<DirEntryView>) -> bool {
    forall|i: int, j: int|
        0 <= i < j < s.len() ==> !lex_lt(#[trigger] name_key(s[j]), #[trigger] name_key(s[i]))
}

proof fn lemma_insert_multiset(s: Seq<DirEntryView>, x: DirEntryView)
    ensures
        insert_by_name(s, x).to_multiset() == s.to_multiset().insert(x),
    decreases s.len(),
{
    broadcast use vstd::seq_lib::group_to_multiset_ensures;

    if s.len() > 0 && lex_lt(name_key(x), name_key(s.last())) {
        lemma_insert_multiset(s.drop_last(), x);
        assert(s.drop_last().push(s.last()) =~= s);
    }
}

proof fn lemma_insert_sorted(s: Seq<DirEntryView>, x: DirEntryView)
    requires
        sorted_by_name(s),
    ensures
        sorted_by_name(insert_by_name(s, x)),
    decreases s.len(),
{
    broadcast use vstd::seq_lib::group_to_multiset_ensures;

    if s.len() == 0 {
    } else if lex_lt(name_key(x), name_key(s.last())) {
        let sp = s.drop_last();
        let l = s.last();
        assert(sorted_by_name(sp)) by {
            assert forall|i: int, j: int| 0 <= i < j < sp.len() implies !lex_lt(
                name_key(sp[j]),
                name_key(sp[i]),
            ) by {
                assert(sp[i] == s[i] && sp[j] == s[j]);
            }
        }
        lemma_insert_sorted(sp, x);
        lemma_insert_multiset(sp, x);
        let ins = insert_by_name(sp, x);
        let r = ins.push(l);
        assert forall|i: int, j: int| 0 <= i < j < r.len() implies !lex_lt(
            name_key(r[j]),
            name_key(r[i]),
        ) by {
            if j == r.len() - 1 {
                let e = ins[i];
                assert(ins.to_multiset().count(e) > 0);
                assert(e == x || sp.contains(e));
                assert(r[j] == l);
                if e == x {
                    if lex_lt(name_key(l), name_key(x)) {
                        lemma_lex_transitive(name_key(x), name_key(l), name_key(x));
                        lemma_lex_irreflexive(name_key(x));
                    }
                } else {
                    let k = choose|k: int| 0 <= k < sp.len() && sp[k] == e;
                    assert(s[k] == e && s[s.len() - 1] == l);
                }
            } else {
                assert(r[i] == ins[i] && r[j] == ins[j]);
            }
        }
    } else {
        let l = s.last();
        let r = s.push(x);
        assert forall|i: int, j: int| 0 <= i < j < r.len() implies !lex_lt(
            name_key(r[j]),
            name_key(r[i]),
        ) by {
            if j == r.len() - 1 {
                assert(r[j] == x);
                if i < s.len() - 1 {
                    assert(r[i] == s[i]);
                    assert(!lex_lt(name_key(l), name_key(s[i])));
                    if lex_lt(name_key(x), name_key(s[i])) {
                        if name_key(s[i]) != name_key(l) {
                            lemma_lex_total(name_key(s[i]), name_key(l));
                            lemma_lex_transitive(name_key(x), name_key(s[i]), name_key(l));
                        }
                    }
                } else {
                    assert(r[i] == l);
                }
            } else {
                assert(r[i] == s[i] && r[j] == s[j]);
            }
        }
    }
}

/// Sorting by name orders the entries and keeps each of them once.
pub proof fn law_sort_by_name_orders_and_keeps(s: Seq<DirEntryView>)
    ensures
        sorted_by_name(sort_by_name(s)),
        sort_by_name(s).to_multiset() == s.to_multiset(),
    decreases s.len(),
{
    broadcast use vstd::seq_lib::group_to_multiset_ensures;

    if s.len() > 0 {
        law_sort_by_name_orders_and_keeps(s.drop_last());
        lemma_insert_sorted(sort_by_name(s.drop_last()), s.last());
        lemma_insert_multiset(sort_by_name(s.drop_last()), s.last());
        assert(s.drop_last().push(s.last()) =~= s);
    }
}

proof fn lemma_pick_members(items: Seq<FsItem>, want_dirs: bool, e: DirEntryView)
    requires
        pick(items, want_dirs).contains(e),
    ensures
        exists|j: int|
            0 <= j < items.len() && is_listed(items[j]) && items[j].is_dir == want_dirs && e
                == entry_of(#[trigger] items[j]),
    decreases items.len(),
{
    let rest = pick(items.drop_last(), want_dirs);
    let it = items.last();
    if is_listed(it) && it.is_dir == want_dirs && e == entry_of(it) {
        assert(items[items.len() - 1] == it);
    } else {
        if is_listed(it) && it.is_dir == want_dirs {
            let k = choose|k: int| 0 <= k < rest.push(entry_of(it)).len() && rest.push(
                entry_of(it),
            )[k] == e;
            assert(k < rest.len());
            assert(rest[k] == e);
        }
        lemma_pick_members(items.drop_last(), want_dirs, e);
        let j = choose|j: int|
            0 <= j < items.drop_last().len() && is_listed(items.drop_last()[j])
                && items.drop_last()[j].is_dir == want_dirs && e == entry_of(
                #[trigger] items.drop_last()[j],
            );
        assert(items[j] == items.drop_last()[j]);
    }
}

/// Whether a listed name is hidden (starts with a dot).
pub open spec fn hidden_name(n: Seq<char>) -> bool {
    n.len() > 0 && n[0] == '.'
}

/// A listing shows directories first and files after them, each group in
/// order of lowercased name, every listed entry exactly once, and no hidden
/// entry (the thumbnail cache among them).
pub proof fn law_listing_shape(items: Seq<FsItem>)
    ensures
        ({
            let l = listing(items);
            let n = pick(items, true).len();
            &&& l.len() == n + pick(items, false).len()
            &&& forall|i: int| 0 <= i < n ==> (#[trigger] l[i]).is_dir
            &&& forall|i: int| n <= i < l.len() ==> !(#[trigger] l[i]).is_dir
            &&& forall|i: int| 0 <= i < l.len() ==> !hidden_name((#[trigger] l[i]).name)
            &&& sorted_by_name(l.subrange(0, n as int))
            &&& sorted_by_name(l.subrange(n as int, l.len() as int))
            &&& l.to_multiset() == pick(items, true).to_multiset().add(
                pick(items, false).to_multiset(),
            )
        }),
{
    broadcast use vstd::seq_lib::group_to_multiset_ensures;

    let d = pick(items, true);
    let f = pick(items, false);
    law_sort_by_name_orders_and_keeps(d);
    law_sort_by_name_orders_and_keeps(f);
    let sd = sort_by_name(d);
    let sf = sort_by_name(f);
    let l = listing(items);
    vstd::seq_lib::lemma_multiset_commutative(sd, sf);
    assert(l.subrange(0, sd.len() as int) =~= sd);
    assert(l.subrange(sd.len() as int, l.len() as int) =~= sf);
    assert(sd.len() == d.len()) by {
        assert(sd.to_multiset().len() == d.to_multiset().len());
    }
    assert(sf.len() == f.len()) by {
        assert(sf.to_multiset().len() == f.to_multiset().len());
    }
    assert forall|i: int| 0 <= i < l.len() implies (#[trigger] l[i]).is_dir == (i < d.len())
        && !hidden_name(l[i].name) by {
        let e = l[i];
        if i < d.len() {
            assert(sd[i] == e);
            assert(sd.to_multiset().count(e) > 0);
            assert(d.contains(e));
            lemma_pick_members(items, true, e);
        } else {
            assert(sf[i - d.len()] == e);
            assert(sf.to_multiset().count(e) > 0);
            assert(f.contains(e));
            lemma_pick_members(items, false, e);
        }
    }
}

// ── Laws of the sandbox paths ────────────────────────────────────────────────

/// Below the root, a path's relative text is its components under the root
/// joined with `/`; the root itself is `""` and has no parent, and a direct
/// child of the root has the root (`""`) as its parent.
pub proof fn law_paths_below_root(root: Seq<Seq<char>>, q: Seq<Seq<char>>, x: Seq<char>)
    ensures
        is_within(root, root + q),
        relative_text(root, root + q) == join_parts(q),
        relative_text(root, root) == Seq::<char>::empty(),
        parent_text(root, root) is None,
        parent_text(root, root.push(x)) == Some(Seq::<char>::empty()),
{
    assert((root + q).subrange(0, root.len() as int) =~= root);
    assert((root + q).subrange(root.len() as int, (root + q).len() as int) =~= q);
    assert(root.subrange(0, root.len() as int) =~= root);
    assert(root.subrange(root.len() as int, root.len() as int) =~= Seq::<Seq<char>>::empty());
    assert(root.push(x).drop_last() =~= root);
    assert(root.push(x) != root) by {
        assert(root.push(x).len() != root.len());
    }
}

/// Thumbnails are cached inside the root, in a hidden directory that
/// listings leave out.
pub proof fn law_thumb_cache_in_hidden_dir(root: Seq<Seq<char>>, name: Seq<char>)
    ensures
        is_within(root, root + seq![".rekos-thumbs"@, name]),
        hidden_name((root + seq![".rekos-thumbs"@, name])[root.len() as int]),
{
    reveal_strlit(".rekos-thumbs");
    assert((root + seq![".rekos-thumbs"@, name]).subrange(0, root.len() as int) =~= root);
    assert((root + seq![".rekos-thumbs"@, name])[root.len() as int] == ".rekos-thumbs"@);
}

} // verus!
