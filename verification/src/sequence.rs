//! Capture sequences: the row model of the sequence editor and the ESQ XML
//! document KStars loads (`capture_load_sequence_file`,
//! `scheduler_save_sequence_file`, `scheduler_import_mosaic`).

use vstd::prelude::*;

use crate::text::{push_str, string_of};

verus! {

/// One row of the sequence editor. Every field is the text typed in.
#[derive(Clone, Debug)]
pub struct SeqFrame {
    pub frame_type: String,
    pub filter: String,
    pub exposure: String,
    pub count: String,
    pub delay: String,
    pub bin_x: String,
    pub bin_y: String,
    pub gain: String,
    pub offset: String,
    pub iso: String,
    pub format: String,
    pub encoding: String,
}

/// Whether a row is a new one: 10 × 120 s light frames, no delay, bin 1×1,
/// gain 100, no filter, offset or ISO, FITS.
pub open spec fn is_default_frame(f: SeqFrame) -> bool {
    &&& f.frame_type@ == "Light"@
    &&& f.filter@ == Seq::<char>::empty()
    &&& f.exposure@ == "120"@
    &&& f.count@ == "10"@
    &&& f.delay@ == "0"@
    &&& f.bin_x@ == "1"@
    &&& f.bin_y@ == "1"@
    &&& f.gain@ == "100"@
    &&& f.offset@ == Seq::<char>::empty()
    &&& f.iso@ == Seq::<char>::empty()
    &&& f.format@ == "FITS"@
    &&& f.encoding@ == "FITS"@
}

impl SeqFrame {
    /// A new row: 10 × 120 s light frames, bin 1×1, gain 100, FITS.
    pub fn new_default() -> (f: SeqFrame)
        ensures
            is_default_frame(f),
    {
        SeqFrame {
            frame_type: String::from_str("Light"),
            filter: String::new(),
            exposure: String::from_str("120"),
            count: String::from_str("10"),
            delay: String::from_str("0"),
            bin_x: String::from_str("1"),
            bin_y: String::from_str("1"),
            gain: String::from_str("100"),
            offset: String::new(),
            iso: String::new(),
            format: String::from_str("FITS"),
            encoding: String::from_str("FITS"),
        }
    }
}

/// Frame types offered when the camera has reported none.
pub fn frame_type_options(device: Vec<String>) -> (r: Vec<String>)
    ensures
        device@.len() > 0 ==> r@ == device@,
        device@.len() == 0 ==> r@.len() == 4 && r@[0]@ == "Light"@ && r@[1]@ == "Dark"@ && r@[2]@
            == "Bias"@ && r@[3]@ == "Flat"@,
{
    if device.len() == 0 {
        let mut r: Vec<String> = Vec::new();
        r.push(String::from_str("Light"));
        r.push(String::from_str("Dark"));
        r.push(String::from_str("Bias"));
        r.push(String::from_str("Flat"));
        r
    } else {
        device
    }
}

/// `s`, or `fallback` when `s` is empty.
pub open spec fn or_default(s: Seq<char>, fallback: Seq<char>) -> Seq<char> {
    if s.len() == 0 {
        fallback
    } else {
        s
    }
}

/// The document head: XML declaration, queue version, and the disabled
/// guide-deviation, HFR and refocus checks.
pub open spec fn esq_head() -> Seq<char> {
    "<?xml version=\"1.0\" encoding=\"UTF-8\"?>\n"@ + "<SequenceQueue version='2.1'>\n"@
        + "<GuideDeviation enabled='false'>0</GuideDeviation>\n"@
        + "<GuideStartDeviation enabled='false'>0</GuideStartDeviation>\n"@
        + "<HFRCheck enabled='false'><HFRDeviation>0.1</HFRDeviation><HFRCheckAlgorithm>0</HFRCheckAlgorithm><HFRCheckThreshold>0</HFRCheckThreshold><HFRCheckFrames>1</HFRCheckFrames></HFRCheck>\n"@
        + "<RefocusOnTemperatureDelta enabled='false'>1</RefocusOnTemperatureDelta>\n"@
        + "<RefocusEveryN enabled='false'>60</RefocusEveryN>\n"@
        + "<RefocusOnMeridianFlip enabled='false'/>\n"@
}

/// The gain/offset properties of a job.
pub open spec fn esq_properties(gain: Seq<char>, offset: Seq<char>) -> Seq<char> {
    if gain.len() == 0 && offset.len() == 0 {
        "<Properties/>\n"@
    } else {
        "<Properties>\n"@ + (if gain.len() > 0 {
            "<PropertyVector name='CCD_GAIN'><OneElement name='GAIN'>"@ + gain
                + "</OneElement></PropertyVector>\n"@
        } else {
            seq![]
        }) + (if offset.len() > 0 {
            "<PropertyVector name='CCD_OFFSET'><OneElement name='OFFSET'>"@ + offset
                + "</OneElement></PropertyVector>\n"@
        } else {
            seq![]
        }) + "</Properties>\n"@
    }
}

/// Exposure, format, encoding, binning and the full-frame region of a job.
pub open spec fn job_head(f: SeqFrame) -> Seq<char> {
    "<Job>\n"@ + "<Exposure>"@ + f.exposure@ + "</Exposure>\n"@ + "<Format>"@ + or_default(
        f.format@,
        "FITS"@,
    ) + "</Format>\n<Encoding>"@ + or_default(f.encoding@, "FITS"@) + "</Encoding>\n"@
        + "<Binning><X>"@ + or_default(f.bin_x@, "1"@) + "</X><Y>"@ + or_default(f.bin_y@, "1"@)
        + "</Y></Binning>\n"@ + "<Frame><X>0</X><Y>0</Y><W>0</W><H>0</H></Frame>\n"@
}

/// `<tag>text</tag>` and a newline when `text` is not empty.
pub open spec fn optional_element(open: Seq<char>, text: Seq<char>, close: Seq<char>) -> Seq<char> {
    if text.len() > 0 {
        open + text + close
    } else {
        seq![]
    }
}

/// Frame type, count and delay of a job.
pub open spec fn job_mid(f: SeqFrame) -> Seq<char> {
    "<Type>"@ + f.frame_type@ + "</Type>\n"@ + "<Count>"@ + f.count@ + "</Count>\n"@
        + "<Delay>"@ + or_default(f.delay@, "0"@) + "</Delay>\n"@
}

/// Dithering, destination directory, file naming and upload mode of a job.
pub open spec fn job_dirs(fits_dir: Seq<char>) -> Seq<char> {
    "<GuideDitherPerJob>-1</GuideDitherPerJob>\n"@ + "<FITSDirectory>"@ + fits_dir
        + "</FITSDirectory>\n"@
        + "<PlaceholderFormat>/%T/%F/Light/%T_%F_%e_secs_%04d</PlaceholderFormat>\n"@
        + "<PlaceholderSuffix>0</PlaceholderSuffix>\n"@ + "<UploadMode>0</UploadMode>\n"@
}

/// Calibration settings and the end of a job.
pub open spec fn job_tail() -> Seq<char> {
    "<Calibration><FlatSource><Type>Manual</Type></FlatSource><FlatDuration><Type>ADU</Type><Value>0</Value><Tolerance>0</Tolerance></FlatDuration><PreMountPark>false</PreMountPark><PreDomePark>false</PreDomePark></Calibration>\n"@
        + "</Job>\n"@
}

/// One `<Job>` element. Empty format/encoding read as FITS, empty binning
/// as 1, empty delay as 0; filter, target name and ISO are written only when
/// given.
pub open spec fn esq_job(job_name: Seq<char>, fits_dir: Seq<char>, f: SeqFrame) -> Seq<char> {
    job_head(f) + optional_element("<Filter>"@, f.filter@, "</Filter>\n"@) + job_mid(f)
        + optional_element("<TargetName>"@, job_name, "</TargetName>\n"@) + job_dirs(fits_dir)
        + optional_element("<ISOIndex>"@, f.iso@, "</ISOIndex>\n"@) + esq_properties(f.gain@, f.offset@)
        + job_tail()
}

/// The jobs for the first `k` frames.
pub open spec fn esq_jobs(job_name: Seq<char>, fits_dir: Seq<char>, frames: Seq<SeqFrame>, k: int) -> Seq<
    char,
>
    decreases k,
{
    if k <= 0 {
        seq![]
    } else {
        esq_jobs(job_name, fits_dir, frames, k - 1) + esq_job(job_name, fits_dir, frames[k - 1])
    }
}

proof fn lemma_jobs_are_mapped_rows(job_name: Seq<char>, fits_dir: Seq<char>, frames: Seq<SeqFrame>, k: int)
    requires
        0 <= k <= frames.len(),
    ensures
        esq_jobs(job_name, fits_dir, frames, k) == frames.subrange(0, k).map_values(
            |f: SeqFrame| esq_job(job_name, fits_dir, f),
        ).flatten(),
    decreases k,
{
    let m = |f: SeqFrame| esq_job(job_name, fits_dir, f);
    if k == 0 {
        assert(frames.subrange(0, 0).map_values(m) =~= Seq::<Seq<char>>::empty());
    } else {
        lemma_jobs_are_mapped_rows(job_name, fits_dir, frames, k - 1);
        let before = frames.subrange(0, k - 1).map_values(m);
        assert(frames.subrange(0, k).map_values(m) =~= before.push(m(frames[k - 1])));
        before.lemma_flatten_push(m(frames[k - 1]));
    }
}

/// The document holds one job per frame row, in the rows' order: after the
/// fixed head come the jobs of `frames[0]`, `frames[1]`, … each written from
/// its own row, then the closing tag.
pub proof fn law_one_job_per_row(job_name: Seq<char>, fits_dir: Seq<char>, frames: Seq<SeqFrame>)
    ensures
        esq_document(job_name, fits_dir, frames) == esq_head() + frames.map_values(
            |f: SeqFrame| esq_job(job_name, fits_dir, f),
        ).flatten() + "</SequenceQueue>\n"@,
{
    lemma_jobs_are_mapped_rows(job_name, fits_dir, frames, frames.len() as int);
    assert(frames.subrange(0, frames.len() as int) =~= frames);
}

/// The whole ESQ document.
pub open spec fn esq_document(job_name: Seq<char>, fits_dir: Seq<char>, frames: Seq<SeqFrame>) -> Seq<
    char,
> {
    esq_head() + esq_jobs(job_name, fits_dir, frames, frames.len() as int) + "</SequenceQueue>\n"@
}

fn push_or(out: &mut Vec<char>, s: &String, fallback: &str)
    ensures
        final(out)@ == old(out)@ + or_default(s@, fallback@),
{
    if s.as_str().is_empty() {
        push_str(out, fallback);
    } else {
        push_str(out, s.as_str());
    }
}

fn push_job_head(out: &mut Vec<char>, f: &SeqFrame)
    ensures
        final(out)@ == old(out)@ + job_head(*f),
{
    let ghost start = out@;
    push_str(out, "<Job>\n");
    push_str(out, "<Exposure>");
    push_str(out, f.exposure.as_str());
    push_str(out, "</Exposure>\n");
    push_str(out, "<Format>");
    push_or(out, &f.format, "FITS");
    push_str(out, "</Format>\n<Encoding>");
    push_or(out, &f.encoding, "FITS");
    push_str(out, "</Encoding>\n");
    push_str(out, "<Binning><X>");
    push_or(out, &f.bin_x, "1");
    push_str(out, "</X><Y>");
    push_or(out, &f.bin_y, "1");
    push_str(out, "</Y></Binning>\n");
    push_str(out, "<Frame><X>0</X><Y>0</Y><W>0</W><H>0</H></Frame>\n");
    assert(out@ =~= start + job_head(*f));
}

fn push_optional(out: &mut Vec<char>, open: &str, text: &str, close: &str)
    ensures
        final(out)@ == old(out)@ + optional_element(open@, text@, close@),
{
    let ghost start = out@;
    if !text.is_empty() {
        push_str(out, open);
        push_str(out, text);
        push_str(out, close);
        assert(out@ =~= start + optional_element(open@, text@, close@));
    } else {
        assert(out@ =~= start + optional_element(open@, text@, close@));
    }
}

fn push_job_mid(out: &mut Vec<char>, f: &SeqFrame)
    ensures
        final(out)@ == old(out)@ + job_mid(*f),
{
    let ghost start = out@;
    push_str(out, "<Type>");
    push_str(out, f.frame_type.as_str());
    push_str(out, "</Type>\n");
    push_str(out, "<Count>");
    push_str(out, f.count.as_str());
    push_str(out, "</Count>\n");
    push_str(out, "<Delay>");
    push_or(out, &f.delay, "0");
    push_str(out, "</Delay>\n");
    assert(out@ =~= start + job_mid(*f));
}

fn push_job_dirs(out: &mut Vec<char>, fits_dir: &str)
    ensures
        final(out)@ == old(out)@ + job_dirs(fits_dir@),
{
    let ghost start = out@;
    push_str(out, "<GuideDitherPerJob>-1</GuideDitherPerJob>\n");
    push_str(out, "<FITSDirectory>");
    push_str(out, fits_dir);
    push_str(out, "</FITSDirectory>\n");
    push_str(out, "<PlaceholderFormat>/%T/%F/Light/%T_%F_%e_secs_%04d</PlaceholderFormat>\n");
    push_str(out, "<PlaceholderSuffix>0</PlaceholderSuffix>\n");
    push_str(out, "<UploadMode>0</UploadMode>\n");
    assert(out@ =~= start + job_dirs(fits_dir@));
}

fn push_properties(out: &mut Vec<char>, f: &SeqFrame)
    ensures
        final(out)@ == old(out)@ + esq_properties(f.gain@, f.offset@),
{
    let ghost start = out@;
    let has_gain = !f.gain.as_str().is_empty();
    let has_offset = !f.offset.as_str().is_empty();
    if has_gain || has_offset {
        push_str(out, "<Properties>\n");
        let ghost a = out@;
        if has_gain {
            push_str(out, "<PropertyVector name='CCD_GAIN'><OneElement name='GAIN'>");
            push_str(out, f.gain.as_str());
            push_str(out, "</OneElement></PropertyVector>\n");
        }
        let ghost b = out@;
        if has_offset {
            push_str(out, "<PropertyVector name='CCD_OFFSET'><OneElement name='OFFSET'>");
            push_str(out, f.offset.as_str());
            push_str(out, "</OneElement></PropertyVector>\n");
        }
        push_str(out, "</Properties>\n");
        assert(out@ =~= start + esq_properties(f.gain@, f.offset@));
    } else {
        push_str(out, "<Properties/>\n");
        assert(out@ =~= start + esq_properties(f.gain@, f.offset@));
    }
}

fn push_job(out: &mut Vec<char>, job_name: &str, fits_dir: &str, f: &SeqFrame)
    ensures
        final(out)@ == old(out)@ + esq_job(job_name@, fits_dir@, *f),
{
    let ghost start = out@;
    push_job_head(out, f);
    push_optional(out, "<Filter>", f.filter.as_str(), "</Filter>\n");
    push_job_mid(out, f);
    push_optional(out, "<TargetName>", job_name, "</TargetName>\n");
    push_job_dirs(out, fits_dir);
    push_optional(out, "<ISOIndex>", f.iso.as_str(), "</ISOIndex>\n");
    push_properties(out, f);
    push_str(
        out,
        "<Calibration><FlatSource><Type>Manual</Type></FlatSource><FlatDuration><Type>ADU</Type><Value>0</Value><Tolerance>0</Tolerance></FlatDuration><PreMountPark>false</PreMountPark><PreDomePark>false</PreDomePark></Calibration>\n",
    );
    push_str(out, "</Job>\n");
    assert(out@ =~= start + esq_job(job_name@, fits_dir@, *f));
}

/// Writes the ESQ document for a list of frames. `fits_dir` goes into every
/// job's `<FITSDirectory>` (empty leaves KStars' own default); `job_name`,
/// when given, becomes each job's `<TargetName>`.
pub fn build_esq_xml(job_name: &str, fits_dir: &str, frames: &[SeqFrame]) -> (r: String)
    ensures
        r@ == esq_document(job_name@, fits_dir@, frames@),
{
    let mut out: Vec<char> = Vec::new();
    push_str(&mut out, "<?xml version=\"1.0\" encoding=\"UTF-8\"?>\n");
    push_str(&mut out, "<SequenceQueue version='2.1'>\n");
    push_str(&mut out, "<GuideDeviation enabled='false'>0</GuideDeviation>\n");
    push_str(&mut out, "<GuideStartDeviation enabled='false'>0</GuideStartDeviation>\n");
    push_str(
        &mut out,
        "<HFRCheck enabled='false'><HFRDeviation>0.1</HFRDeviation><HFRCheckAlgorithm>0</HFRCheckAlgorithm><HFRCheckThreshold>0</HFRCheckThreshold><HFRCheckFrames>1</HFRCheckFrames></HFRCheck>\n",
    );
    push_str(&mut out, "<RefocusOnTemperatureDelta enabled='false'>1</RefocusOnTemperatureDelta>\n");
    push_str(&mut out, "<RefocusEveryN enabled='false'>60</RefocusEveryN>\n");
    push_str(&mut out, "<RefocusOnMeridianFlip enabled='false'/>\n");
    assert(out@ =~= esq_head());
    let mut i: usize = 0;
    while i < frames.len()
        invariant
            i <= frames@.len(),
            out@ == esq_head() + esq_jobs(job_name@, fits_dir@, frames@, i as int),
        decreases frames.len() - i,
    {
        push_job(&mut out, job_name, fits_dir, &frames[i]);
        i += 1;
        assert(out@ =~= esq_head() + esq_jobs(job_name@, fits_dir@, frames@, i as int));
    }
    push_str(&mut out, "</SequenceQueue>\n");
    assert(out@ =~= esq_document(job_name@, fits_dir@, frames@));
    string_of(out.as_slice())
}

} // verus!
