use vstd::prelude::*;

verus! {

/// What `std::path::Path::file_stem` gives for a path: the last component's
/// name without its extension, or `None` when there is no file name.
pub uninterp spec fn stem_of(path: Seq<char>) -> Option<Seq<char>>;

/// An optional string seen as optional characters.
pub open spec fn opt_view(o: Option<String>) -> Option<Seq<char>> {
    match o {
        Some(s) => Some(s@),
        None => None,
    }
}

/// The stem used when a source path has none.
pub open spec fn fallback_stem() -> Seq<char> {
    seq!['o', 'u', 't', 'p', 'u', 't']
}

/// `dir/stem.ext`.
pub open spec fn output_path(dir: Seq<char>, stem: Seq<char>, ext: Seq<char>) -> Seq<char> {
    dir + seq!['/'] + stem + seq!['.'] + ext
}

pub open spec fn bin_ext() -> Seq<char> {
    seq!['b', 'i', 'n']
}

pub open spec fn hex_ext() -> Seq<char> {
    seq!['h', 'e', 'x']
}

/// Relies on `std::path::Path::file_stem` (and `OsStr::to_str`): the stem of
/// the path's file name, which depends on the path text alone.
#[verifier::external_body]
fn file_stem(path: &str) -> (r: Option<String>)
    ensures
        opt_view(r) == stem_of(path@),
{
    std::path::Path::new(path).file_stem().and_then(|s| s.to_str()).map(|s| s.to_string())
}

/// One source file to convert, with the two files it produces.
pub struct ConversionJob {
    pub source_path: String,
    pub bin_path: String,
    pub hex_path: String,
}

/// The stem that names the outputs of `source`.
pub open spec fn stem_for(source: Seq<char>) -> Seq<char> {
    match stem_of(source) {
        Some(s) => s,
        None => fallback_stem(),
    }
}

impl ConversionJob {
    /// This job converts `source` into `out_dir`.
    pub open spec fn is_job_for(&self, source: Seq<char>, out_dir: Seq<char>) -> bool {
        &&& self.source_path@ == source
        &&& self.bin_path@ == output_path(out_dir, stem_for(source), bin_ext())
        &&& self.hex_path@ == output_path(out_dir, stem_for(source), hex_ext())
    }

    /// The job for `source` whose outputs go to `out_dir`, named after `stem`.
    pub fn from_stem(source: &str, out_dir: &str, stem: &str) -> (r: ConversionJob)
        ensures
            r.source_path@ == source@,
            r.bin_path@ == output_path(out_dir@, stem@, bin_ext()),
            r.hex_path@ == output_path(out_dir@, stem@, hex_ext()),
    {
        proof {
            reveal_strlit("/");
            reveal_strlit(".bin");
            reveal_strlit(".hex");
        }
        let mut bin = String::from_str(out_dir);
        bin.append("/");
        bin.append(stem);
        bin.append(".bin");
        let mut hex = String::from_str(out_dir);
        hex.append("/");
        hex.append(stem);
        hex.append(".hex");
        assert(bin@ =~= output_path(out_dir@, stem@, bin_ext()));
        assert(hex@ =~= output_path(out_dir@, stem@, hex_ext()));
        ConversionJob { source_path: String::from_str(source), bin_path: bin, hex_path: hex }
    }

    /// The job for `source` whose outputs go to `out_dir`, named after the
    /// source's file stem, or `output` when it has none.
    pub fn new(source: &str, out_dir: &str) -> (r: ConversionJob)
        ensures
            r.is_job_for(source@, out_dir@),
    {
        match file_stem(source) {
            Some(s) => ConversionJob::from_stem(source, out_dir, s.as_str()),
            None => {
                proof {
                    reveal_strlit("output");
                }
                assert("output"@ =~= fallback_stem());
                ConversionJob::from_stem(source, out_dir, "output")
            },
        }
    }
}

/// One job per source path, in the same order, all writing to `out_dir`.
pub fn jobs_for(sources: &Vec<String>, out_dir: &str) -> (r: Vec<ConversionJob>)
    ensures
        r.len() == sources.len(),
        forall|i: int| 0 <= i < r.len() ==> (#[trigger] r[i]).is_job_for(sources[i]@, out_dir@),
{
    let mut r: Vec<ConversionJob> = Vec::new();
    for i in 0..sources.len()
        invariant
            r.len() == i,
            forall|k: int| 0 <= k < r.len() ==> (#[trigger] r[k]).is_job_for(sources[k]@, out_dir@),
    {
        let j = ConversionJob::new(sources[i].as_str(), out_dir);
        r.push(j);
    }
    r
}

} // verus!
