use vstd::prelude::*;
use vstd::string::StringExecFns;

verus! {

/// The output formats the converter accepts, in the order they are offered to
/// the user.
pub open spec fn spec_supported_formats() -> Seq<Seq<char>> {
    seq!["mp3"@, "m4a"@, "flac"@, "ogg"@, "wav"@, "aac"@, "m4b"@, "oga"@, "opus"@, "webm"@]
}

/// String equality by contents.
fn str_eq(a: &str, b: &str) -> (r: bool)
    ensures
        r == (a@ == b@),
{
    let sa = a.to_owned();
    let sb = b.to_owned();
    sa == sb
}

/// The supported formats as owned strings, for selection lists and validation
/// messages.
pub fn supported_formats() -> (r: Vec<String>)
    ensures
        r@.len() == spec_supported_formats().len(),
        forall|i: int| 0 <= i < r@.len() ==> r@[i]@ == spec_supported_formats()[i],
{
    let mut v: Vec<String> = Vec::new();
    v.push(String::from_str("mp3"));
    v.push(String::from_str("m4a"));
    v.push(String::from_str("flac"));
    v.push(String::from_str("ogg"));
    v.push(String::from_str("wav"));
    v.push(String::from_str("aac"));
    v.push(String::from_str("m4b"));
    v.push(String::from_str("oga"));
    v.push(String::from_str("opus"));
    v.push(String::from_str("webm"));
    v
}

/// Whether `format` is one of the supported output formats. A run is refused
/// before any worker starts when it is not.
pub fn is_supported_format(format: &str) -> (r: bool)
    ensures
        r == spec_supported_formats().contains(format@),
{
    let r = str_eq(format, "mp3") || str_eq(format, "m4a") || str_eq(format, "flac")
        || str_eq(format, "ogg") || str_eq(format, "wav") || str_eq(format, "aac")
        || str_eq(format, "m4b") || str_eq(format, "oga") || str_eq(format, "opus")
        || str_eq(format, "webm");
    proof {
        if r {
            assert(spec_supported_formats().contains(format@));
        } else {
            assert(forall|i: int| 0 <= i < spec_supported_formats().len()
                ==> spec_supported_formats()[i] != format@);
        }
    }
    r
}

} // verus!
