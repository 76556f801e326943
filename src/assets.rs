//! Paths of the downloaded input asset and names of the recording outputs.
use vstd::prelude::*;
use vstd::string::*;

verus! {

/// Where assets live, below the package directory.
pub const ASSETS_SUBDIR: &'static str = "target/tmp/assets";

/// File name of the downloaded input asset.
pub const INPUT_ASSET_NAME: &'static str = "input1.mp4";

/// `rel` appended to `base` as a path component: a relative `rel` goes after a
/// separator, added only when `base` is not empty and does not end in one; an
/// absolute `rel` replaces `base`.
pub open spec fn join_spec(base: Seq<char>, rel: Seq<char>) -> Seq<char> {
    if rel.len() > 0 && rel[0] == '/' {
        rel
    } else if base.len() == 0 || base.last() == '/' {
        base + rel
    } else {
        base + seq!['/'] + rel
    }
}

/// Joins `rel` onto the path `base`.
pub fn join_path(base: &str, rel: &str) -> (r: String)
    ensures
        r@ == join_spec(base@, rel@),
{
    let rel_len = rel.unicode_len();
    if rel_len > 0 && rel.get_char(0) == '/' {
        return String::from_str(rel);
    }
    let base_len = base.unicode_len();
    let mut r = String::from_str(base);
    if base_len > 0 && base.get_char(base_len - 1) != '/' {
        r.append("/");
        proof {
            reveal_strlit("/");
        }
    }
    r.append(rel);
    r
}

/// The directory that holds the assets of the package rooted at `manifest_dir`.
pub fn assets_path(manifest_dir: &str) -> (r: String)
    ensures
        r@ == join_spec(manifest_dir@, ASSETS_SUBDIR@),
{
    join_path(manifest_dir, ASSETS_SUBDIR)
}

/// Where the input asset is stored inside the assets directory.
pub fn input_asset_path(assets_dir: &str) -> (r: String)
    ensures
        r@ == join_spec(assets_dir@, INPUT_ASSET_NAME@),
{
    join_path(assets_dir, INPUT_ASSET_NAME)
}

/// The file name has the extension `mp4`: it ends in `.mp4` and something
/// stands before that dot.
pub open spec fn is_mp4_name_spec(name: Seq<char>) -> bool {
    let n = name.len();
    &&& n >= 5
    &&& name[n - 4] == '.'
    &&& name[n - 3] == 'm'
    &&& name[n - 2] == 'p'
    &&& name[n - 1] == '4'
}

/// Whether a file of this name is a recording, to be cleared away at startup.
pub fn is_mp4_name(name: &str) -> (r: bool)
    ensures
        r == is_mp4_name_spec(name@),
{
    let n = name.unicode_len();
    if n < 5 {
        return false;
    }
    name.get_char(n - 4) == '.' && name.get_char(n - 3) == 'm' && name.get_char(n - 2) == 'p'
        && name.get_char(n - 1) == '4'
}

/// How many inputs are recorded: at most `max_inputs`, and no more than exist.
pub fn recording_count(max_inputs: usize, available: usize) -> (r: usize)
    ensures
        r == if max_inputs <= available { max_inputs } else { available },
{
    if max_inputs <= available {
        max_inputs
    } else {
        available
    }
}

/// The output that records input `input_id`.
pub fn recording_output_id(input_id: &str) -> (r: String)
    ensures
        r@ == "recording_output_"@ + input_id@,
{
    let r = String::from_str("recording_output_");
    r.concat(input_id)
}

/// The file, inside the recordings folder, that the recording of `input_id` goes to.
pub fn recording_file_name(input_id: &str) -> (r: String)
    ensures
        r@ == "recording_"@ + input_id@ + ".mp4"@,
{
    let r = String::from_str("recording_");
    let r = r.concat(input_id);
    r.concat(".mp4")
}

} // verus!
