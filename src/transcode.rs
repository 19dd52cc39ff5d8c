//! The decisions of the image transcoder: which files of the staging
//! directory are transcoded, to what size, and under what name.
use vstd::prelude::*;
use vstd::string::*;
use crate::fetch::texts;
use crate::text::{extension, extension_dot, same_text, stem};

verus! {

/// The size, in pixels, that the staging directory's images are brought to.
pub const TARGET_WIDTH: u32 = 308;

/// See `TARGET_WIDTH`.
pub const TARGET_HEIGHT: u32 = 461;

/// The quality, out of 100, of the lossy encoding.
pub const QUALITY: u8 = 90;

/// The extensions of the files that a batch transcodes.
pub open spec fn transcodable_extensions() -> Seq<Seq<char>> {
    seq!["png"@, "jpg"@, "webp"@]
}

/// Whether a batch transcodes the file with this name.
pub open spec fn is_transcodable_name(name: Seq<char>) -> bool {
    match extension(name) {
        Some(ext) => transcodable_extensions().contains(ext),
        None => false,
    }
}

/// The name of the transcoded file: the input's stem with the compact
/// format's extension, and `fail` standing for an empty stem.
pub open spec fn output_name(name: Seq<char>) -> Seq<char> {
    if stem(name).len() == 0 {
        "fail"@ + ".webp"@
    } else {
        stem(name) + ".webp"@
    }
}

/// Whether a batch transcodes the file with this name: its extension is one
/// of `png`, `jpg` and `webp`.
pub fn is_transcodable(name: &str) -> (r: bool)
    ensures
        r == is_transcodable_name(name@),
{
    let n = name.unicode_len();
    match extension_dot(name) {
        Some(dot) => {
            let ext = name.substring_char(dot + 1, n);
            let r = same_text(ext, "png") || same_text(ext, "jpg") || same_text(ext, "webp");
            assert(transcodable_extensions()[0] == "png"@);
            assert(transcodable_extensions()[1] == "jpg"@);
            assert(transcodable_extensions()[2] == "webp"@);
            r
        },
        None => false,
    }
}

/// The files of a listing that a batch transcodes, in listing order.
pub fn transcode_inputs(files: &Vec<String>) -> (r: Vec<String>)
    ensures
        texts(r@) == texts(files@).filter(|n: Seq<char>| is_transcodable_name(n)),
{
    let ghost pred = |n: Seq<char>| is_transcodable_name(n);
    let mut out: Vec<String> = Vec::new();
    let mut i: usize = 0;
    while i < files.len()
        invariant
            i <= files.len(),
            pred == (|n: Seq<char>| is_transcodable_name(n)),
            texts(out@) == texts(files@).take(i as int).filter(pred),
        decreases files.len() - i,
    {
        let ghost before = out@;
        proof {
            reveal(Seq::filter);
            assert(texts(files@).take(i + 1).drop_last() =~= texts(files@).take(i as int));
            assert(texts(files@).take(i + 1).last() == files@[i as int]@);
        }
        if is_transcodable(files[i].as_str()) {
            out.push(files[i].clone());
            assert(texts(out@) =~= texts(before).push(files@[i as int]@));
        } else {
            assert(texts(out@) =~= texts(before));
        }
        i = i + 1;
    }
    assert(texts(files@).take(files.len() as int) =~= texts(files@));
    out
}

/// The name of the file that transcoding the file `name` writes.
pub fn output_file_name(name: &str) -> (r: String)
    ensures
        r@ == output_name(name@),
{
    let base = match extension_dot(name) {
        Some(dot) => name.substring_char(0, dot),
        None => name,
    };
    if base.unicode_len() == 0 {
        String::from_str("fail").concat(".webp")
    } else {
        String::from_str(base).concat(".webp")
    }
}

} // verus!
