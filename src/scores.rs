//! The fixed table of reference scores that turns raw timings into speeds
//! comparable across benchmarks.
use vstd::prelude::*;
use vstd::string::StringSliceAdditionalSpecFns;
use vstd::utf8::encode_utf8_decode_utf8;

verus! {

/// The number of benchmarks that have a reference score.
pub const REFERENCE_COUNT: usize = 19;

/// Whether two names are the same character sequence, decided byte by byte.
pub fn names_match(a: &str, b: &str) -> (r: bool)
    ensures
        r == (a@ == b@),
{
    let x = a.as_bytes();
    let y = b.as_bytes();
    proof {
        encode_utf8_decode_utf8(a@);
        encode_utf8_decode_utf8(b@);
    }
    if x.len() != y.len() {
        return false;
    }
    let mut i: usize = 0;
    while i < x.len()
        invariant
            x@ == a.spec_bytes(),
            y@ == b.spec_bytes(),
            x@.len() == y@.len(),
            i <= x@.len(),
            forall|j: int| 0 <= j < i ==> x@[j] == y@[j],
        decreases x@.len() - i,
    {
        if x[i] != y[i] {
            assert(x@[i as int] != y@[i as int]);
            assert(x@ != y@);
            return false;
        }
        i = i + 1;
    }
    assert(x@ =~= y@);
    true
}

/// The reference score of the benchmark called `name`, if the table has one.
pub open spec fn reference_score_of(name: Seq<char>) -> Option<u64> {
    if name == "aha-mont64"@ {
        Some(4_004)
    } else if name == "crc32"@ {
        Some(4_010)
    } else if name == "cubic"@ {
        Some(3_931)
    } else if name == "edn"@ {
        Some(4_010)
    } else if name == "huffbench"@ {
        Some(4_120)
    } else if name == "matmult-int"@ {
        Some(3_985)
    } else if name == "minver"@ {
        Some(3_998)
    } else if name == "nbody"@ {
        Some(2_808)
    } else if name == "neetle-aes"@ {
        Some(4_026)
    } else if name == "neetle-sha256"@ {
        Some(3_997)
    } else if name == "nsichneu"@ {
        Some(4_001)
    } else if name == "picojpeg"@ {
        Some(4_030)
    } else if name == "qrduino"@ {
        Some(4_253)
    } else if name == "sglib-combined"@ {
        Some(3_981)
    } else if name == "slre"@ {
        Some(4_010)
    } else if name == "st"@ {
        Some(4_080)
    } else if name == "statemate"@ {
        Some(4_001)
    } else if name == "ud"@ {
        Some(3_999)
    } else if name == "wikisort"@ {
        Some(2_779)
    } else {
        None
    }
}

/// Looks up the reference score of a benchmark by its exact name.
pub fn reference_score(name: &str) -> (r: Option<u64>)
    ensures
        r == reference_score_of(name@),
{
    if names_match(name, "aha-mont64") {
        Some(4_004)
    } else if names_match(name, "crc32") {
        Some(4_010)
    } else if names_match(name, "cubic") {
        Some(3_931)
    } else if names_match(name, "edn") {
        Some(4_010)
    } else if names_match(name, "huffbench") {
        Some(4_120)
    } else if names_match(name, "matmult-int") {
        Some(3_985)
    } else if names_match(name, "minver") {
        Some(3_998)
    } else if names_match(name, "nbody") {
        Some(2_808)
    } else if names_match(name, "neetle-aes") {
        Some(4_026)
    } else if names_match(name, "neetle-sha256") {
        Some(3_997)
    } else if names_match(name, "nsichneu") {
        Some(4_001)
    } else if names_match(name, "picojpeg") {
        Some(4_030)
    } else if names_match(name, "qrduino") {
        Some(4_253)
    } else if names_match(name, "sglib-combined") {
        Some(3_981)
    } else if names_match(name, "slre") {
        Some(4_010)
    } else if names_match(name, "st") {
        Some(4_080)
    } else if names_match(name, "statemate") {
        Some(4_001)
    } else if names_match(name, "ud") {
        Some(3_999)
    } else if names_match(name, "wikisort") {
        Some(2_779)
    } else {
        None
    }
}

} // verus!
