//! How a DICOM file is recognised: by the extension of its name, or by the
//! magic bytes behind its preamble.

use crate::text::chars_of;
use vstd::prelude::*;

verus! {

/// The length of the preamble that precedes the magic bytes.
pub const PREAMBLE_LEN: usize = 128;

/// The length of the header: the preamble and the four magic bytes.
pub const HEADER_LEN: usize = 132;

/// The magic bytes: the letters `DICM`.
pub open spec fn magic() -> Seq<u8> {
    seq![0x44u8, 0x49u8, 0x43u8, 0x4du8]
}

/// Whether the bytes begin with a DICOM header: at least 132 bytes, of
/// which the last four of the first 132 are the magic bytes.
pub open spec fn starts_with_header(bytes: Seq<u8>) -> bool {
    bytes.len() >= HEADER_LEN && bytes.subrange(PREAMBLE_LEN as int, HEADER_LEN as int) == magic()
}

/// Whether `s` is `lower`, letter by letter, where each letter may also be
/// the one of `upper` at the same place.
pub open spec fn same_in_either_case(s: Seq<char>, lower: Seq<char>, upper: Seq<char>) -> bool {
    &&& s.len() == lower.len()
    &&& forall|i: int| 0 <= i < s.len() ==> s[i] == lower[i] || s[i] == upper[i]
}

/// Whether an extension is that of a DICOM file: `dcm` or `dicom`, in any
/// mix of upper and lower case.
pub open spec fn dicom_extension(ext: Seq<char>) -> bool {
    same_in_either_case(ext, "dcm"@, "DCM"@) || same_in_either_case(ext, "dicom"@, "DICOM"@)
}

/// Whether the bytes, read from the start of a file, show that the file is
/// a DICOM file: a preamble of 128 bytes followed by `DICM`.
pub fn has_dicom_header(bytes: &[u8]) -> (r: bool)
    ensures
        r == starts_with_header(bytes@),
{
    if bytes.len() < HEADER_LEN {
        return false;
    }
    let r = bytes[128] == 0x44 && bytes[129] == 0x49 && bytes[130] == 0x43 && bytes[131] == 0x4d;
    proof {
        let found = bytes@.subrange(PREAMBLE_LEN as int, HEADER_LEN as int);
        assert(found[0] == bytes@[128] && found[1] == bytes@[129] && found[2] == bytes@[130]
            && found[3] == bytes@[131]);
        if r {
            assert(found =~= magic());
        }
    }
    r
}

fn is_in_either_case(s: &Vec<char>, lower: &str, upper: &str) -> (r: bool)
    requires
        lower@.len() == upper@.len(),
    ensures
        r == same_in_either_case(s@, lower@, upper@),
{
    let l = chars_of(lower);
    let u = chars_of(upper);
    if s.len() != l.len() {
        return false;
    }
    let mut k: usize = 0;
    while k < s.len()
        invariant
            s.len() == l.len(),
            l.len() == u.len(),
            l@ == lower@,
            u@ == upper@,
            k <= s.len(),
            forall|i: int| 0 <= i < k ==> s@[i] == l@[i] || s@[i] == u@[i],
        decreases s.len() - k,
    {
        if s[k] != l[k] && s[k] != u[k] {
            return false;
        }
        k += 1;
    }
    true
}

/// Whether an extension, given without its dot, is that of a DICOM file.
pub fn is_dicom_extension(ext: &str) -> (r: bool)
    ensures
        r == dicom_extension(ext@),
{
    let c = chars_of(ext);
    proof {
        reveal_strlit("dcm");
        reveal_strlit("DCM");
        reveal_strlit("dicom");
        reveal_strlit("DICOM");
    }
    is_in_either_case(&c, "dcm", "DCM") || is_in_either_case(&c, "dicom", "DICOM")
}

/// Whether a file is taken for a DICOM file. A file whose name has an
/// extension goes by the extension alone; a file without one goes by the
/// start of its content.
pub fn is_dicom_candidate(extension: &Option<String>, start: &[u8]) -> (r: bool)
    ensures
        r == match *extension {
            Some(ext) => dicom_extension(ext@),
            None => starts_with_header(start@),
        },
{
    match extension {
        Some(ext) => is_dicom_extension(ext.as_str()),
        None => has_dicom_header(start),
    }
}

/// A header is recognised by its 129th to 132nd byte alone: what the
/// preamble holds and what follows the header do not matter.
pub proof fn lemma_header_ignores_the_rest(a: Seq<u8>, b: Seq<u8>)
    requires
        a.len() >= HEADER_LEN,
        b.len() >= HEADER_LEN,
        forall|i: int| PREAMBLE_LEN <= i < HEADER_LEN ==> a[i] == b[i],
    ensures
        starts_with_header(a) == starts_with_header(b),
{
    assert(a.subrange(PREAMBLE_LEN as int, HEADER_LEN as int) =~= b.subrange(
        PREAMBLE_LEN as int,
        HEADER_LEN as int,
    ));
}

} // verus!
