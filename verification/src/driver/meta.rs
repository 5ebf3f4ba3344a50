use vstd::prelude::*;

verus! {

/// The little-endian 16-bit value at `p`.
pub open spec fn spec_le_u16(s: Seq<u8>, p: int) -> u16 {
    (s[p] as int + s[p + 1] as int * 0x100) as u16
}

/// The little-endian 32-bit value at `p`.
pub open spec fn spec_le_u32(s: Seq<u8>, p: int) -> u32 {
    (s[p] as int + s[p + 1] as int * 0x100 + s[p + 2] as int * 0x10000 + s[p + 3] as int * 0x1000000) as u32
}

/// Whether `s` starts with the bytes of `tag`.
pub open spec fn spec_has_tag(s: Seq<u8>, tag: Seq<u8>) -> bool {
    s.len() >= tag.len() && s.subrange(0, tag.len() as int) == tag
}

/// The little-endian 16-bit value at `p`.
pub fn le_u16(s: &[u8], p: usize) -> (r: u16)
    requires
        p + 2 <= s@.len(),
    ensures
        r == spec_le_u16(s@, p as int),
{
    s[p] as u16 + s[p + 1] as u16 * 0x100
}

/// The little-endian 32-bit value at `p`.
pub fn le_u32(s: &[u8], p: usize) -> (r: u32)
    requires
        p + 4 <= s@.len(),
    ensures
        r == spec_le_u32(s@, p as int),
{
    s[p] as u32 + s[p + 1] as u32 * 0x100 + s[p + 2] as u32 * 0x10000 + s[p + 3] as u32 * 0x1000000
}

/// Whether `s` starts with the bytes of `tag`.
pub fn has_tag(s: &[u8], tag: &[u8]) -> (r: bool)
    ensures
        r == spec_has_tag(s@, tag@),
{
    if s.len() < tag.len() {
        return false;
    }
    let mut i: usize = 0;
    while i < tag.len()
        invariant
            i <= tag@.len() <= s@.len(),
            forall|k: int| 0 <= k < i ==> s@[k] == tag@[k],
        decreases tag@.len() - i,
    {
        if s[i] != tag[i] {
            assert(s@.subrange(0, tag@.len() as int)[i as int] != tag@[i as int]);
            return false;
        }
        i = i + 1;
    }
    assert(s@.subrange(0, tag@.len() as int) =~= tag@);
    true
}

/// What a gzip decoder yields for `data`: the decompressed bytes of its
/// first member, or `None` where `data` is no valid gzip stream.
pub uninterp spec fn gzip_decompress(data: Seq<u8>) -> Option<Seq<u8>>;

/// Whether `data` opens with a gzip header's first bytes: the magic
/// 1f 8b and the deflate method 8, within a 10-byte fixed header.
pub open spec fn spec_gzip_lead(data: Seq<u8>) -> bool {
    data.len() >= 10 && data[0] == 0x1f && data[1] == 0x8b && data[2] == 8
}

/// Decompress gzip data with flate2's `read::GzDecoder` (`read_to_end` into
/// an empty buffer). Claims that the result is `gzip_decompress` of the
/// input: the bytes when the decoder reads to the end without error, `None`
/// when it reports an error; and that the decoder reports an error on input
/// without the gzip lead (its header parser reads 10 bytes, failing at the
/// end of shorter input, and refuses other magic bytes or methods).
#[verifier::external_body]
pub(crate) fn gunzip(data: &[u8]) -> (r: Option<Vec<u8>>)
    ensures
        match r {
            Some(v) => gzip_decompress(data@) == Some(v@),
            None => gzip_decompress(data@) is None,
        },
        !spec_gzip_lead(data@) ==> r is None,
{
    let mut decoder = flate2::read::GzDecoder::new(data);
    let mut out: Vec<u8> = Vec::new();
    match std::io::Read::read_to_end(&mut decoder, &mut out) {
        Ok(_) => Some(out),
        Err(_) => None,
    }
}

/// The bytes that a file loader works on: the gzip-decompressed content, or
/// the file itself where it is not gzip data.
pub open spec fn spec_extract(file: Seq<u8>) -> Seq<u8> {
    match gzip_decompress(file) {
        Some(d) => d,
        None => file,
    }
}

/// Decompress a file if it is gzip data, else copy it.
pub fn extract(file: &[u8]) -> (r: Vec<u8>)
    ensures
        r@ == spec_extract(file@),
        !spec_gzip_lead(file@) ==> r@ == file@,
{
    match gunzip(file) {
        Some(d) => d,
        None => vstd::slice::slice_to_vec(file),
    }
}

} // verus!
