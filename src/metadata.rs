use vstd::prelude::*;
use vstd::slice::slice_to_vec;
use vstd::string::StringSliceAdditionalSpecFns;

verus! {

/// The keyword that marks a textual chunk holding an XMP packet.
pub const XMP_KEY: &'static str = "XML:com.adobe.xmp";

/// The legacy keyword that marks a textual chunk holding an IPTC block.
pub const IPTC_KEY: &'static str = "Raw profile type iptc";

/// The legacy keyword that marks a textual chunk holding a Photoshop 8BIM block.
pub const IPTC_8BIM_KEY: &'static str = "Raw profile type 8bim";

/// Whether `needle` occurs in `hay` as a contiguous run of bytes.
pub open spec fn contains_bytes(hay: Seq<u8>, needle: Seq<u8>) -> bool {
    exists|i: int| 0 <= i && i + needle.len() <= hay.len() && #[trigger] hay.subrange(i, i + needle.len()) == needle
}

/// Whether `needle` occurs in `hay` at offset `i`.
pub open spec fn occurs_at(hay: Seq<u8>, needle: Seq<u8>, i: int) -> bool {
    forall|j: int| 0 <= j < needle.len() ==> hay[i + j] == needle[j]
}

/// The byte strings held by a sequence of byte vectors.
pub open spec fn byte_strings(v: Seq<Vec<u8>>) -> Seq<Seq<u8>> {
    v.map_values(|b: Vec<u8>| b@)
}

/// The keys that mark an XMP chunk.
pub open spec fn xmp_keys() -> Seq<Seq<u8>> {
    seq![XMP_KEY.spec_bytes()]
}

/// The keys that mark an IPTC chunk.
pub open spec fn iptc_keys() -> Seq<Seq<u8>> {
    seq![IPTC_KEY.spec_bytes(), IPTC_8BIM_KEY.spec_bytes()]
}

/// The keys that mark an XMP chunk, as bytes.
pub fn xmp_key_list() -> (r: Vec<Vec<u8>>)
    ensures
        byte_strings(r@) == xmp_keys(),
{
    let mut r: Vec<Vec<u8>> = Vec::new();
    r.push(slice_to_vec(XMP_KEY.as_bytes()));
    assert(byte_strings(r@) =~= xmp_keys());
    r
}

/// The keys that mark an IPTC chunk, as bytes.
pub fn iptc_key_list() -> (r: Vec<Vec<u8>>)
    ensures
        byte_strings(r@) == iptc_keys(),
{
    let mut r: Vec<Vec<u8>> = Vec::new();
    r.push(slice_to_vec(IPTC_KEY.as_bytes()));
    r.push(slice_to_vec(IPTC_8BIM_KEY.as_bytes()));
    assert(byte_strings(r@) =~= iptc_keys());
    r
}

/// The first of the keywords that contains one of the keys, if any does.
pub open spec fn first_match(keywords: Seq<Seq<u8>>, keys: Seq<Seq<u8>>, i: int) -> bool {
    &&& 0 <= i < keywords.len()
    &&& exists|k: int| 0 <= k < keys.len() && #[trigger] contains_bytes(keywords[i], keys[k])
    &&& forall|j: int, k: int|
        0 <= j < i && 0 <= k < keys.len() ==> !#[trigger] contains_bytes(keywords[j], keys[k])
}

/// Whether any of the keywords contains one of the keys.
pub open spec fn any_match(keywords: Seq<Seq<u8>>, keys: Seq<Seq<u8>>) -> bool {
    exists|j: int, k: int|
        0 <= j < keywords.len() && 0 <= k < keys.len() && #[trigger] contains_bytes(keywords[j], keys[k])
}

/// Whether `needle` occurs in `hay` as a contiguous run of bytes.
pub fn contains_slice(hay: &[u8], needle: &[u8]) -> (r: bool)
    ensures
        r == contains_bytes(hay@, needle@),
{
    let n = hay.len();
    let m = needle.len();
    if m > n {
        proof {
            assert forall|i: int| 0 <= i && i + m <= n implies #[trigger] hay@.subrange(i, i + m) != needle@ by {}
        }
        return false;
    }
    let mut i: usize = 0;
    while i <= n - m
        invariant
            m <= n,
            n == hay@.len(),
            m == needle@.len(),
            i <= n - m + 1,
            forall|p: int| 0 <= p < i ==> #[trigger] hay@.subrange(p, p + m) != needle@,
        decreases n - m + 1 - i,
    {
        let mut j: usize = 0;
        while j < m && hay[i + j] == needle[j]
            invariant
                m <= n,
                i <= n - m,
                n == hay@.len(),
                m == needle@.len(),
                j <= m,
                forall|q: int| 0 <= q < j ==> hay@[i + q] == needle@[q],
            decreases m - j,
        {
            j = j + 1;
        }
        if j == m {
            assert(hay@.subrange(i as int, i + m) =~= needle@);
            return true;
        }
        assert(hay@.subrange(i as int, i + m)[j as int] != needle@[j as int]);
        i = i + 1;
    }
    false
}

/// Whether the keyword contains one of the keys.
pub fn contains_any(keyword: &Vec<u8>, keys: &Vec<Vec<u8>>) -> (r: bool)
    ensures
        r == exists|k: int| 0 <= k < keys.len() && #[trigger] contains_bytes(keyword@, byte_strings(keys@)[k]),
{
    let mut k: usize = 0;
    while k < keys.len()
        invariant
            k <= keys.len(),
            forall|p: int| 0 <= p < k ==> !#[trigger] contains_bytes(keyword@, byte_strings(keys@)[p]),
        decreases keys.len() - k,
    {
        if contains_slice(keyword.as_slice(), keys[k].as_slice()) {
            assert(byte_strings(keys@)[k as int] == keys[k as int]@);
            return true;
        }
        assert(byte_strings(keys@)[k as int] == keys[k as int]@);
        k = k + 1;
    }
    false
}

/// The index of the first keyword that contains one of the keys.
pub fn find_keyword(keywords: &Vec<Vec<u8>>, keys: &Vec<Vec<u8>>) -> (r: Option<usize>)
    ensures
        match r {
            Some(i) => first_match(byte_strings(keywords@), byte_strings(keys@), i as int),
            None => !any_match(byte_strings(keywords@), byte_strings(keys@)),
        },
{
    let mut i: usize = 0;
    while i < keywords.len()
        invariant
            i <= keywords.len(),
            forall|j: int, k: int|
                0 <= j < i && 0 <= k < keys.len() ==> !#[trigger] contains_bytes(byte_strings(keywords@)[j], byte_strings(keys@)[k]),
        decreases keywords.len() - i,
    {
        assert(byte_strings(keywords@)[i as int] == keywords[i as int]@);
        if contains_any(&keywords[i], keys) {
            return Some(i);
        }
        i = i + 1;
    }
    None
}

} // verus!
