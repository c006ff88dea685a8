use vstd::prelude::*;

verus! {

/// The lower-case form of a text, as std's Unicode case mapping gives it.
pub uninterp spec fn lower_of(s: Seq<char>) -> Seq<char>;

/// Relies on `str::to_lowercase`: the result depends on the characters of the
/// text alone.
#[verifier::external_body]
fn lowercase(s: &str) -> (r: String)
    ensures
        r@ == lower_of(s@),
{
    s.to_lowercase()
}

/// Whether `needle` occurs in `hay` as a contiguous run.
pub open spec fn contains_seq(hay: Seq<u8>, needle: Seq<u8>) -> bool {
    exists|i: int|
        0 <= i && i + needle.len() <= hay.len() && #[trigger] hay.subrange(i, i + needle.len())
            == needle
}

/// Bytes of a text in UTF-8.
pub open spec fn utf8_of(s: Seq<char>) -> Seq<u8> {
    vstd::utf8::encode_utf8(s)
}

/// Substring search over bytes.
pub fn contains_bytes(hay: &[u8], needle: &[u8]) -> (r: bool)
    ensures
        r == contains_seq(hay@, needle@),
{
    let n = needle.len();
    if n > hay.len() {
        assert forall|i: int| 0 <= i && i + needle@.len() <= hay@.len() implies #[trigger] hay@.subrange(
            i,
            i + needle@.len(),
        ) != needle@ by {}
        return false;
    }
    let last = hay.len() - n;
    let mut i: usize = 0;
    while i <= last
        invariant
            n == needle@.len(),
            last + n == hay@.len(),
            hay@.len() <= usize::MAX,
            0 <= i <= last + 1,
            forall|k: int| 0 <= k < i ==> #[trigger] hay@.subrange(k, k + n) != needle@,
        decreases last + 1 - i,
    {
        let mut j: usize = 0;
        let mut same = true;
        while j < n
            invariant
                n == needle@.len(),
                last + n == hay@.len(),
                hay@.len() <= usize::MAX,
                0 <= i <= last,
                0 <= j <= n,
                same == (forall|t: int| 0 <= t < j ==> hay@[i + t] == needle@[t]),
            decreases n - j,
        {
            if hay[i + j] != needle[j] {
                same = false;
            }
            j = j + 1;
        }
        if same {
            assert(hay@.subrange(i as int, i + n) =~= needle@);
            return true;
        }
        assert(hay@.subrange(i as int, i + n) != needle@) by {
            let t = choose|t: int| 0 <= t < n && hay@[i + t] != needle@[t];
            assert(hay@.subrange(i as int, i + n)[t] == hay@[i + t]);
        }
        if i == last {
            assert forall|k: int| 0 <= k && k + needle@.len() <= hay@.len() implies #[trigger] hay@.subrange(
                k,
                k + needle@.len(),
            ) != needle@ by {
                assert(k < i + 1);
            }
            return false;
        }
        i = i + 1;
    }
    false
}

/// "yes" in UTF-8.
pub open spec fn yes_bytes() -> Seq<u8> {
    seq![121u8, 101u8, 115u8]
}

/// "true" in UTF-8.
pub open spec fn true_bytes() -> Seq<u8> {
    seq![116u8, 114u8, 117u8, 101u8]
}

/// Whether an already lower-cased text reads as an affirmative answer: it
/// contains "yes" or "true".
pub open spec fn affirmative(lowered: Seq<char>) -> bool {
    contains_seq(utf8_of(lowered), yes_bytes()) || contains_seq(utf8_of(lowered), true_bytes())
}

/// Whether an already lower-cased text contains "yes" or "true".
pub fn is_affirmative_lowered(lowered: &str) -> (r: bool)
    ensures
        r == affirmative(lowered@),
{
    let bytes = lowered.as_bytes();
    let yes: [u8; 3] = [121, 101, 115];
    let tru: [u8; 4] = [116, 114, 117, 101];
    assert(yes@ =~= yes_bytes());
    assert(tru@ =~= true_bytes());
    contains_bytes(bytes, vstd::array::array_as_slice(&yes)) || contains_bytes(
        bytes,
        vstd::array::array_as_slice(&tru),
    )
}

/// Whether a text, in any letter case, contains "yes" or "true".
pub fn mentions_affirmative(text: &str) -> (r: bool)
    ensures
        r == affirmative(lower_of(text@)),
{
    let lowered = lowercase(text);
    is_affirmative_lowered(lowered.as_str())
}

/// Whether an already lower-cased text contains one of `keywords` (each
/// given in lower case).
pub open spec fn contains_any_keyword(lowered: Seq<char>, keywords: Seq<String>) -> bool {
    exists|k: int| 0 <= k < keywords.len() && contains_seq(utf8_of(lowered), utf8_of(#[trigger] keywords[k]@))
}

pub fn contains_keyword_lowered(lowered: &str, keywords: &Vec<String>) -> (r: bool)
    ensures
        r == contains_any_keyword(lowered@, keywords@),
{
    let bytes = lowered.as_bytes();
    let mut k: usize = 0;
    while k < keywords.len()
        invariant
            0 <= k <= keywords@.len(),
            bytes@ == utf8_of(lowered@),
            forall|j: int| 0 <= j < k ==> !contains_seq(utf8_of(lowered@), utf8_of(#[trigger] keywords@[j]@)),
        decreases keywords@.len() - k,
    {
        if contains_bytes(bytes, keywords[k].as_str().as_bytes()) {
            return true;
        }
        k = k + 1;
    }
    false
}

/// Whether a text, in any letter case, contains one of `keywords` (each given
/// in lower case). The keyword list is the moderation policy in force.
pub fn contains_keyword(text: &str, keywords: &Vec<String>) -> (r: bool)
    ensures
        r == contains_any_keyword(lower_of(text@), keywords@),
{
    let lowered = lowercase(text);
    contains_keyword_lowered(lowered.as_str(), keywords)
}

} // verus!
