use vstd::prelude::*;
use vstd::string::*;

verus! {

/// The MD5 digest of a byte string.
pub uninterp spec fn md5_of(data: Seq<u8>) -> Seq<u8>;

/// Relies on `md5::compute`: the 16 bytes of the MD5 digest of `data`.
#[verifier::external_body]
fn md5_digest(data: &[u8]) -> (r: Vec<u8>)
    ensures
        r@ == md5_of(data@),
        r@.len() == 16,
{
    md5::compute(data).0.to_vec()
}

pub open spec fn hex_digits() -> Seq<char> {
    seq!['0', '1', '2', '3', '4', '5', '6', '7', '8', '9', 'a', 'b', 'c', 'd', 'e', 'f']
}

/// Two lowercase hexadecimal digits per byte, most significant first.
pub open spec fn lower_hex(bytes: Seq<u8>) -> Seq<char>
    decreases bytes.len(),
{
    if bytes.len() == 0 {
        seq![]
    } else {
        let b = bytes.last();
        lower_hex(bytes.drop_last()) + seq![hex_digits()[b as int / 16], hex_digits()[b as int % 16]]
    }
}

/// The textual digest recorded for an artifact: its MD5 in lowercase hex.
pub open spec fn digest_text(payload: Seq<u8>) -> Seq<char> {
    lower_hex(md5_of(payload))
}

pub proof fn lemma_lower_hex_chars(bytes: Seq<u8>)
    ensures
        lower_hex(bytes).len() == 2 * bytes.len(),
        forall|i: int| 0 <= i < lower_hex(bytes).len() ==> hex_digits().contains(#[trigger] lower_hex(bytes)[i]),
    decreases bytes.len(),
{
    if bytes.len() > 0 {
        lemma_lower_hex_chars(bytes.drop_last());
        let b = bytes.last();
        let h = lower_hex(bytes);
        let t = lower_hex(bytes.drop_last());
        assert forall|i: int| 0 <= i < h.len() implies hex_digits().contains(#[trigger] h[i]) by {
            if i < t.len() {
                assert(h[i] == t[i]);
            } else if i == t.len() {
                assert(h[i] == hex_digits()[b as int / 16]);
            } else {
                assert(h[i] == hex_digits()[b as int % 16]);
            }
        }
    }
}

/// Writes `bytes` as lowercase hexadecimal text.
pub fn lower_hex_text(bytes: &[u8]) -> (r: String)
    ensures
        r@ == lower_hex(bytes@),
{
    let table = "0123456789abcdef";
    proof {
        reveal_strlit("0123456789abcdef");
        assert(table@ =~= hex_digits());
    }
    let mut out = String::from_str("");
    proof {
        reveal_strlit("");
    }
    let mut i: usize = 0;
    while i < bytes.len()
        invariant
            i <= bytes@.len(),
            table@ == hex_digits(),
            out@ == lower_hex(bytes@.subrange(0, i as int)),
        decreases bytes@.len() - i,
    {
        let b = bytes[i];
        let hi = (b / 16) as usize;
        let lo = (b % 16) as usize;
        out.append(table.substring_char(hi, hi + 1));
        out.append(table.substring_char(lo, lo + 1));
        proof {
            let s = bytes@.subrange(0, i + 1);
            assert(s.drop_last() =~= bytes@.subrange(0, i as int));
            assert(table@.subrange(hi as int, hi + 1) =~= seq![hex_digits()[b as int / 16]]);
            assert(table@.subrange(lo as int, lo + 1) =~= seq![hex_digits()[b as int % 16]]);
            assert(out@ =~= lower_hex(s));
        }
        i += 1;
    }
    assert(bytes@.subrange(0, i as int) =~= bytes@);
    out
}

/// The digest text of an embedded artifact.
pub fn embedded_digest(payload: &[u8]) -> (r: String)
    ensures
        r@ == digest_text(payload@),
        r@.len() == 32,
{
    let d = md5_digest(payload);
    proof {
        lemma_lower_hex_chars(d@);
    }
    lower_hex_text(d.as_slice())
}

} // verus!
