//! Canonical byte encoding for hash-linked records.
//!
//! Every variable-length field is prefixed with its byte length as eight
//! little-endian bytes, so a record has exactly one encoding.

use vstd::prelude::*;
use vstd::utf8::encode_utf8;

verus! {

/// Eight little-endian bytes of a length or counter.
pub open spec fn spec_le8(n: int) -> Seq<u8> {
    seq![
        (n % 256) as u8,
        ((n / 0x100) % 256) as u8,
        ((n / 0x10000) % 256) as u8,
        ((n / 0x1000000) % 256) as u8,
        ((n / 0x100000000) % 256) as u8,
        ((n / 0x10000000000) % 256) as u8,
        ((n / 0x1000000000000) % 256) as u8,
        ((n / 0x100000000000000) % 256) as u8,
    ]
}

/// One string field: length prefix, then the UTF-8 bytes.
pub open spec fn spec_enc_str(s: Seq<char>) -> Seq<u8> {
    spec_le8(encode_utf8(s).len() as int) + encode_utf8(s)
}

/// The concatenated encodings of a list's strings, in order.
pub open spec fn spec_enc_strs(items: Seq<String>) -> Seq<u8>
    decreases items.len(),
{
    if items.len() == 0 {
        Seq::<u8>::empty()
    } else {
        spec_enc_strs(items.drop_last()) + spec_enc_str(items.last()@)
    }
}

/// A list field: count prefix, then each string's encoding.
pub open spec fn spec_enc_str_list(items: Seq<String>) -> Seq<u8> {
    spec_le8(items.len() as int) + spec_enc_strs(items)
}

/// The concatenated encodings of a list's key/value pairs, in order.
pub open spec fn spec_enc_pair_items(items: Seq<(String, String)>) -> Seq<u8>
    decreases items.len(),
{
    if items.len() == 0 {
        Seq::<u8>::empty()
    } else {
        spec_enc_pair_items(items.drop_last()) + spec_enc_str(items.last().0@) + spec_enc_str(
            items.last().1@,
        )
    }
}

/// A key/value list field: count prefix, then each pair's encoding.
pub open spec fn spec_enc_pair_list(items: Seq<(String, String)>) -> Seq<u8> {
    spec_le8(items.len() as int) + spec_enc_pair_items(items)
}

/// Append the eight little-endian bytes of `n`.
pub fn push_le8(out: &mut Vec<u8>, n: u64)
    ensures
        final(out)@ == old(out)@ + spec_le8(n as int),
{
    out.push((n % 256) as u8);
    out.push(((n / 0x100) % 256) as u8);
    out.push(((n / 0x10000) % 256) as u8);
    out.push(((n / 0x1000000) % 256) as u8);
    out.push(((n / 0x100000000) % 256) as u8);
    out.push(((n / 0x10000000000) % 256) as u8);
    out.push(((n / 0x1000000000000) % 256) as u8);
    out.push(((n / 0x100000000000000) % 256) as u8);
    proof {
        assert(out@ =~= old(out)@ + spec_le8(n as int));
    }
}

/// Append one length-prefixed string field.
pub fn push_str_field(out: &mut Vec<u8>, s: &str)
    ensures
        final(out)@ == old(out)@ + spec_enc_str(s@),
{
    let bytes: &[u8] = s.as_bytes();
    push_le8(out, bytes.len() as u64);
    out.extend_from_slice(bytes);
    proof {
        assert(out@ =~= old(out)@ + spec_enc_str(s@));
    }
}

/// Append one count-prefixed list of string fields.
pub fn push_str_list(out: &mut Vec<u8>, items: &Vec<String>)
    ensures
        final(out)@ == old(out)@ + spec_enc_str_list(items@),
{
    push_le8(out, items.len() as u64);
    let n: usize = items.len();
    let mut i: usize = 0;
    while i < n
        invariant
            0 <= i <= n,
            n == items@.len(),
            out@ == old(out)@ + spec_le8(n as int) + spec_enc_strs(items@.take(i as int)),
        decreases n - i,
    {
        push_str_field(out, items[i].as_str());
        proof {
            assert(items@.take(i + 1).drop_last() =~= items@.take(i as int));
            assert(items@.take(i + 1).last() == items@[i as int]);
            assert(out@ =~= old(out)@ + spec_le8(n as int) + spec_enc_strs(
                items@.take(i + 1),
            ));
        }
        i += 1;
    }
    proof {
        assert(items@.take(n as int) =~= items@);
    }
}

/// Append one count-prefixed list of key/value pairs.
pub fn push_pair_list(out: &mut Vec<u8>, items: &Vec<(String, String)>)
    ensures
        final(out)@ == old(out)@ + spec_enc_pair_list(items@),
{
    push_le8(out, items.len() as u64);
    let n: usize = items.len();
    let mut i: usize = 0;
    while i < n
        invariant
            0 <= i <= n,
            n == items@.len(),
            out@ == old(out)@ + spec_le8(n as int) + spec_enc_pair_items(items@.take(i as int)),
        decreases n - i,
    {
        push_str_field(out, items[i].0.as_str());
        push_str_field(out, items[i].1.as_str());
        proof {
            assert(items@.take(i + 1).drop_last() =~= items@.take(i as int));
            assert(items@.take(i + 1).last() == items@[i as int]);
            assert(out@ =~= old(out)@ + spec_le8(n as int) + spec_enc_pair_items(
                items@.take(i + 1),
            ));
        }
        i += 1;
    }
    proof {
        assert(items@.take(n as int) =~= items@);
    }
}

/// The lower-case hex digit of a value below 16.
pub open spec fn spec_hex_digit(v: int) -> u8 {
    if v < 10 {
        (v + 48) as u8
    } else {
        (v + 87) as u8
    }
}

/// Lower-case hex encoding of a byte sequence, as ASCII bytes.
pub open spec fn spec_hex_bytes(data: Seq<u8>) -> Seq<u8>
    decreases data.len(),
{
    if data.len() == 0 {
        Seq::<u8>::empty()
    } else {
        spec_hex_bytes(data.drop_last()) + seq![
            spec_hex_digit(data.last() as int / 16),
            spec_hex_digit(data.last() as int % 16),
        ]
    }
}

/// The same hex encoding read as characters.
pub open spec fn spec_hex_chars(data: Seq<u8>) -> Seq<char> {
    spec_hex_bytes(data).map_values(|b: u8| b as char)
}

/// Every hex byte is printable ASCII.
pub proof fn lemma_hex_bytes_ascii(data: Seq<u8>)
    ensures
        forall|i: int|
            0 <= i < spec_hex_bytes(data).len() ==> #[trigger] spec_hex_bytes(data)[i] < 128,
        spec_hex_bytes(data).len() == 2 * data.len(),
    decreases data.len(),
{
    if data.len() > 0 {
        lemma_hex_bytes_ascii(data.drop_last());
    }
}

/// Lower-case hex encoding, executable form.
pub fn hex_bytes(data: &Vec<u8>) -> (r: Vec<u8>)
    ensures
        r@ == spec_hex_bytes(data@),
{
    let mut out: Vec<u8> = Vec::new();
    let n: usize = data.len();
    let mut i: usize = 0;
    while i < n
        invariant
            0 <= i <= n,
            n == data@.len(),
            out@ == spec_hex_bytes(data@.take(i as int)),
        decreases n - i,
    {
        let b: u8 = data[i];
        let hi: u8 = b / 16;
        let lo: u8 = b % 16;
        out.push(if hi < 10 {
            hi + 48
        } else {
            hi + 87
        });
        out.push(if lo < 10 {
            lo + 48
        } else {
            lo + 87
        });
        proof {
            assert(data@.take(i + 1).drop_last() =~= data@.take(i as int));
            assert(data@.take(i + 1).last() == data@[i as int]);
            assert(out@ =~= spec_hex_bytes(data@.take(i + 1)));
        }
        i += 1;
    }
    proof {
        assert(data@.take(n as int) =~= data@);
    }
    out
}

} // verus!
