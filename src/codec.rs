//! The string-tensor wire format: each record is a four-byte little-endian
//! length followed by that many bytes of UTF-8 text. A buffer is any number
//! of records back to back, with no count and no terminator.

use vstd::prelude::*;
use vstd::bytes::{
    lemma_auto_spec_u32_to_from_le_bytes,
    spec_u32_from_le_bytes,
    spec_u32_to_le_bytes,
    u32_from_le_bytes,
    u32_to_le_bytes,
};
use vstd::slice::slice_subrange;
use vstd::string::StrSliceExecFns;
use vstd::utf8::{decode_utf8, encode_utf8, encode_utf8_decode_utf8, encode_utf8_valid_utf8, valid_utf8};
use crate::error::Error;

verus! {

/// The text that lossy UTF-8 decoding makes of a byte sequence.
pub uninterp spec fn lossy_utf8(b: Seq<u8>) -> Seq<char>;

/// Relies on `String::from_utf8_lossy`: the text depends on the bytes alone,
/// and bytes that are valid UTF-8 come back as exactly the text they encode.
#[verifier::external_body]
fn from_utf8_lossy(b: &[u8]) -> (r: String)
    ensures
        r@ == lossy_utf8(b@),
        valid_utf8(b@) ==> r@ == decode_utf8(b@),
{
    String::from_utf8_lossy(b).into_owned()
}

/// The text of one record's payload.
pub open spec fn text_of(b: Seq<u8>) -> Seq<char> {
    if valid_utf8(b) {
        decode_utf8(b)
    } else {
        lossy_utf8(b)
    }
}

/// The text of `b`, with each invalid UTF-8 sequence replaced.
pub fn lossy_text(b: &[u8]) -> (r: String)
    ensures
        r@ == text_of(b@),
{
    from_utf8_lossy(b)
}

/// The texts a buffer holds, or `None` where it ends inside a record.
pub open spec fn decode_records(b: Seq<u8>) -> Option<Seq<Seq<char>>>
    decreases b.len(),
{
    if b.len() == 0 {
        Some(Seq::empty())
    } else if b.len() < 4 {
        None
    } else {
        let n = spec_u32_from_le_bytes(b.subrange(0, 4)) as int;
        if n > b.len() - 4 {
            None
        } else {
            match decode_records(b.subrange(4 + n, b.len() as int)) {
                Some(rest) => Some(seq![text_of(b.subrange(4, 4 + n))] + rest),
                None => None,
            }
        }
    }
}

/// Whether the UTF-8 form of `s` is short enough for a record's length field.
pub open spec fn fits_record(s: Seq<char>) -> bool {
    encode_utf8(s).len() <= u32::MAX
}

/// The record that holds `s`.
pub open spec fn encode_record(s: Seq<char>) -> Seq<u8> {
    spec_u32_to_le_bytes(encode_utf8(s).len() as u32) + encode_utf8(s)
}

/// The records of `ss`, in order, back to back.
pub open spec fn encode_records(ss: Seq<Seq<char>>) -> Seq<u8>
    decreases ss.len(),
{
    if ss.len() == 0 {
        Seq::empty()
    } else {
        encode_record(ss[0]) + encode_records(ss.drop_first())
    }
}

/// The texts of a sequence of strings.
pub open spec fn texts(v: Seq<String>) -> Seq<Seq<char>> {
    v.map_values(|s: String| s@)
}

/// `p` put in front of a decoding outcome.
pub open spec fn prepend(p: Seq<Seq<char>>, o: Option<Seq<Seq<char>>>) -> Option<Seq<Seq<char>>> {
    match o {
        Some(rest) => Some(p + rest),
        None => None,
    }
}

proof fn lemma_prepend_push(p: Seq<Seq<char>>, x: Seq<char>, o: Option<Seq<Seq<char>>>)
    ensures
        prepend(
            p,
            match o {
                Some(rest) => Some(seq![x] + rest),
                None => None,
            },
        ) == prepend(p.push(x), o),
{
    if let Some(rest) = o {
        assert(p + (seq![x] + rest) =~= p.push(x) + rest);
    }
}

/// Decodes every record of `data`, in order. Fails with `Error::Decode`
/// exactly when the buffer ends inside a length field or a payload.
pub fn decode_string(data: &[u8]) -> (r: Result<Vec<String>, Error>)
    ensures
        match r {
            Ok(v) => decode_records(data@) == Some(texts(v@)),
            Err(e) => decode_records(data@) is None && e == Error::Decode,
        },
{
    let mut strings: Vec<String> = Vec::new();
    let mut i: usize = 0;
    proof {
        assert(data@.subrange(0, data@.len() as int) =~= data@);
        if let Some(all) = decode_records(data@) {
            assert(texts(strings@) + all =~= all);
        }
    }
    while i < data.len()
        invariant
            i <= data@.len(),
            decode_records(data@) == prepend(
                texts(strings@),
                decode_records(data@.subrange(i as int, data@.len() as int)),
            ),
        decreases data@.len() - i,
    {
        let ghost t = data@.subrange(i as int, data@.len() as int);
        if data.len() - i < 4 {
            return Err(Error::Decode);
        }
        let wide: usize = u32_from_le_bytes(slice_subrange(data, i, i + 4)) as usize;
        assert(data@.subrange(i as int, i + 4) =~= t.subrange(0, 4));
        let start: usize = i + 4;
        if wide > data.len() - start {
            return Err(Error::Decode);
        }
        let string = lossy_text(slice_subrange(data, start, start + wide));
        proof {
            assert(data@.subrange(start as int, start + wide) =~= t.subrange(4, 4 + wide));
            assert(data@.subrange(start + wide, data@.len() as int) =~= t.subrange(
                4 + wide,
                t.len() as int,
            ));
            lemma_prepend_push(
                texts(strings@),
                string@,
                decode_records(t.subrange(4 + wide, t.len() as int)),
            );
        }
        let ghost before = strings@;
        strings.push(string);
        assert(texts(strings@) =~= texts(before).push(string@));
        i = start + wide;
    }
    assert(data@.subrange(i as int, data@.len() as int) =~= Seq::<u8>::empty());
    assert(texts(strings@) + Seq::empty() =~= texts(strings@));
    Ok(strings)
}

/// The record that holds `value`: its UTF-8 length as four little-endian
/// bytes, then its UTF-8 bytes.
pub fn encode_string(value: &str) -> (r: Vec<u8>)
    requires
        fits_record(value@),
    ensures
        r@ == encode_record(value@),
{
    let mut payload = value.as_bytes_vec();
    let mut bytes = u32_to_le_bytes(payload.len() as u32);
    bytes.append(&mut payload);
    bytes
}

/// Decoding the records of any sequence of strings gives that sequence back.
pub proof fn lemma_round_trip(ss: Seq<Seq<char>>)
    requires
        forall|i: int| 0 <= i < ss.len() ==> fits_record(#[trigger] ss[i]),
    ensures
        decode_records(encode_records(ss)) == Some(ss),
    decreases ss.len(),
{
    if ss.len() > 0 {
        let s = ss[0];
        let p = encode_utf8(s);
        let k = p.len() as int;
        let rest = ss.drop_first();
        assert forall|i: int| 0 <= i < rest.len() implies fits_record(#[trigger] rest[i]) by {
            assert(rest[i] == ss[i + 1]);
        }
        lemma_round_trip(rest);
        lemma_auto_spec_u32_to_from_le_bytes();
        encode_utf8_decode_utf8(s);
        encode_utf8_valid_utf8(s);
        let b = encode_records(ss);
        let n = p.len() as u32;
        assert(b.subrange(0, 4) =~= spec_u32_to_le_bytes(n));
        assert(b.subrange(4, 4 + k) =~= p);
        assert(b.subrange(4 + k, b.len() as int) =~= encode_records(rest));
        assert(seq![s] + rest =~= ss);
    }
}

} // verus!
