//! Wire format of chat messages and the gossip message identity.
//!
//! A message is the UTF-8 text of its content, a single comma, then the
//! sender's display name. Decoding splits at the first comma; a payload
//! without a comma is taken as content with an empty name. The gossip layer
//! de-duplicates messages by a hash of the raw payload bytes.

use vstd::prelude::*;
use std::collections::hash_map::DefaultHasher;
use vstd::std_specs::hash::DefaultHasherAdditionalSpecFns;
use std::hash::Hasher;

verus! {

/// Byte that separates message content from the sender name on the wire.
pub const SEPARATOR: u8 = 44;

/// Index of the first occurrence of `sep` in `s`, or `s.len()` if absent.
pub open spec fn index_of_first(s: Seq<u8>, sep: u8) -> int
    decreases s.len(),
{
    if s.len() == 0 {
        0
    } else if s[0] == sep {
        0
    } else {
        1 + index_of_first(s.skip(1), sep)
    }
}

/// `index_of_first` points at the first occurrence: everything before it
/// differs from `sep`, and it lands on `sep` unless `sep` is absent.
pub proof fn lemma_index_of_first(s: Seq<u8>, sep: u8)
    ensures
        0 <= index_of_first(s, sep) <= s.len(),
        index_of_first(s, sep) < s.len() ==> s[index_of_first(s, sep)] == sep,
        forall|j: int| 0 <= j < index_of_first(s, sep) ==> s[j] != sep,
    decreases s.len(),
{
    if s.len() == 0 {
    } else if s[0] == sep {
    } else {
        lemma_index_of_first(s.skip(1), sep);
        let i = index_of_first(s, sep);
        assert(i == 1 + index_of_first(s.skip(1), sep));
        if i < s.len() {
            assert(s.skip(1)[i - 1] == s[i]);
        }
        assert forall|j: int| 0 <= j < i implies s[j] != sep by {
            if j > 0 {
                assert(s.skip(1)[j - 1] == s[j]);
            }
        }
    }
}

/// A position with no `sep` before it that lands on `sep` (or on the end,
/// with no `sep` anywhere) is exactly `index_of_first`.
pub proof fn lemma_index_of_first_unique(s: Seq<u8>, sep: u8, i: int)
    requires
        0 <= i <= s.len(),
        forall|j: int| 0 <= j < i ==> s[j] != sep,
        i < s.len() ==> s[i] == sep,
    ensures
        index_of_first(s, sep) == i,
{
    lemma_index_of_first(s, sep);
    let k = index_of_first(s, sep);
    if k < i {
        assert(s[k] != sep);
    }
    if i < k {
        assert(s[i] != sep);
    }
}

/// Bytes before the first occurrence of `sep`, or the whole sequence when
/// `sep` is absent.
pub open spec fn spec_head_before(p: Seq<u8>, sep: u8) -> Seq<u8> {
    let i = index_of_first(p, sep);
    if i < p.len() {
        p.subrange(0, i)
    } else {
        p
    }
}

/// Bytes after the first occurrence of `sep`, or empty when `sep` is
/// absent.
pub open spec fn spec_tail_after(p: Seq<u8>, sep: u8) -> Seq<u8> {
    let i = index_of_first(p, sep);
    if i < p.len() {
        p.subrange(i + 1, p.len() as int)
    } else {
        Seq::empty()
    }
}

/// Content half of a decoded payload: the bytes before the first comma,
/// or the whole payload when it holds no comma.
pub open spec fn spec_decode_content(p: Seq<u8>) -> Seq<u8> {
    spec_head_before(p, SEPARATOR)
}

/// Name half of a decoded payload: the bytes after the first comma,
/// or empty when the payload holds no comma.
pub open spec fn spec_decode_name(p: Seq<u8>) -> Seq<u8> {
    spec_tail_after(p, SEPARATOR)
}

/// Split a byte sequence at the first occurrence of `sep`, which is kept in
/// neither half; without an occurrence, everything is the head and the tail
/// is empty.
pub fn split_at_first(payload: &Vec<u8>, sep: u8) -> (r: (Vec<u8>, Vec<u8>))
    ensures
        r.0@ == spec_head_before(payload@, sep),
        r.1@ == spec_tail_after(payload@, sep),
{
    let i = find_first(payload, sep);
    proof {
        lemma_index_of_first(payload@, sep);
    }
    if i < payload.len() {
        let head = copy_range(payload, 0, i);
        let tail = copy_range(payload, i + 1, payload.len());
        (head, tail)
    } else {
        let head = copy_range(payload, 0, payload.len());
        proof {
            assert(payload@.subrange(0, payload@.len() as int) =~= payload@);
        }
        (head, Vec::new())
    }
}

fn find_first(payload: &Vec<u8>, sep: u8) -> (i: usize)
    ensures
        i as int == index_of_first(payload@, sep),
{
    let n = payload.len();
    let mut i: usize = 0;
    while i < n
        invariant
            n == payload@.len(),
            0 <= i <= n,
            forall|j: int| 0 <= j < i ==> payload@[j] != sep,
        decreases n - i,
    {
        if payload[i] == sep {
            proof {
                lemma_index_of_first_unique(payload@, sep, i as int);
            }
            return i;
        }
        i = i + 1;
    }
    proof {
        lemma_index_of_first_unique(payload@, sep, n as int);
    }
    i
}

fn copy_range(v: &Vec<u8>, from: usize, to: usize) -> (r: Vec<u8>)
    requires
        from <= to <= v@.len(),
    ensures
        r@ == v@.subrange(from as int, to as int),
{
    let mut r: Vec<u8> = Vec::new();
    let mut i: usize = from;
    while i < to
        invariant
            from <= i <= to <= v@.len(),
            r@ == v@.subrange(from as int, i as int),
        decreases to - i,
    {
        r.push(v[i]);
        proof {
            assert(r@ =~= v@.subrange(from as int, i + 1));
        }
        i = i + 1;
    }
    r
}

/// Join message content and a display name into one wire payload:
/// the content bytes, one comma, then the name bytes.
pub fn encode_message(content: &Vec<u8>, name: &Vec<u8>) -> (r: Vec<u8>)
    requires
        content@.len() + 1 + name@.len() <= usize::MAX,
    ensures
        r@ == content@ + seq![SEPARATOR] + name@,
{
    let mut r = copy_range(content, 0, content.len());
    r.push(SEPARATOR);
    let mut i: usize = 0;
    let n = name.len();
    while i < n
        invariant
            n == name@.len(),
            0 <= i <= n,
            r@ == content@ + seq![SEPARATOR] + name@.subrange(0, i as int),
        decreases n - i,
    {
        r.push(name[i]);
        proof {
            assert(r@ =~= content@ + seq![SEPARATOR] + name@.subrange(0, i + 1));
        }
        i = i + 1;
    }
    proof {
        assert(content@.subrange(0, content@.len() as int) =~= content@);
        assert(name@.subrange(0, n as int) =~= name@);
    }
    r
}

/// Split a wire payload at the first comma into content and sender name.
/// A payload without a comma decodes as content with an empty name.
pub fn decode_message(payload: &Vec<u8>) -> (r: (Vec<u8>, Vec<u8>))
    ensures
        r.0@ == spec_decode_content(payload@),
        r.1@ == spec_decode_name(payload@),
{
    split_at_first(payload, SEPARATOR)
}

/// Encoding then decoding returns the content and name unchanged, for any
/// content without a comma and any name at all.
pub proof fn lemma_message_round_trip(content: Seq<u8>, name: Seq<u8>)
    requires
        !content.contains(SEPARATOR),
    ensures
        spec_decode_content(content + seq![SEPARATOR] + name) == content,
        spec_decode_name(content + seq![SEPARATOR] + name) == name,
{
    let enc = content + seq![SEPARATOR] + name;
    assert forall|j: int| 0 <= j < content.len() implies enc[j] != SEPARATOR by {
        assert(enc[j] == content[j]);
        assert(!content.contains(SEPARATOR));
        if content[j] == SEPARATOR {
            assert(content.contains(SEPARATOR));
        }
    }
    lemma_index_of_first_unique(enc, SEPARATOR, content.len() as int);
    assert(enc.subrange(0, content.len() as int) =~= content);
    assert(enc.subrange(content.len() as int + 1, enc.len() as int) =~= name);
}

proof fn lemma_not_contains(s: Seq<u8>, x: u8)
    requires
        forall|i: int| 0 <= i < s.len() ==> s[i] != x,
    ensures
        !s.contains(x),
{
    if s.contains(x) {
        let i = choose|i: int| 0 <= i < s.len() && s[i] == x;
    }
}

proof fn lemma_encode_utf8_concat(a: Seq<char>, b: Seq<char>)
    ensures
        vstd::utf8::encode_utf8(a + b) == vstd::utf8::encode_utf8(a) + vstd::utf8::encode_utf8(b),
    decreases a.len(),
{
    if a.len() == 0 {
        assert(a + b =~= b);
        assert(vstd::utf8::encode_utf8(a + b) =~= vstd::utf8::encode_utf8(a)
            + vstd::utf8::encode_utf8(b));
    } else {
        assert((a + b).drop_first() =~= a.drop_first() + b);
        lemma_encode_utf8_concat(a.drop_first(), b);
        assert((a + b)[0] == a[0]);
        assert(vstd::utf8::encode_utf8(a + b) =~= vstd::utf8::encode_utf8(a)
            + vstd::utf8::encode_utf8(b));
    }
}

proof fn lemma_scalar_encoding_has_no_comma(c: char)
    requires
        c != ',',
    ensures
        !vstd::utf8::encode_scalar(c as u32).contains(SEPARATOR),
{
    vstd::utf8::char_is_scalar(c);
    vstd::utf8::char_u32_cast(c, c as u32);
    let s = c as u32;
    assert(',' as u32 == 44);
    assert(s != 44);
    let e = vstd::utf8::encode_scalar(s);
    if vstd::utf8::has_width_1_encoding(s) {
        assert((s & 0x7F) as u8 != 44u8) by (bit_vector)
            requires
                s != 44 && s <= 0x7F,
        ;
    } else if vstd::utf8::has_width_2_encoding(s) {
        assert((0xC0u8 | ((s >> 6) & 0x1F) as u8) != 44u8) by (bit_vector);
        assert((0x80u8 | (s & 0x3F) as u8) != 44u8) by (bit_vector);
    } else if vstd::utf8::has_width_3_encoding(s) {
        assert((0xE0u8 | ((s >> 12) & 0x0F) as u8) != 44u8) by (bit_vector);
        assert((0x80u8 | ((s >> 6) & 0x3F) as u8) != 44u8) by (bit_vector);
        assert((0x80u8 | (s & 0x3F) as u8) != 44u8) by (bit_vector);
    } else {
        assert((0xF0u8 | ((s >> 18) & 0x7) as u8) != 44u8) by (bit_vector);
        assert((0x80u8 | ((s >> 12) & 0x3F) as u8) != 44u8) by (bit_vector);
        assert((0x80u8 | ((s >> 6) & 0x3F) as u8) != 44u8) by (bit_vector);
        assert((0x80u8 | (s & 0x3F) as u8) != 44u8) by (bit_vector);
    }
    lemma_not_contains(e, SEPARATOR);
}

proof fn lemma_encode_no_comma(content: Seq<char>)
    requires
        !content.contains(','),
    ensures
        !vstd::utf8::encode_utf8(content).contains(SEPARATOR),
    decreases content.len(),
{
    if content.len() == 0 {
    } else {
        assert(content[0] != ',') by {
            if content[0] == ',' {
                assert(content.contains(','));
            }
        }
        lemma_scalar_encoding_has_no_comma(content[0]);
        assert(!content.drop_first().contains(',')) by {
            if content.drop_first().contains(',') {
                let i = choose|i: int|
                    0 <= i < content.drop_first().len() && content.drop_first()[i] == ',';
                assert(content[i + 1] == ',');
            }
        }
        lemma_encode_no_comma(content.drop_first());
        let e0 = vstd::utf8::encode_scalar(content[0] as u32);
        let e1 = vstd::utf8::encode_utf8(content.drop_first());
        assert(vstd::utf8::encode_utf8(content) =~= e0 + e1);
        assert forall|i: int| 0 <= i < (e0 + e1).len() implies (e0 + e1)[i] != SEPARATOR by {
            if i < e0.len() {
                assert((e0 + e1)[i] == e0[i]);
                assert(!e0.contains(SEPARATOR));
            } else {
                assert((e0 + e1)[i] == e1[i - e0.len()]);
                assert(!e1.contains(SEPARATOR));
            }
        }
        lemma_not_contains(e0 + e1, SEPARATOR);
    }
}

/// Text-level round trip through the whole wire path: encoding content and
/// name as UTF-8 with a comma between them, splitting the payload at its
/// first comma byte, and decoding each half yields the content and the name
/// exactly, for any content without a comma and any name at all.
pub proof fn lemma_text_round_trip(content: Seq<char>, name: Seq<char>)
    requires
        !content.contains(','),
    ensures
        ({
            let payload = vstd::utf8::encode_utf8(content + seq![','] + name);
            &&& spec_decode_content(payload) == vstd::utf8::encode_utf8(content)
            &&& spec_decode_name(payload) == vstd::utf8::encode_utf8(name)
            &&& vstd::utf8::valid_utf8(spec_decode_content(payload))
            &&& vstd::utf8::decode_utf8(spec_decode_content(payload)) == content
            &&& vstd::utf8::valid_utf8(spec_decode_name(payload))
            &&& vstd::utf8::decode_utf8(spec_decode_name(payload)) == name
        }),
{
    lemma_encode_utf8_concat(content + seq![','], name);
    lemma_encode_utf8_concat(content, seq![',']);
    assert(',' as u32 == 44);
    assert((44u32 & 0x7F) as u8 == 44u8) by (bit_vector);
    assert(seq![','].drop_first() =~= Seq::<char>::empty());
    assert(vstd::utf8::encode_utf8(Seq::<char>::empty()) =~= Seq::<u8>::empty());
    assert(seq![','][0] == ',');
    assert(vstd::utf8::has_width_1_encoding(44u32));
    assert(vstd::utf8::leading_byte_width_1(44u32) == 44u8);
    assert(vstd::utf8::encode_scalar(44u32) =~= seq![44u8]);
    assert(vstd::utf8::encode_utf8(seq![',']) =~= vstd::utf8::encode_scalar(
        seq![','][0] as u32,
    ) + vstd::utf8::encode_utf8(seq![','].drop_first()));
    assert(vstd::utf8::encode_utf8(seq![',']) =~= seq![SEPARATOR]);
    let payload = vstd::utf8::encode_utf8(content + seq![','] + name);
    assert(payload =~= vstd::utf8::encode_utf8(content) + seq![SEPARATOR]
        + vstd::utf8::encode_utf8(name));
    lemma_encode_no_comma(content);
    lemma_message_round_trip(vstd::utf8::encode_utf8(content), vstd::utf8::encode_utf8(name));
    vstd::utf8::encode_utf8_decode_utf8(content);
    vstd::utf8::encode_utf8_decode_utf8(name);
    vstd::utf8::encode_utf8_valid_utf8(content);
    vstd::utf8::encode_utf8_valid_utf8(name);
}

/// Identity of a gossip message: the content-addressing hash of its raw
/// payload bytes. Equal payloads always receive the equal identity.
pub open spec fn spec_message_id(data: Seq<u8>) -> u64 {
    DefaultHasher::spec_finish(seq![data])
}

/// Hash a payload into its gossip message identity.
pub fn message_id(payload: &Vec<u8>) -> (id: u64)
    ensures
        id == spec_message_id(payload@),
{
    let mut hasher = DefaultHasher::new();
    hasher.write(payload.as_slice());
    let id = hasher.finish();
    proof {
        assert(seq![payload@] =~= Seq::<Seq<u8>>::empty().push(payload@));
    }
    id
}

/// De-duplication by content addressing: byte-identical payloads always map
/// to the same message identity.
pub proof fn lemma_message_id_deterministic(a: Seq<u8>, b: Seq<u8>)
    requires
        a == b,
    ensures
        spec_message_id(a) == spec_message_id(b),
{
}

} // verus!
