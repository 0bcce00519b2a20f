use vstd::prelude::*;
use vstd::utf8::{decode_utf8, encode_utf8, valid_utf8};
use crate::error::WasmPluginError;

verus! {

broadcast use vstd::utf8::encode_utf8_valid_utf8, vstd::utf8::encode_utf8_decode_utf8;

/// Little-endian bytes of a 32-bit word.
pub open spec fn u32_le(x: u32) -> Seq<u8> {
    seq![
        (x & 0xff) as u8,
        ((x >> 8u32) & 0xff) as u8,
        ((x >> 16u32) & 0xff) as u8,
        ((x >> 24u32) & 0xff) as u8,
    ]
}

/// The 32-bit word held little-endian in the first four bytes of `d`.
pub open spec fn read_u32(d: Seq<u8>) -> u32 {
    (d[0] as u32) | ((d[1] as u32) << 8u32) | ((d[2] as u32) << 16u32) | ((d[3] as u32) << 24u32)
}

/// Little-endian bytes of a 64-bit word.
pub open spec fn u64_le(x: u64) -> Seq<u8> {
    u32_le(x as u32) + u32_le((x >> 32u64) as u32)
}

/// The 64-bit word held little-endian in the first eight bytes of `d`.
pub open spec fn read_u64(d: Seq<u8>) -> u64 {
    (read_u32(d) as u64) | ((read_u32(d.skip(4)) as u64) << 32u64)
}

pub proof fn lemma_read_u32(x: u32, rest: Seq<u8>)
    ensures
        read_u32(u32_le(x) + rest) == x,
        (u32_le(x) + rest).len() == 4 + rest.len(),
{
    let d = u32_le(x) + rest;
    let b0 = (x & 0xff) as u8;
    let b1 = ((x >> 8u32) & 0xff) as u8;
    let b2 = ((x >> 16u32) & 0xff) as u8;
    let b3 = ((x >> 24u32) & 0xff) as u8;
    assert(d[0] == b0 && d[1] == b1 && d[2] == b2 && d[3] == b3);
    assert((b0 as u32) | ((b1 as u32) << 8u32) | ((b2 as u32) << 16u32) | ((b3 as u32) << 24u32)
        == x) by (bit_vector)
        requires
            b0 == (x & 0xff) as u8,
            b1 == ((x >> 8u32) & 0xff) as u8,
            b2 == ((x >> 16u32) & 0xff) as u8,
            b3 == ((x >> 24u32) & 0xff) as u8,
    ;
}

pub proof fn lemma_read_u64(x: u64, rest: Seq<u8>)
    ensures
        read_u64(u64_le(x) + rest) == x,
        (u64_le(x) + rest).len() == 8 + rest.len(),
        (u64_le(x) + rest).skip(8) == rest,
{
    let lo = x as u32;
    let hi = (x >> 32u64) as u32;
    let d = u64_le(x) + rest;
    assert(d =~= u32_le(lo) + (u32_le(hi) + rest));
    lemma_read_u32(lo, u32_le(hi) + rest);
    assert(d.skip(4) =~= u32_le(hi) + rest);
    lemma_read_u32(hi, rest);
    assert(d.skip(8) =~= rest);
    assert(((lo as u64) | ((hi as u64) << 32u64)) == x) by (bit_vector)
        requires
            lo == x as u32,
            hi == (x >> 32u64) as u32,
    ;
}

fn push_u32(out: &mut Vec<u8>, x: u32)
    ensures
        final(out)@ == old(out)@ + u32_le(x),
{
    out.push((x & 0xff) as u8);
    out.push(((x >> 8u32) & 0xff) as u8);
    out.push(((x >> 16u32) & 0xff) as u8);
    out.push(((x >> 24u32) & 0xff) as u8);
    assert(final(out)@ =~= old(out)@ + u32_le(x));
}

fn push_u64(out: &mut Vec<u8>, x: u64)
    ensures
        final(out)@ == old(out)@ + u64_le(x),
{
    push_u32(out, x as u32);
    push_u32(out, (x >> 32u64) as u32);
    assert(final(out)@ =~= old(out)@ + u64_le(x));
}

fn get_u32(data: &[u8], pos: usize) -> (r: u32)
    requires
        pos + 4 <= data@.len(),
    ensures
        r == read_u32(data@.skip(pos as int)),
{
    (data[pos] as u32) | ((data[pos + 1] as u32) << 8u32) | ((data[pos + 2] as u32) << 16u32) | ((
    data[pos + 3] as u32) << 24u32)
}

fn get_u64(data: &[u8], pos: usize) -> (r: u64)
    requires
        pos + 8 <= data@.len(),
    ensures
        r == read_u64(data@.skip(pos as int)),
{
    let lo = get_u32(data, pos);
    assert(pos + 8 <= data.len());
    let hi = get_u32(data, pos + 4);
    assert(data@.skip(pos as int).skip(4) =~= data@.skip(pos + 4));
    (lo as u64) | ((hi as u64) << 32u64)
}

/// A value that can be written as a message across the plugin boundary.
///
/// Each value is described by its deep view; `wire` gives the exact bytes
/// that stand for it.
pub trait Serializable: DeepView + Sized {
    /// Whether a value can be written: every length it holds fits in 64 bits.
    spec fn encodable(m: Self::V) -> bool;

    /// The bytes that stand for a value.
    spec fn wire(m: Self::V) -> Seq<u8>;

    /// Appends the bytes of this value to `out`.
    fn encode_into(&self, out: &mut Vec<u8>)
        ensures
            Self::encodable(self.deep_view()),
            final(out)@ == old(out)@ + Self::wire(self.deep_view()),
    ;

    /// The bytes of this value, as a message of its own.
    fn serialize(&self) -> (r: Result<Vec<u8>, WasmPluginError>)
        ensures
            Self::encodable(self.deep_view()),
            r is Ok,
            r->Ok_0@ == Self::wire(self.deep_view()),
    {
        let mut out: Vec<u8> = Vec::new();
        self.encode_into(&mut out);
        assert(out@ =~= Self::wire(self.deep_view()));
        Ok(out)
    }
}

/// A value that can be read back from a message across the plugin boundary.
pub trait Deserializable: Serializable {
    /// The value whose bytes begin `data`, and how many bytes they take.
    spec fn parse(data: Seq<u8>) -> Option<(Self::V, nat)>;

    /// The bytes of an encodable value are read back as that value, whatever follows them.
    proof fn lemma_parse_wire(m: Self::V, rest: Seq<u8>)
        requires
            Self::encodable(m),
        ensures
            Self::parse(Self::wire(m) + rest) == Some((m, Self::wire(m).len())),
    ;

    /// Reads the value whose bytes start at `pos`, with the position after them.
    fn decode_from(data: &[u8], pos: usize) -> (r: Option<(Self, usize)>)
        requires
            pos <= data@.len(),
        ensures
            match Self::parse(data@.skip(pos as int)) {
                None => r is None,
                Some((m, k)) => match r {
                    Some((v, e)) => v.deep_view() == m && e == pos + k && e <= data@.len(),
                    None => false,
                },
            },
    ;

    /// Reads a whole message as one value. Bytes left over after the value,
    /// or bytes that hold no value of this shape, are a `DeserializationError`.
    fn deserialize(data: &[u8]) -> (r: Result<Self, WasmPluginError>)
        ensures
            match Self::parse(data@) {
                Some((m, k)) => if k == data@.len() {
                    r is Ok && r->Ok_0.deep_view() == m
                } else {
                    r == Err::<Self, WasmPluginError>(WasmPluginError::DeserializationError)
                },
                None => r == Err::<Self, WasmPluginError>(WasmPluginError::DeserializationError),
            },
    {
        assert(data@.skip(0) =~= data@);
        match Self::decode_from(data, 0) {
            Some((v, end)) => {
                if end == data.len() {
                    Ok(v)
                } else {
                    Err(WasmPluginError::DeserializationError)
                }
            },
            None => Err(WasmPluginError::DeserializationError),
        }
    }
}

/// Every encodable value survives encoding followed by decoding: the decoder
/// reads back exactly that value and uses every byte of its encoding.
pub proof fn lemma_round_trip<T: Deserializable>(m: T::V)
    requires
        T::encodable(m),
    ensures
        T::parse(T::wire(m)) == Some((m, T::wire(m).len())),
{
    T::lemma_parse_wire(m, seq![]);
    assert(T::wire(m) + seq![] =~= T::wire(m));
}

/// Decoding the message that `serialize` made of a value gives back an equal value.
pub fn round_trip<T: Deserializable>(v: &T) -> (r: Result<T, WasmPluginError>)
    ensures
        r is Ok,
        r->Ok_0.deep_view() == v.deep_view(),
{
    let bytes = match v.serialize() {
        Ok(b) => b,
        Err(e) => return Err(e),
    };
    proof {
        lemma_round_trip::<T>(v.deep_view());
    }
    T::deserialize(bytes.as_slice())
}

/// Relies on std::str::from_utf8: it accepts exactly the valid UTF-8 byte
/// sequences, and the string it gives holds the characters those bytes encode.
#[verifier::external_body]
fn string_from_utf8(bytes: &[u8]) -> (r: Option<String>)
    ensures
        r is Some <==> valid_utf8(bytes@),
        r matches Some(s) ==> s@ == decode_utf8(bytes@),
{
    std::str::from_utf8(bytes).ok().map(|s| s.to_string())
}

pub(crate) fn push_bytes(out: &mut Vec<u8>, b: &[u8])
    ensures
        final(out)@ == old(out)@ + b@,
{
    let mut i: usize = 0;
    while i < b.len()
        invariant
            i <= b@.len(),
            out@ == old(out)@ + b@.take(i as int),
        decreases b@.len() - i,
    {
        out.push(b[i]);
        i += 1;
        assert(out@ =~= old(out)@ + b@.take(i as int));
    }
    assert(b@.take(i as int) =~= b@);
}

fn copy_range(data: &[u8], start: usize, end: usize) -> (r: Vec<u8>)
    requires
        start <= end <= data@.len(),
    ensures
        r@ == data@.subrange(start as int, end as int),
{
    let mut r: Vec<u8> = Vec::new();
    let mut i: usize = start;
    while i < end
        invariant
            start <= i <= end <= data@.len(),
            r@ == data@.subrange(start as int, i as int),
        decreases end - i,
    {
        r.push(data[i]);
        i += 1;
        assert(r@ =~= data@.subrange(start as int, i as int));
    }
    r
}

impl Serializable for () {
    open spec fn encodable(m: ()) -> bool {
        true
    }

    open spec fn wire(m: ()) -> Seq<u8> {
        seq![]
    }

    fn encode_into(&self, out: &mut Vec<u8>) {
        assert(out@ =~= out@ + Seq::<u8>::empty());
    }

}

impl Deserializable for () {
    open spec fn parse(data: Seq<u8>) -> Option<((), nat)> {
        Some(((), 0))
    }

    proof fn lemma_parse_wire(m: (), rest: Seq<u8>) {
    }

    fn decode_from(data: &[u8], pos: usize) -> (r: Option<((), usize)>) {
        Some(((), pos))
    }

}

impl Serializable for bool {
    open spec fn encodable(m: bool) -> bool {
        true
    }

    open spec fn wire(m: bool) -> Seq<u8> {
        seq![if m { 1u8 } else { 0u8 }]
    }

    fn encode_into(&self, out: &mut Vec<u8>) {
        out.push(if *self { 1u8 } else { 0u8 });
    }

}

impl Deserializable for bool {
    open spec fn parse(data: Seq<u8>) -> Option<(bool, nat)> {
        if data.len() >= 1 && data[0] <= 1 {
            Some((data[0] == 1, 1))
        } else {
            None
        }
    }

    proof fn lemma_parse_wire(m: bool, rest: Seq<u8>) {
        assert((Self::wire(m) + rest)[0] == Self::wire(m)[0]);
    }

    fn decode_from(data: &[u8], pos: usize) -> (r: Option<(bool, usize)>) {
        if pos < data.len() && data[pos] <= 1 {
            Some((data[pos] == 1, pos + 1))
        } else {
            None
        }
    }

}

impl Serializable for u32 {
    open spec fn encodable(m: u32) -> bool {
        true
    }

    open spec fn wire(m: u32) -> Seq<u8> {
        u32_le(m)
    }

    fn encode_into(&self, out: &mut Vec<u8>) {
        push_u32(out, *self);
    }

}

impl Deserializable for u32 {
    open spec fn parse(data: Seq<u8>) -> Option<(u32, nat)> {
        if data.len() >= 4 {
            Some((read_u32(data), 4))
        } else {
            None
        }
    }

    proof fn lemma_parse_wire(m: u32, rest: Seq<u8>) {
        lemma_read_u32(m, rest);
    }

    fn decode_from(data: &[u8], pos: usize) -> (r: Option<(u32, usize)>) {
        if data.len() - pos >= 4 {
            Some((get_u32(data, pos), pos + 4))
        } else {
            None
        }
    }

}

impl Serializable for i32 {
    open spec fn encodable(m: i32) -> bool {
        true
    }

    open spec fn wire(m: i32) -> Seq<u8> {
        u32_le(m as u32)
    }

    fn encode_into(&self, out: &mut Vec<u8>) {
        push_u32(out, *self as u32);
    }

}

impl Deserializable for i32 {
    open spec fn parse(data: Seq<u8>) -> Option<(i32, nat)> {
        if data.len() >= 4 {
            Some((read_u32(data) as i32, 4))
        } else {
            None
        }
    }

    proof fn lemma_parse_wire(m: i32, rest: Seq<u8>) {
        lemma_read_u32(m as u32, rest);
        assert(((m as u32) as i32) == m) by (bit_vector);
    }

    fn decode_from(data: &[u8], pos: usize) -> (r: Option<(i32, usize)>) {
        if data.len() - pos >= 4 {
            Some((get_u32(data, pos) as i32, pos + 4))
        } else {
            None
        }
    }

}

impl Serializable for u64 {
    open spec fn encodable(m: u64) -> bool {
        true
    }

    open spec fn wire(m: u64) -> Seq<u8> {
        u64_le(m)
    }

    fn encode_into(&self, out: &mut Vec<u8>) {
        push_u64(out, *self);
    }

}

impl Deserializable for u64 {
    open spec fn parse(data: Seq<u8>) -> Option<(u64, nat)> {
        if data.len() >= 8 {
            Some((read_u64(data), 8))
        } else {
            None
        }
    }

    proof fn lemma_parse_wire(m: u64, rest: Seq<u8>) {
        lemma_read_u64(m, rest);
    }

    fn decode_from(data: &[u8], pos: usize) -> (r: Option<(u64, usize)>) {
        if data.len() - pos >= 8 {
            Some((get_u64(data, pos), pos + 8))
        } else {
            None
        }
    }

}

impl Serializable for String {
    open spec fn encodable(m: Seq<char>) -> bool {
        encode_utf8(m).len() <= u64::MAX
    }

    open spec fn wire(m: Seq<char>) -> Seq<u8> {
        u64_le(encode_utf8(m).len() as u64) + encode_utf8(m)
    }

    fn encode_into(&self, out: &mut Vec<u8>) {
        let b: &[u8] = self.as_str().as_bytes();
        push_u64(out, b.len() as u64);
        push_bytes(out, b);
        assert(final(out)@ =~= old(out)@ + Self::wire(self.deep_view()));
    }

}

impl Deserializable for String {
    open spec fn parse(data: Seq<u8>) -> Option<(Seq<char>, nat)> {
        if data.len() >= 8 {
            let n = read_u64(data) as int;
            let body = data.skip(8);
            if n <= body.len() && valid_utf8(body.take(n)) {
                Some((decode_utf8(body.take(n)), (8 + n) as nat))
            } else {
                None
            }
        } else {
            None
        }
    }

    proof fn lemma_parse_wire(m: Seq<char>, rest: Seq<u8>) {
        let e = encode_utf8(m);
        let d = Self::wire(m) + rest;
        assert(d =~= u64_le(e.len() as u64) + (e + rest));
        lemma_read_u64(e.len() as u64, e + rest);
        assert((e + rest).take(e.len() as int) =~= e);
    }

    fn decode_from(data: &[u8], pos: usize) -> (r: Option<(String, usize)>) {
        if data.len() - pos < 8 {
            return None;
        }
        let n = get_u64(data, pos);
        let avail = data.len() - pos - 8;
        if n > avail as u64 {
            return None;
        }
        let start = pos + 8;
        let end = start + n as usize;
        let bytes = copy_range(data, start, end);
        proof {
            assert(data@.skip(pos as int).skip(8).take(n as int) =~= bytes@);
        }
        match string_from_utf8(bytes.as_slice()) {
            Some(s) => Some((s, end)),
            None => None,
        }
    }

}

/// The bytes of a sequence of values, one after the other.
pub open spec fn wire_all<T: Serializable>(s: Seq<T::V>) -> Seq<u8>
    decreases s.len(),
{
    if s.len() == 0 {
        seq![]
    } else {
        wire_all::<T>(s.drop_last()) + T::wire(s.last())
    }
}

/// The `n` values whose bytes begin `d`, one after the other, and how many bytes they take.
pub open spec fn parse_all<T: Deserializable>(n: nat, d: Seq<u8>) -> Option<(Seq<T::V>, nat)>
    decreases n,
{
    if n == 0 {
        Some((seq![], 0))
    } else {
        match parse_all::<T>((n - 1) as nat, d) {
            Some((xs, k)) => match T::parse(d.skip(k as int)) {
                Some((x, j)) => Some((xs.push(x), k + j)),
                None => None,
            },
            None => None,
        }
    }
}

proof fn lemma_parse_all_wire<T: Deserializable>(s: Seq<T::V>, rest: Seq<u8>)
    requires
        forall|i: int| 0 <= i < s.len() ==> T::encodable(#[trigger] s[i]),
    ensures
        parse_all::<T>(s.len(), wire_all::<T>(s) + rest) == Some((s, wire_all::<T>(s).len())),
    decreases s.len(),
{
    if s.len() == 0 {
        assert(s =~= seq![]);
    } else {
        let p = s.drop_last();
        let x = s.last();
        assert(wire_all::<T>(s) + rest =~= wire_all::<T>(p) + (T::wire(x) + rest));
        assert forall|i: int| 0 <= i < p.len() implies T::encodable(#[trigger] p[i]) by {
            assert(p[i] == s[i]);
        }
        lemma_parse_all_wire::<T>(p, T::wire(x) + rest);
        assert((wire_all::<T>(p) + (T::wire(x) + rest)).skip(wire_all::<T>(p).len() as int)
            =~= T::wire(x) + rest);
        T::lemma_parse_wire(x, rest);
        assert(p.push(x) =~= s);
    }
}

proof fn lemma_parse_all_stuck<T: Deserializable>(i: nat, n: nat, d: Seq<u8>)
    requires
        i <= n,
        parse_all::<T>(i, d) is None,
    ensures
        parse_all::<T>(n, d) is None,
    decreases n - i,
{
    if i < n {
        lemma_parse_all_stuck::<T>(i, (n - 1) as nat, d);
    }
}

impl<T: Serializable> Serializable for Vec<T> {
    open spec fn encodable(m: Seq<T::V>) -> bool {
        m.len() <= u64::MAX && forall|i: int| 0 <= i < m.len() ==> T::encodable(#[trigger] m[i])
    }

    open spec fn wire(m: Seq<T::V>) -> Seq<u8> {
        u64_le(m.len() as u64) + wire_all::<T>(m)
    }

    fn encode_into(&self, out: &mut Vec<u8>) {
        let n = self.len();
        push_u64(out, n as u64);
        let ghost head = out@;
        let ghost dv = self.deep_view();
        let mut i: usize = 0;
        while i < n
            invariant
                n == self@.len(),
                dv == self.deep_view(),
                i <= n,
                head == old(out)@ + u64_le(n as u64),
                out@ == head + wire_all::<T>(dv.take(i as int)),
                forall|j: int| 0 <= j < i ==> T::encodable(#[trigger] dv[j]),
            decreases n - i,
        {
            self[i].encode_into(out);
            proof {
                assert(dv[i as int] == self@[i as int].deep_view());
                assert(dv.take(i + 1).drop_last() =~= dv.take(i as int));
                assert(dv.take(i + 1).last() == dv[i as int]);
            }
            i += 1;
        }
        assert(dv.take(n as int) =~= dv);
    }
}

impl<T: Deserializable> Deserializable for Vec<T> {
    open spec fn parse(data: Seq<u8>) -> Option<(Seq<T::V>, nat)> {
        if data.len() >= 8 {
            match parse_all::<T>(read_u64(data) as nat, data.skip(8)) {
                Some((xs, k)) => Some((xs, 8 + k)),
                None => None,
            }
        } else {
            None
        }
    }

    proof fn lemma_parse_wire(m: Seq<T::V>, rest: Seq<u8>) {
        let d = Self::wire(m) + rest;
        assert(d =~= u64_le(m.len() as u64) + (wire_all::<T>(m) + rest));
        lemma_read_u64(m.len() as u64, wire_all::<T>(m) + rest);
        lemma_parse_all_wire::<T>(m, rest);
    }

    fn decode_from(data: &[u8], pos: usize) -> (r: Option<(Vec<T>, usize)>) {
        if data.len() - pos < 8 {
            return None;
        }
        let n = get_u64(data, pos);
        let start = pos + 8;
        let ghost body = data@.skip(start as int);
        assert(data@.skip(pos as int).skip(8) =~= body);
        let mut out: Vec<T> = Vec::new();
        let mut cur = start;
        let mut i: u64 = 0;
        assert(out.deep_view() =~= Seq::<T::V>::empty());
        while i < n
            invariant
                start <= cur <= data@.len(),
                i <= n,
                body == data@.skip(start as int),
                start == pos + 8,
                data@.skip(pos as int).skip(8) == body,
                n == read_u64(data@.skip(pos as int)),
                parse_all::<T>(i as nat, body) == Some((out.deep_view(), (cur - start) as nat)),
            decreases n - i,
        {
            assert(body.skip(cur - start) =~= data@.skip(cur as int));
            match T::decode_from(data, cur) {
                Some((v, next)) => {
                    let ghost before = out.deep_view();
                    let ghost vd = v.deep_view();
                    out.push(v);
                    assert(out.deep_view() =~= before.push(vd));
                    cur = next;
                    i += 1;
                },
                None => {
                    proof {
                        assert(T::parse(body.skip(cur - start)) is None);
                        assert(parse_all::<T>((i + 1) as nat, body) is None);
                        lemma_parse_all_stuck::<T>((i + 1) as nat, n as nat, body);
                        assert(data@.skip(pos as int).skip(8) == body);
                    }
                    return None;
                },
            }
        }
        Some((out, cur))
    }
}

impl<A: Serializable, B: Serializable> Serializable for (A, B) {
    open spec fn encodable(m: (A::V, B::V)) -> bool {
        A::encodable(m.0) && B::encodable(m.1)
    }

    open spec fn wire(m: (A::V, B::V)) -> Seq<u8> {
        A::wire(m.0) + B::wire(m.1)
    }

    fn encode_into(&self, out: &mut Vec<u8>) {
        self.0.encode_into(out);
        self.1.encode_into(out);
        assert(final(out)@ =~= old(out)@ + Self::wire(self.deep_view()));
    }
}

impl<A: Deserializable, B: Deserializable> Deserializable for (A, B) {
    open spec fn parse(data: Seq<u8>) -> Option<((A::V, B::V), nat)> {
        match A::parse(data) {
            Some((a, k)) => match B::parse(data.skip(k as int)) {
                Some((b, j)) => Some(((a, b), k + j)),
                None => None,
            },
            None => None,
        }
    }

    proof fn lemma_parse_wire(m: (A::V, B::V), rest: Seq<u8>) {
        let d = Self::wire(m) + rest;
        assert(d =~= A::wire(m.0) + (B::wire(m.1) + rest));
        A::lemma_parse_wire(m.0, B::wire(m.1) + rest);
        assert(d.skip(A::wire(m.0).len() as int) =~= B::wire(m.1) + rest);
        B::lemma_parse_wire(m.1, rest);
    }

    fn decode_from(data: &[u8], pos: usize) -> (r: Option<((A, B), usize)>) {
        match A::decode_from(data, pos) {
            Some((a, mid)) => {
                assert(data@.skip(pos as int).skip(mid - pos) =~= data@.skip(mid as int));
                match B::decode_from(data, mid) {
                    Some((b, end)) => Some(((a, b), end)),
                    None => None,
                }
            },
            None => None,
        }
    }
}

impl Serializable for u8 {
    open spec fn encodable(m: u8) -> bool {
        true
    }

    open spec fn wire(m: u8) -> Seq<u8> {
        seq![m]
    }

    fn encode_into(&self, out: &mut Vec<u8>) {
        out.push(*self);
    }
}

impl Deserializable for u8 {
    open spec fn parse(data: Seq<u8>) -> Option<(u8, nat)> {
        if data.len() >= 1 {
            Some((data[0], 1))
        } else {
            None
        }
    }

    proof fn lemma_parse_wire(m: u8, rest: Seq<u8>) {
        assert((Self::wire(m) + rest)[0] == m);
    }

    fn decode_from(data: &[u8], pos: usize) -> (r: Option<(u8, usize)>) {
        if pos < data.len() {
            Some((data[pos], pos + 1))
        } else {
            None
        }
    }
}

/// Little-endian bytes of a 16-bit word.
pub open spec fn u16_le(x: u16) -> Seq<u8> {
    seq![(x & 0xff) as u8, (x >> 8u16) as u8]
}

impl Serializable for u16 {
    open spec fn encodable(m: u16) -> bool {
        true
    }

    open spec fn wire(m: u16) -> Seq<u8> {
        u16_le(m)
    }

    fn encode_into(&self, out: &mut Vec<u8>) {
        out.push((*self & 0xff) as u8);
        out.push((*self >> 8u16) as u8);
        assert(final(out)@ =~= old(out)@ + u16_le(*self));
    }
}

impl Deserializable for u16 {
    open spec fn parse(data: Seq<u8>) -> Option<(u16, nat)> {
        if data.len() >= 2 {
            Some((((data[0] as u16) | ((data[1] as u16) << 8u16)), 2))
        } else {
            None
        }
    }

    proof fn lemma_parse_wire(m: u16, rest: Seq<u8>) {
        let d = Self::wire(m) + rest;
        let b0 = (m & 0xff) as u8;
        let b1 = (m >> 8u16) as u8;
        assert(d[0] == b0 && d[1] == b1);
        assert(((b0 as u16) | ((b1 as u16) << 8u16)) == m) by (bit_vector)
            requires
                b0 == (m & 0xff) as u8,
                b1 == (m >> 8u16) as u8,
        ;
    }

    fn decode_from(data: &[u8], pos: usize) -> (r: Option<(u16, usize)>) {
        if data.len() - pos >= 2 {
            Some((((data[pos] as u16) | ((data[pos + 1] as u16) << 8u16)), pos + 2))
        } else {
            None
        }
    }
}

impl Serializable for i64 {
    open spec fn encodable(m: i64) -> bool {
        true
    }

    open spec fn wire(m: i64) -> Seq<u8> {
        u64_le(m as u64)
    }

    fn encode_into(&self, out: &mut Vec<u8>) {
        push_u64(out, *self as u64);
    }
}

impl Deserializable for i64 {
    open spec fn parse(data: Seq<u8>) -> Option<(i64, nat)> {
        if data.len() >= 8 {
            Some((read_u64(data) as i64, 8))
        } else {
            None
        }
    }

    proof fn lemma_parse_wire(m: i64, rest: Seq<u8>) {
        lemma_read_u64(m as u64, rest);
        assert(((m as u64) as i64) == m) by (bit_vector);
    }

    fn decode_from(data: &[u8], pos: usize) -> (r: Option<(i64, usize)>) {
        if data.len() - pos >= 8 {
            Some((get_u64(data, pos) as i64, pos + 8))
        } else {
            None
        }
    }
}

impl<T: Serializable> Serializable for Option<T> {
    open spec fn encodable(m: Option<T::V>) -> bool {
        match m {
            Some(x) => T::encodable(x),
            None => true,
        }
    }

    open spec fn wire(m: Option<T::V>) -> Seq<u8> {
        match m {
            Some(x) => seq![1u8] + T::wire(x),
            None => seq![0u8],
        }
    }

    fn encode_into(&self, out: &mut Vec<u8>) {
        match self {
            Some(x) => {
                out.push(1u8);
                x.encode_into(out);
                assert(final(out)@ =~= old(out)@ + Self::wire(self.deep_view()));
            },
            None => {
                out.push(0u8);
                assert(final(out)@ =~= old(out)@ + Self::wire(self.deep_view()));
            },
        }
    }
}

impl<T: Deserializable> Deserializable for Option<T> {
    open spec fn parse(data: Seq<u8>) -> Option<(Option<T::V>, nat)> {
        if data.len() >= 1 && data[0] == 0 {
            Some((None, 1))
        } else if data.len() >= 1 && data[0] == 1 {
            match T::parse(data.skip(1)) {
                Some((x, k)) => Some((Some(x), 1 + k)),
                None => None,
            }
        } else {
            None
        }
    }

    proof fn lemma_parse_wire(m: Option<T::V>, rest: Seq<u8>) {
        let d = Self::wire(m) + rest;
        match m {
            Some(x) => {
                assert(d[0] == 1u8);
                assert(d.skip(1) =~= T::wire(x) + rest);
                T::lemma_parse_wire(x, rest);
            },
            None => {
                assert(d[0] == 0u8);
            },
        }
    }

    fn decode_from(data: &[u8], pos: usize) -> (r: Option<(Option<T>, usize)>) {
        if pos >= data.len() {
            return None;
        }
        if data[pos] == 0 {
            return Some((None, pos + 1));
        }
        if data[pos] != 1 {
            return None;
        }
        assert(data@.skip(pos as int).skip(1) =~= data@.skip(pos + 1));
        match T::decode_from(data, pos + 1) {
            Some((x, end)) => Some((Some(x), end)),
            None => None,
        }
    }
}

impl<A: Serializable, B: Serializable, C: Serializable> Serializable for (A, B, C) {
    open spec fn encodable(m: (A::V, B::V, C::V)) -> bool {
        A::encodable(m.0) && B::encodable(m.1) && C::encodable(m.2)
    }

    open spec fn wire(m: (A::V, B::V, C::V)) -> Seq<u8> {
        A::wire(m.0) + B::wire(m.1) + C::wire(m.2)
    }

    fn encode_into(&self, out: &mut Vec<u8>) {
        self.0.encode_into(out);
        self.1.encode_into(out);
        self.2.encode_into(out);
        assert(final(out)@ =~= old(out)@ + Self::wire(self.deep_view()));
    }
}

impl<A: Deserializable, B: Deserializable, C: Deserializable> Deserializable for (A, B, C) {
    open spec fn parse(data: Seq<u8>) -> Option<((A::V, B::V, C::V), nat)> {
        match <(A, B)>::parse(data) {
            Some((ab, k)) => match C::parse(data.skip(k as int)) {
                Some((c, j)) => Some(((ab.0, ab.1, c), k + j)),
                None => None,
            },
            None => None,
        }
    }

    proof fn lemma_parse_wire(m: (A::V, B::V, C::V), rest: Seq<u8>) {
        let d = Self::wire(m) + rest;
        let ab = (m.0, m.1);
        assert(d =~= <(A, B)>::wire(ab) + (C::wire(m.2) + rest));
        <(A, B)>::lemma_parse_wire(ab, C::wire(m.2) + rest);
        assert(d.skip(<(A, B)>::wire(ab).len() as int) =~= C::wire(m.2) + rest);
        C::lemma_parse_wire(m.2, rest);
    }

    fn decode_from(data: &[u8], pos: usize) -> (r: Option<((A, B, C), usize)>) {
        match <(A, B)>::decode_from(data, pos) {
            Some((ab, mid)) => {
                assert(data@.skip(pos as int).skip(mid - pos) =~= data@.skip(mid as int));
                match C::decode_from(data, mid) {
                    Some((c, end)) => Some(((ab.0, ab.1, c), end)),
                    None => None,
                }
            },
            None => None,
        }
    }
}

} // verus!
