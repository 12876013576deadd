//! HTTP/3 frames: a frame type, a length as a variable-length integer, and the payload.
use vstd::prelude::*;
use crate::http3::Http3Error;
use crate::text::{decimal, decimal_string, concat};

verus! {

/// HTTP/3 frame types
#[derive(Debug, Clone, Copy, PartialEq, Eq, Structural)]
pub enum FrameType {
    Data,
    Headers,
    CancelPush,
    Settings,
    PushPromise,
    Goaway,
    MaxPushId,
}

/// The code of a frame type on the wire.
pub open spec fn type_code(t: FrameType) -> u64 {
    match t {
        FrameType::Data => 0x00,
        FrameType::Headers => 0x01,
        FrameType::CancelPush => 0x03,
        FrameType::Settings => 0x04,
        FrameType::PushPromise => 0x05,
        FrameType::Goaway => 0x07,
        FrameType::MaxPushId => 0x0D,
    }
}

/// The frame type with code `v`, if there is one.
pub open spec fn type_of_code(v: u64) -> Option<FrameType> {
    if v == 0x00 {
        Some(FrameType::Data)
    } else if v == 0x01 {
        Some(FrameType::Headers)
    } else if v == 0x03 {
        Some(FrameType::CancelPush)
    } else if v == 0x04 {
        Some(FrameType::Settings)
    } else if v == 0x05 {
        Some(FrameType::PushPromise)
    } else if v == 0x07 {
        Some(FrameType::Goaway)
    } else if v == 0x0D {
        Some(FrameType::MaxPushId)
    } else {
        None
    }
}

impl FrameType {
    /// The frame type with code `value`, if there is one.
    pub fn from_u64(value: u64) -> (r: Option<Self>)
        ensures
            r == type_of_code(value),
    {
        if value == 0x00 {
            Some(FrameType::Data)
        } else if value == 0x01 {
            Some(FrameType::Headers)
        } else if value == 0x03 {
            Some(FrameType::CancelPush)
        } else if value == 0x04 {
            Some(FrameType::Settings)
        } else if value == 0x05 {
            Some(FrameType::PushPromise)
        } else if value == 0x07 {
            Some(FrameType::Goaway)
        } else if value == 0x0D {
            Some(FrameType::MaxPushId)
        } else {
            None
        }
    }

    /// The code of this frame type on the wire.
    pub fn code(self) -> (r: u8)
        ensures
            r as u64 == type_code(self),
    {
        match self {
            FrameType::Data => 0x00,
            FrameType::Headers => 0x01,
            FrameType::CancelPush => 0x03,
            FrameType::Settings => 0x04,
            FrameType::PushPromise => 0x05,
            FrameType::Goaway => 0x07,
            FrameType::MaxPushId => 0x0D,
        }
    }
}

/// Every frame type has a code that names it.
pub proof fn lemma_type_code_roundtrip(t: FrameType)
    ensures
        type_of_code(type_code(t)) == Some(t),
        type_code(t) < 64,
{
}

/// The variable-length encoding of `v`: one, two, four or eight big-endian bytes, the two
/// high bits of the first byte giving the length. Values from 2^62 on lose their two top bits.
pub open spec fn varint_encode(v: u64) -> Seq<u8> {
    if v < 64 {
        seq![v as u8]
    } else if v < 16384 {
        let x = v + 0x4000;
        seq![(x / 0x100) as u8, (x % 0x100) as u8]
    } else if v < 1073741824 {
        let x = v + 0x8000_0000;
        seq![
            (x / 0x100_0000) as u8,
            ((x / 0x1_0000) % 0x100) as u8,
            ((x / 0x100) % 0x100) as u8,
            (x % 0x100) as u8,
        ]
    } else {
        let x = (v % 0x4000_0000_0000_0000) + 0xC000_0000_0000_0000;
        seq![
            (x / 0x100_0000_0000_0000) as u8,
            ((x / 0x1_0000_0000_0000) % 0x100) as u8,
            ((x / 0x100_0000_0000) % 0x100) as u8,
            ((x / 0x1_0000_0000) % 0x100) as u8,
            ((x / 0x100_0000) % 0x100) as u8,
            ((x / 0x1_0000) % 0x100) as u8,
            ((x / 0x100) % 0x100) as u8,
            (x % 0x100) as u8,
        ]
    }
}

/// What reading a variable-length integer at `pos` gives.
pub enum VarintRead {
    /// No byte left
    NoData,
    /// The first byte announces more bytes than there are
    Incomplete,
    /// The value and the position after it
    Value(u64, int),
}

/// The number of bytes that a first byte `b` announces.
pub open spec fn varint_len(b: u8) -> int {
    let p = b / 64;
    if p == 0 {
        1
    } else if p == 1 {
        2
    } else if p == 2 {
        4
    } else {
        8
    }
}

/// The value of the `n` bytes at `pos`, big-endian, without the two length bits.
pub open spec fn varint_value(s: Seq<u8>, pos: int, n: int) -> int {
    let b0 = (s[pos] % 64) as int;
    if n == 1 {
        b0
    } else if n == 2 {
        b0 * 0x100 + s[pos + 1]
    } else if n == 4 {
        ((b0 * 0x100 + s[pos + 1]) * 0x100 + s[pos + 2]) * 0x100 + s[pos + 3]
    } else {
        ((((((b0 * 0x100 + s[pos + 1]) * 0x100 + s[pos + 2]) * 0x100 + s[pos + 3]) * 0x100
            + s[pos + 4]) * 0x100 + s[pos + 5]) * 0x100 + s[pos + 6]) * 0x100 + s[pos + 7]
    }
}

/// The variable-length integer at `pos` of `s`.
pub open spec fn varint_at(s: Seq<u8>, pos: int) -> VarintRead {
    if pos >= s.len() {
        VarintRead::NoData
    } else {
        let n = varint_len(s[pos]);
        if pos + n > s.len() {
            VarintRead::Incomplete
        } else {
            VarintRead::Value(varint_value(s, pos, n) as u64, pos + n)
        }
    }
}

/// What decoding a frame from bytes gives.
pub enum FrameDecode {
    /// Fewer than two bytes
    TooShort,
    /// A variable-length integer runs past the end
    IncompleteVarint,
    /// No byte left for a variable-length integer
    NoVarintData,
    /// The type code names no frame type
    UnknownType(u64),
    /// The payload is shorter than its length says
    IncompletePayload,
    /// The frame type and payload
    Decoded(FrameType, Seq<u8>),
}

/// The frame at the start of `s`. Bytes after the payload are ignored.
pub open spec fn frame_decode(s: Seq<u8>) -> FrameDecode {
    if s.len() < 2 {
        FrameDecode::TooShort
    } else {
        match varint_at(s, 0) {
            VarintRead::NoData => FrameDecode::NoVarintData,
            VarintRead::Incomplete => FrameDecode::IncompleteVarint,
            VarintRead::Value(t, p1) => match type_of_code(t) {
                None => FrameDecode::UnknownType(t),
                Some(ft) => match varint_at(s, p1) {
                    VarintRead::NoData => FrameDecode::NoVarintData,
                    VarintRead::Incomplete => FrameDecode::IncompleteVarint,
                    VarintRead::Value(len, p2) => if s.len() - p2 < len {
                        FrameDecode::IncompletePayload
                    } else {
                        FrameDecode::Decoded(ft, s.subrange(p2, p2 + len))
                    },
                },
            },
        }
    }
}

/// The bytes of a frame: its type code in one byte, the payload length, the payload.
pub open spec fn frame_encode(t: FrameType, payload: Seq<u8>) -> Seq<u8> {
    seq![type_code(t) as u8] + varint_encode(payload.len() as u64) + payload
}

/// HTTP/3 frame
#[derive(Debug, Clone)]
pub struct Frame {
    pub frame_type: FrameType,
    pub payload: Vec<u8>,
}

impl Frame {
    /// A frame of type `frame_type` carrying `payload`.
    pub fn new(frame_type: FrameType, payload: Vec<u8>) -> (r: Self)
        ensures
            r.frame_type == frame_type,
            r.payload@ == payload@,
    {
        Frame { frame_type, payload }
    }

    /// A DATA frame.
    pub fn data(data: Vec<u8>) -> (r: Self)
        ensures
            r.frame_type == FrameType::Data,
            r.payload@ == data@,
    {
        Self::new(FrameType::Data, data)
    }

    /// A HEADERS frame.
    pub fn headers(headers: Vec<u8>) -> (r: Self)
        ensures
            r.frame_type == FrameType::Headers,
            r.payload@ == headers@,
    {
        Self::new(FrameType::Headers, headers)
    }

    /// An empty SETTINGS frame.
    pub fn settings() -> (r: Self)
        ensures
            r.frame_type == FrameType::Settings,
            r.payload@.len() == 0,
    {
        Self::new(FrameType::Settings, Vec::new())
    }

    /// The bytes of the frame.
    pub fn encode(&self) -> (r: Vec<u8>)
        requires
            self.payload@.len() <= u64::MAX,
        ensures
            r@ == frame_encode(self.frame_type, self.payload@),
    {
        let mut buf: Vec<u8> = Vec::new();
        buf.push(self.frame_type.code());
        Self::encode_varint(&mut buf, self.payload.len() as u64);
        let n = self.payload.len();
        let ghost head = buf@;
        let mut i: usize = 0;
        while i < n
            invariant
                n == self.payload@.len(),
                i <= n,
                buf@ == head + self.payload@.subrange(0, i as int),
            decreases n - i,
        {
            buf.push(self.payload[i]);
            assert(self.payload@.subrange(0, i + 1) =~= self.payload@.subrange(0, i as int).push(
                self.payload@[i as int],
            ));
            i = i + 1;
        }
        assert(self.payload@.subrange(0, n as int) =~= self.payload@);
        assert(buf@ =~= frame_encode(self.frame_type, self.payload@));
        buf
    }

    /// Decodes the frame at the start of `data`; bytes after its payload are ignored.
    pub fn decode(data: Vec<u8>) -> (r: Result<Self, Http3Error>)
        ensures
            match frame_decode(data@) {
                FrameDecode::Decoded(t, p) => r matches Ok(f) && f.frame_type == t && f.payload@ == p,
                FrameDecode::TooShort => r matches Err(Http3Error::InvalidFrame(m)) && m@ == "Too short"@,
                _ => r is Err,
            },
            r matches Err(e) ==> e is InvalidFrame,
            frame_decode(data@) matches FrameDecode::UnknownType(t) ==> r matches Err(Http3Error::InvalidFrame(m))
                && m@ == "Unknown frame type: "@ + decimal(t as nat),
            frame_decode(data@) matches FrameDecode::IncompletePayload ==> r matches Err(Http3Error::InvalidFrame(m))
                && m@ == "Incomplete payload"@,
            frame_decode(data@) matches FrameDecode::IncompleteVarint ==> r matches Err(Http3Error::InvalidFrame(m))
                && m@ == "Incomplete varint"@,
            frame_decode(data@) matches FrameDecode::NoVarintData ==> r matches Err(Http3Error::InvalidFrame(m))
                && m@ == "No data for varint"@,
    {
        if data.len() < 2 {
            return Err(Http3Error::InvalidFrame(String::from_str("Too short")));
        }
        let (frame_type_val, p1) = match Self::decode_varint(&data, 0) {
            Ok(x) => x,
            Err(e) => {
                return Err(e);
            },
        };
        let frame_type = match FrameType::from_u64(frame_type_val) {
            Some(t) => t,
            None => {
                let num = decimal_string(frame_type_val);
                return Err(Http3Error::InvalidFrame(concat("Unknown frame type: ", num.as_str())));
            },
        };
        let (length, p2) = match Self::decode_varint(&data, p1) {
            Ok(x) => x,
            Err(e) => {
                return Err(e);
            },
        };
        if ((data.len() - p2) as u64) < length {
            return Err(Http3Error::InvalidFrame(String::from_str("Incomplete payload")));
        }
        let end = p2 + length as usize;
        let mut payload: Vec<u8> = Vec::new();
        let mut i: usize = p2;
        while i < end
            invariant
                p2 <= i <= end,
                end <= data@.len(),
                payload@ == data@.subrange(p2 as int, i as int),
            decreases end - i,
        {
            payload.push(data[i]);
            assert(data@.subrange(p2 as int, i + 1) =~= data@.subrange(p2 as int, i as int).push(
                data@[i as int],
            ));
            i = i + 1;
        }
        Ok(Frame { frame_type, payload })
    }

    /// Appends the variable-length encoding of `value`.
    pub fn encode_varint(buf: &mut Vec<u8>, value: u64)
        ensures
            final(buf)@ == old(buf)@ + varint_encode(value),
    {
        let ghost before = buf@;
        if value < 64 {
            buf.push(value as u8);
        } else if value < 16384 {
            let x = value + 0x4000;
            buf.push((x / 0x100) as u8);
            buf.push((x % 0x100) as u8);
        } else if value < 1073741824 {
            let x = value + 0x8000_0000;
            buf.push((x / 0x100_0000) as u8);
            buf.push(((x / 0x1_0000) % 0x100) as u8);
            buf.push(((x / 0x100) % 0x100) as u8);
            buf.push((x % 0x100) as u8);
        } else {
            let x = (value % 0x4000_0000_0000_0000) + 0xC000_0000_0000_0000;
            buf.push((x / 0x100_0000_0000_0000) as u8);
            buf.push(((x / 0x1_0000_0000_0000) % 0x100) as u8);
            buf.push(((x / 0x100_0000_0000) % 0x100) as u8);
            buf.push(((x / 0x1_0000_0000) % 0x100) as u8);
            buf.push(((x / 0x100_0000) % 0x100) as u8);
            buf.push(((x / 0x1_0000) % 0x100) as u8);
            buf.push(((x / 0x100) % 0x100) as u8);
            buf.push((x % 0x100) as u8);
        }
        assert(buf@ =~= before + varint_encode(value));
    }

    /// Reads the variable-length integer at `pos`: its value and the position after it.
    pub fn decode_varint(data: &Vec<u8>, pos: usize) -> (r: Result<(u64, usize), Http3Error>)
        ensures
            match varint_at(data@, pos as int) {
                VarintRead::Value(v, next) => r == Ok::<(u64, usize), Http3Error>((v, next as usize)),
                VarintRead::NoData => r matches Err(Http3Error::InvalidFrame(m)) && m@ == "No data for varint"@,
                VarintRead::Incomplete => r matches Err(Http3Error::InvalidFrame(m)) && m@ == "Incomplete varint"@,
            },
            r matches Ok((v, next)) ==> pos < next <= data@.len(),
    {
        if pos >= data.len() {
            return Err(Http3Error::InvalidFrame(String::from_str("No data for varint")));
        }
        let first = data[pos];
        let prefix = first / 64;
        let b0 = (first % 64) as u64;
        let n: usize = if prefix == 0 {
            1
        } else if prefix == 1 {
            2
        } else if prefix == 2 {
            4
        } else {
            8
        };
        if data.len() - pos < n {
            return Err(Http3Error::InvalidFrame(String::from_str("Incomplete varint")));
        }
        let v: u64 = if n == 1 {
            b0
        } else if n == 2 {
            b0 * 0x100 + data[pos + 1] as u64
        } else if n == 4 {
            ((b0 * 0x100 + data[pos + 1] as u64) * 0x100 + data[pos + 2] as u64) * 0x100
                + data[pos + 3] as u64
        } else {
            ((((((b0 * 0x100 + data[pos + 1] as u64) * 0x100 + data[pos + 2] as u64) * 0x100
                + data[pos + 3] as u64) * 0x100 + data[pos + 4] as u64) * 0x100 + data[pos
                + 5] as u64) * 0x100 + data[pos + 6] as u64) * 0x100 + data[pos + 7] as u64
        };
        Ok((v, pos + n))
    }
}

proof fn lemma_varint_bytes(v: u64)
    requires
        v < 0x4000_0000_0000_0000,
    ensures
        varint_encode(v).len() == varint_len(varint_encode(v)[0]),
        varint_value(varint_encode(v), 0, varint_len(varint_encode(v)[0])) == v,
{
    let e = varint_encode(v);
    if v < 64 {
        assert(e[0] / 64 == 0);
    } else if v < 16384 {
        let x: u64 = (v + 0x4000) as u64;
        assert(x / 0x100 / 64 == 1 && (x / 0x100) % 64 * 0x100 + x % 0x100 == v) by (bit_vector)
            requires
                x == v + 0x4000,
                64 <= v < 16384,
        ;
    } else if v < 1073741824 {
        let x: u64 = (v + 0x8000_0000) as u64;
        assert(x / 0x100_0000 / 64 == 2 && (((x / 0x100_0000) % 64 * 0x100 + (x / 0x1_0000) % 0x100)
            * 0x100 + (x / 0x100) % 0x100) * 0x100 + x % 0x100 == v) by (bit_vector)
            requires
                x == v + 0x8000_0000,
                16384 <= v < 1073741824,
        ;
    } else {
        let x: u64 = ((v % 0x4000_0000_0000_0000) + 0xC000_0000_0000_0000) as u64;
        assert(x / 0x100_0000_0000_0000 / 64 == 3 && ((((((((x / 0x100_0000_0000_0000) % 64
            * 0x100 + (x / 0x1_0000_0000_0000) % 0x100) * 0x100 + (x / 0x100_0000_0000) % 0x100)
            * 0x100 + (x / 0x1_0000_0000) % 0x100) * 0x100 + (x / 0x100_0000) % 0x100) * 0x100 + (x
            / 0x1_0000) % 0x100) * 0x100 + (x / 0x100) % 0x100) * 0x100 + x % 0x100) == v)
            by (bit_vector)
            requires
                x == v % 0x4000_0000_0000_0000 + 0xC000_0000_0000_0000,
                1073741824 <= v < 0x4000_0000_0000_0000,
        ;
    }
}

/// Decoding the encoding of a value below 2^62 gives the value back, and takes exactly
/// the bytes of the encoding, whatever comes before and after it.
pub proof fn lemma_varint_roundtrip(pre: Seq<u8>, v: u64, rest: Seq<u8>)
    requires
        v < 0x4000_0000_0000_0000,
    ensures
        varint_at(pre + varint_encode(v) + rest, pre.len() as int) == VarintRead::Value(
            v,
            (pre.len() + varint_encode(v).len()) as int,
        ),
{
    let e = varint_encode(v);
    let s = pre + e + rest;
    let p = pre.len() as int;
    lemma_varint_bytes(v);
    assert forall|k: int| 0 <= k < e.len() implies s[p + k] == e[k] by {}
    let n = e.len() as int;
    assert(s[p] == e[0]);
    if n >= 2 {
        assert(s[p + 1] == e[1]);
    }
    if n >= 4 {
        assert(s[p + 2] == e[2] && s[p + 3] == e[3]);
    }
    if n >= 8 {
        assert(s[p + 4] == e[4] && s[p + 5] == e[5] && s[p + 6] == e[6] && s[p + 7] == e[7]);
    }
    assert(varint_value(s, p, n) == varint_value(e, 0, n));
}

/// Decoding an encoded frame gives back its type and payload.
pub proof fn lemma_frame_roundtrip(t: FrameType, payload: Seq<u8>)
    requires
        payload.len() < 0x4000_0000_0000_0000,
    ensures
        frame_decode(frame_encode(t, payload)) == FrameDecode::Decoded(t, payload),
{
    let head = seq![type_code(t) as u8];
    let e = varint_encode(payload.len() as u64);
    let s = frame_encode(t, payload);
    let empty = Seq::<u8>::empty();
    assert(varint_encode(type_code(t)) =~= head);
    assert(s =~= empty + varint_encode(type_code(t)) + (e + payload));
    lemma_varint_roundtrip(empty, type_code(t), e + payload);
    assert(s =~= head + e + payload);
    lemma_varint_roundtrip(head, payload.len() as u64, payload);
    assert(s.subrange((1 + e.len()) as int, (1 + e.len() + payload.len()) as int) =~= payload);
}

/// The frame types carry their HTTP/3 wire codes (RFC 9114, section 7.2): DATA 0x00,
/// HEADERS 0x01, CANCEL_PUSH 0x03, SETTINGS 0x04, PUSH_PROMISE 0x05, GOAWAY 0x07 and
/// MAX_PUSH_ID 0x0D; and a code names a frame type exactly when it is one of these, the
/// type whose code it is.
pub proof fn lemma_http3_wire_codes(v: u64, t: FrameType)
    ensures
        type_code(FrameType::Data) == 0x00,
        type_code(FrameType::Headers) == 0x01,
        type_code(FrameType::CancelPush) == 0x03,
        type_code(FrameType::Settings) == 0x04,
        type_code(FrameType::PushPromise) == 0x05,
        type_code(FrameType::Goaway) == 0x07,
        type_code(FrameType::MaxPushId) == 0x0D,
        type_of_code(v) == Some(t) <==> type_code(t) == v,
        type_of_code(v) is Some <==> (v == 0x00 || v == 0x01 || v == 0x03 || v == 0x04 || v == 0x05 || v == 0x07
            || v == 0x0D),
{
}

} // verus!
