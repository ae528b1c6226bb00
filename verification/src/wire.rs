//! The wire form of a message: fields that carry a number and a value, a
//! value being a number in base 128 or a run of bytes that is preceded by
//! its length. This file holds the fields; what they mean in a message is
//! said where the messages are written and read.

use vstd::prelude::*;

verus! {

/// A number in base 128, lowest digit first; every digit but the last has
/// its highest bit set.
pub open spec fn varint(n: nat) -> Seq<u8>
    decreases n,
{
    if n < 128 {
        seq![n as u8]
    } else {
        seq![(n % 128 + 128) as u8] + varint(n / 128)
    }
}

/// The number in base 128 that the bytes begin with, read from at most
/// `limit` bytes, and how many bytes it takes.
pub open spec fn read_varint(bytes: Seq<u8>, limit: nat) -> Option<(nat, nat)>
    decreases limit,
{
    if limit == 0 || bytes.len() == 0 {
        None
    } else if bytes[0] < 128 {
        Some((bytes[0] as nat, 1nat))
    } else {
        match read_varint(bytes.skip(1), (limit - 1) as nat) {
            Some((v, n)) => Some((((bytes[0] - 128) + 128 * v) as nat, n + 1)),
            None => None,
        }
    }
}

/// The longest number in base 128 that is read.
pub const MAX_VARINT_LEN: usize = 10;

/// The 64-bit number that the bytes begin with, and how many bytes it
/// takes. A number of more than ten bytes, or one that does not fit 64
/// bits, is none.
pub open spec fn parse_varint(bytes: Seq<u8>) -> Option<(u64, nat)> {
    match read_varint(bytes, MAX_VARINT_LEN as nat) {
        Some((v, n)) => if v <= u64::MAX {
            Some((v as u64, n))
        } else {
            None
        },
        None => None,
    }
}

/// A number that was written is read back, whatever follows it.
pub proof fn lemma_varint_round_trip(n: nat, rest: Seq<u8>, limit: nat)
    requires
        limit >= varint(n).len(),
    ensures
        read_varint(varint(n) + rest, limit) == Some((n, varint(n).len())),
    decreases n,
{
    let all = varint(n) + rest;
    if n < 128 {
        assert(all[0] == n as u8);
    } else {
        let tail = varint(n / 128);
        assert(all[0] == (n % 128 + 128) as u8);
        assert(all.skip(1) =~= tail + rest);
        lemma_varint_round_trip(n / 128, rest, (limit - 1) as nat);
    }
}

/// A 64-bit number takes at most ten bytes.
pub proof fn lemma_varint_len(n: nat)
    ensures
        varint(n).len() >= 1,
        n < 0x80 ==> varint(n).len() == 1,
        n < 0x4000 ==> varint(n).len() <= 2,
        n < 0x20_0000 ==> varint(n).len() <= 3,
        n < 0x1000_0000 ==> varint(n).len() <= 4,
        n < 0x8_0000_0000 ==> varint(n).len() <= 5,
        n < 0x400_0000_0000 ==> varint(n).len() <= 6,
        n < 0x2_0000_0000_0000 ==> varint(n).len() <= 7,
        n < 0x100_0000_0000_0000 ==> varint(n).len() <= 8,
        n < 0x8000_0000_0000_0000 ==> varint(n).len() <= 9,
        n <= u64::MAX ==> varint(n).len() <= 10,
    decreases n,
{
    if n >= 128 {
        lemma_varint_len(n / 128);
    }
}

/// A 64-bit number that was written is parsed back, whatever follows it.
pub proof fn lemma_parse_varint(n: u64, rest: Seq<u8>)
    ensures
        parse_varint(varint(n as nat) + rest) == Some((n, varint(n as nat).len())),
{
    lemma_varint_len(n as nat);
    lemma_varint_round_trip(n as nat, rest, MAX_VARINT_LEN as nat);
}

/// Writes a number in base 128 behind what `out` holds.
pub fn put_varint(out: &mut Vec<u8>, n: u64)
    ensures
        final(out)@ == old(out)@ + varint(n as nat),
    decreases n,
{
    if n < 128 {
        out.push(n as u8);
        assert(out@ =~= old(out)@ + varint(n as nat));
    } else {
        out.push((n % 128 + 128) as u8);
        put_varint(out, n / 128);
        assert(out@ =~= old(out)@ + varint(n as nat));
    }
}

fn take_varint(bytes: &[u8], pos: usize, limit: usize) -> (r: Option<(u128, usize)>)
    requires
        pos <= bytes@.len(),
        limit <= MAX_VARINT_LEN,
    ensures
        match r {
            Some((v, n)) => read_varint(bytes@.skip(pos as int), limit as nat) == Some(
                (v as nat, n as nat),
            ) && pos + n <= bytes@.len() && 1 <= n <= limit,
            None => read_varint(bytes@.skip(pos as int), limit as nat) is None,
        },
        r matches Some((v, n)) ==> v < pow128(n as nat),
    decreases limit,
{
    let ghost suffix = bytes@.skip(pos as int);
    if limit == 0 || pos >= bytes.len() {
        return None;
    }
    let b = bytes[pos];
    assert(suffix[0] == b);
    if b < 128 {
        proof {
            reveal_with_fuel(pow128, 2);
        }
        return Some((b as u128, 1));
    }
    assert(suffix.skip(1) =~= bytes@.skip(pos as int + 1));
    match take_varint(bytes, pos + 1, limit - 1) {
        Some((v, n)) => {
            proof {
                lemma_pow128_bound(n as nat);
                assert(pow128((n + 1) as nat) == 128 * pow128(n as nat));
                assert((b - 128) + 128 * v < 128 * pow128(n as nat)) by (nonlinear_arith)
                    requires
                        b < 256,
                        b >= 128,
                        v < pow128(n as nat),
                ;
            }
            Some(((b - 128) as u128 + 128 * v, n + 1))
        },
        None => None,
    }
}

/// 128 to a power.
pub open spec fn pow128(n: nat) -> nat
    decreases n,
{
    if n == 0 {
        1
    } else {
        128 * pow128((n - 1) as nat)
    }
}

proof fn lemma_pow128_bound(n: nat)
    requires
        n <= 10,
    ensures
        pow128(n) <= 0x4000_0000_0000_0000_0000,
        pow128(n) >= 1,
    decreases n,
{
    reveal_with_fuel(pow128, 12);
}

/// The 64-bit number that the bytes hold at `pos`, and how many bytes it
/// takes.
pub fn get_varint(bytes: &[u8], pos: usize) -> (r: Option<(u64, usize)>)
    requires
        pos <= bytes@.len(),
    ensures
        match r {
            Some((v, n)) => parse_varint(bytes@.skip(pos as int)) == Some((v, n as nat)) && pos
                + n <= bytes@.len() && n >= 1,
            None => parse_varint(bytes@.skip(pos as int)) is None,
        },
{
    match take_varint(bytes, pos, MAX_VARINT_LEN) {
        Some((v, n)) => {
            if v <= u64::MAX as u128 {
                Some((v as u64, n))
            } else {
                None
            }
        },
        None => None,
    }
}

/// The value of a field.
#[derive(Debug, PartialEq, Eq)]
pub enum WireValue {
    /// A number in base 128.
    Varint(u64),
    /// Eight bytes.
    Fixed64(Vec<u8>),
    /// A run of bytes, preceded by its length.
    Bytes(Vec<u8>),
    /// Four bytes.
    Fixed32(Vec<u8>),
}

/// What a `WireValue` holds.
pub ghost enum WireValueView {
    Varint(u64),
    Fixed64(Seq<u8>),
    Bytes(Seq<u8>),
    Fixed32(Seq<u8>),
}

impl View for WireValue {
    type V = WireValueView;

    open spec fn view(&self) -> WireValueView {
        match self {
            WireValue::Varint(v) => WireValueView::Varint(*v),
            WireValue::Fixed64(b) => WireValueView::Fixed64(b@),
            WireValue::Bytes(b) => WireValueView::Bytes(b@),
            WireValue::Fixed32(b) => WireValueView::Fixed32(b@),
        }
    }
}

/// A field: its number and its value.
#[derive(Debug, PartialEq, Eq)]
pub struct WireField {
    pub number: u64,
    pub value: WireValue,
}

/// What a `WireField` holds.
pub ghost struct WireFieldView {
    pub number: u64,
    pub value: WireValueView,
}

impl View for WireField {
    type V = WireFieldView;

    open spec fn view(&self) -> WireFieldView {
        WireFieldView { number: self.number, value: self.value@ }
    }
}

/// The views of a list of fields, in order.
pub open spec fn field_views(fields: Seq<WireField>) -> Seq<WireFieldView> {
    Seq::new(fields.len(), |i: int| fields[i]@)
}

/// The kind of value that a key announces: 0 for a number in base 128, 1
/// for eight bytes, 2 for a run of bytes, 5 for four bytes.
pub open spec fn kind_of(value: WireValueView) -> nat {
    match value {
        WireValueView::Varint(_) => 0,
        WireValueView::Fixed64(_) => 1,
        WireValueView::Bytes(_) => 2,
        WireValueView::Fixed32(_) => 5,
    }
}

/// The highest number that a field can have.
pub const MAX_FIELD_NUMBER: u64 = 0x1fff_ffff_ffff_ffff;

/// Whether a field can be written: its number is at least 1 and leaves
/// room for the kind, and a value of fixed length has that length.
pub open spec fn field_ok(f: WireFieldView) -> bool {
    &&& 1 <= f.number <= MAX_FIELD_NUMBER
    &&& match f.value {
        WireValueView::Varint(_) => true,
        WireValueView::Fixed64(b) => b.len() == 8,
        WireValueView::Bytes(b) => b.len() <= u64::MAX,
        WireValueView::Fixed32(b) => b.len() == 4,
    }
}

/// A field on the wire: the key, which holds the number and the kind of
/// value, and then the value.
pub open spec fn field_bytes(f: WireFieldView) -> Seq<u8> {
    varint((f.number * 8 + kind_of(f.value)) as nat) + match f.value {
        WireValueView::Varint(v) => varint(v as nat),
        WireValueView::Fixed64(b) => b,
        WireValueView::Bytes(b) => varint(b.len()) + b,
        WireValueView::Fixed32(b) => b,
    }
}

/// A list of fields on the wire, one behind the other.
pub open spec fn fields_bytes(fields: Seq<WireFieldView>) -> Seq<u8>
    decreases fields.len(),
{
    if fields.len() == 0 {
        Seq::empty()
    } else {
        field_bytes(fields[0]) + fields_bytes(fields.skip(1))
    }
}

/// The field that the bytes begin with, and how many bytes it takes.
pub open spec fn parse_field(bytes: Seq<u8>) -> Option<(WireFieldView, nat)> {
    match parse_varint(bytes) {
        None => None,
        Some((key, n)) => {
            let number = key / 8;
            let rest = bytes.skip(n as int);
            if number == 0 {
                None
            } else if key % 8 == 0 {
                match parse_varint(rest) {
                    Some((v, m)) => Some(
                        (WireFieldView { number, value: WireValueView::Varint(v) }, n + m),
                    ),
                    None => None,
                }
            } else if key % 8 == 1 {
                if rest.len() >= 8 {
                    Some(
                        (
                            WireFieldView {
                                number,
                                value: WireValueView::Fixed64(rest.subrange(0, 8)),
                            },
                            n + 8,
                        ),
                    )
                } else {
                    None
                }
            } else if key % 8 == 2 {
                match parse_varint(rest) {
                    Some((len, m)) => if rest.len() - m >= len {
                        Some(
                            (
                                WireFieldView {
                                    number,
                                    value: WireValueView::Bytes(
                                        rest.subrange(m as int, m + len),
                                    ),
                                },
                                n + m + len as nat,
                            ),
                        )
                    } else {
                        None
                    },
                    None => None,
                }
            } else if key % 8 == 5 {
                if rest.len() >= 4 {
                    Some(
                        (
                            WireFieldView {
                                number,
                                value: WireValueView::Fixed32(rest.subrange(0, 4)),
                            },
                            n + 4,
                        ),
                    )
                } else {
                    None
                }
            } else {
                None
            }
        },
    }
}

/// The fields that the bytes hold, if the bytes are fields from end to
/// end.
pub open spec fn parse_fields(bytes: Seq<u8>) -> Option<Seq<WireFieldView>>
    decreases bytes.len(),
{
    if bytes.len() == 0 {
        Some(Seq::empty())
    } else {
        match parse_field(bytes) {
            None => None,
            Some((f, n)) => if 0 < n <= bytes.len() {
                match parse_fields(bytes.skip(n as int)) {
                    Some(rest) => Some(seq![f] + rest),
                    None => None,
                }
            } else {
                None
            },
        }
    }
}

/// A field that was written is parsed back, whatever follows it.
pub proof fn lemma_parse_field(f: WireFieldView, rest: Seq<u8>)
    requires
        field_ok(f),
    ensures
        parse_field(field_bytes(f) + rest) == Some((f, field_bytes(f).len())),
        field_bytes(f).len() > 0,
{
    let key = (f.number * 8 + kind_of(f.value)) as u64;
    let all = field_bytes(f) + rest;
    let k = varint(key as nat);
    lemma_varint_len(key as nat);
    assert(key / 8 == f.number && key % 8 == kind_of(f.value));
    match f.value {
        WireValueView::Varint(v) => {
            let body = varint(v as nat);
            assert(all =~= k + (body + rest));
            lemma_parse_varint(key, body + rest);
            assert(all.skip(k.len() as int) =~= body + rest);
            lemma_parse_varint(v, rest);
        },
        WireValueView::Fixed64(b) => {
            assert(all =~= k + (b + rest));
            lemma_parse_varint(key, b + rest);
            assert(all.skip(k.len() as int) =~= b + rest);
            assert((b + rest).subrange(0, 8) =~= b);
        },
        WireValueView::Bytes(b) => {
            let len = varint(b.len());
            assert(all =~= k + (len + (b + rest)));
            lemma_parse_varint(key, len + (b + rest));
            assert(all.skip(k.len() as int) =~= len + (b + rest));
            lemma_parse_varint(b.len() as u64, b + rest);
            assert((len + (b + rest)).subrange(len.len() as int, (len.len() + b.len()) as int) =~= b);
        },
        WireValueView::Fixed32(b) => {
            assert(all =~= k + (b + rest));
            lemma_parse_varint(key, b + rest);
            assert(all.skip(k.len() as int) =~= b + rest);
            assert((b + rest).subrange(0, 4) =~= b);
        },
    }
}

/// Fields that were written are parsed back.
pub proof fn lemma_parse_fields(fields: Seq<WireFieldView>)
    requires
        forall|i: int| 0 <= i < fields.len() ==> field_ok(#[trigger] fields[i]),
    ensures
        parse_fields(fields_bytes(fields)) == Some(fields),
    decreases fields.len(),
{
    if fields.len() > 0 {
        let rest = fields.skip(1);
        let tail = fields_bytes(rest);
        lemma_parse_field(fields[0], tail);
        assert forall|i: int| 0 <= i < rest.len() implies field_ok(#[trigger] rest[i]) by {
            assert(rest[i] == fields[i + 1]);
        }
        lemma_parse_fields(rest);
        let all = fields_bytes(fields);
        assert(all.skip(field_bytes(fields[0]).len() as int) =~= tail);
        assert(seq![fields[0]] + rest =~= fields);
    }
}

/// A copy of the bytes from `from` up to `to`.
pub fn copy_range(bytes: &[u8], from: usize, to: usize) -> (out: Vec<u8>)
    requires
        from <= to <= bytes@.len(),
    ensures
        out@ == bytes@.subrange(from as int, to as int),
{
    let mut out: Vec<u8> = Vec::new();
    let mut i: usize = from;
    while i < to
        invariant
            from <= i <= to,
            to <= bytes@.len(),
            out@ == bytes@.subrange(from as int, i as int),
        decreases to - i,
    {
        out.push(bytes[i]);
        assert(out@ =~= bytes@.subrange(from as int, i as int + 1));
        i += 1;
    }
    out
}

/// Writes the bytes behind what `out` holds.
pub fn put_bytes(out: &mut Vec<u8>, bytes: &[u8])
    ensures
        final(out)@ == old(out)@ + bytes@,
{
    let mut i: usize = 0;
    while i < bytes.len()
        invariant
            i <= bytes@.len(),
            out@ == old(out)@ + bytes@.subrange(0, i as int),
        decreases bytes@.len() - i,
    {
        out.push(bytes[i]);
        assert(out@ =~= old(out)@ + bytes@.subrange(0, i as int + 1));
        i += 1;
    }
    assert(bytes@.subrange(0, bytes@.len() as int) =~= bytes@);
}

/// Writes a field whose value is a number behind what `out` holds.
pub fn put_varint_field(out: &mut Vec<u8>, number: u64, value: u64)
    requires
        1 <= number <= MAX_FIELD_NUMBER,
    ensures
        final(out)@ == old(out)@ + field_bytes(
            WireFieldView { number, value: WireValueView::Varint(value) },
        ),
{
    put_varint(out, number * 8);
    put_varint(out, value);
    assert(out@ =~= old(out)@ + field_bytes(
        WireFieldView { number, value: WireValueView::Varint(value) },
    ));
}

/// Writes a field whose value is a run of bytes behind what `out` holds.
pub fn put_bytes_field(out: &mut Vec<u8>, number: u64, value: &[u8])
    requires
        1 <= number <= MAX_FIELD_NUMBER,
    ensures
        final(out)@ == old(out)@ + field_bytes(
            WireFieldView { number, value: WireValueView::Bytes(value@) },
        ),
{
    put_varint(out, number * 8 + 2);
    put_varint(out, value.len() as u64);
    put_bytes(out, value);
    assert(out@ =~= old(out)@ + field_bytes(
        WireFieldView { number, value: WireValueView::Bytes(value@) },
    ));
}

/// The field that the bytes hold at `pos`, and how many bytes it takes.
pub fn read_field(bytes: &[u8], pos: usize) -> (r: Option<(WireField, usize)>)
    requires
        pos <= bytes@.len(),
    ensures
        match r {
            Some((f, n)) => parse_field(bytes@.skip(pos as int)) == Some((f@, n as nat)) && 0 < n
                && pos + n <= bytes@.len(),
            None => parse_field(bytes@.skip(pos as int)) is None,
        },
{
    let ghost suffix = bytes@.skip(pos as int);
    let total = bytes.len();
    let (key, n) = match get_varint(bytes, pos) {
        Some(r) => r,
        None => {
            return None;
        },
    };
    let number = key / 8;
    let kind = key % 8;
    let at = pos + n;
    let left = total - at;
    assert(suffix.skip(n as int) =~= bytes@.skip(at as int));
    if number == 0 {
        return None;
    }
    if kind == 0 {
        match get_varint(bytes, at) {
            Some((v, m)) => Some((WireField { number, value: WireValue::Varint(v) }, n + m)),
            None => None,
        }
    } else if kind == 1 {
        if left >= 8 {
            let value = copy_range(bytes, at, at + 8);
            assert(value@ =~= bytes@.skip(at as int).subrange(0, 8));
            Some((WireField { number, value: WireValue::Fixed64(value) }, n + 8))
        } else {
            None
        }
    } else if kind == 2 {
        match get_varint(bytes, at) {
            Some((len, m)) => {
                if len <= (left - m) as u64 {
                    let start = at + m;
                    let value = copy_range(bytes, start, start + len as usize);
                    assert(value@ =~= bytes@.skip(at as int).subrange(m as int, m + len));
                    Some((WireField { number, value: WireValue::Bytes(value) }, n + m + len as usize))
                } else {
                    None
                }
            },
            None => None,
        }
    } else if kind == 5 {
        if left >= 4 {
            let value = copy_range(bytes, at, at + 4);
            assert(value@ =~= bytes@.skip(at as int).subrange(0, 4));
            Some((WireField { number, value: WireValue::Fixed32(value) }, n + 4))
        } else {
            None
        }
    } else {
        None
    }
}

/// The fields that the bytes hold, if the bytes are fields from end to
/// end.
pub fn read_fields(bytes: &[u8]) -> (r: Option<Vec<WireField>>)
    ensures
        match r {
            Some(fields) => parse_fields(bytes@) == Some(field_views(fields@)),
            None => parse_fields(bytes@) is None,
        },
{
    let mut out: Vec<WireField> = Vec::new();
    let mut pos: usize = 0;
    proof {
        assert(bytes@.skip(0) =~= bytes@);
        assert(field_views(out@) =~= Seq::<WireFieldView>::empty());
        match parse_fields(bytes@) {
            Some(rest) => {
                assert(field_views(out@) + rest =~= rest);
            },
            None => {},
        }
    }
    while pos < bytes.len()
        invariant
            pos <= bytes@.len(),
            parse_fields(bytes@) == match parse_fields(bytes@.skip(pos as int)) {
                Some(rest) => Some(field_views(out@) + rest),
                None => None,
            },
        decreases bytes@.len() - pos,
    {
        let ghost suffix = bytes@.skip(pos as int);
        let ghost before = field_views(out@);
        match read_field(bytes, pos) {
            None => {
                return None;
            },
            Some((f, n)) => {
                proof {
                    assert(suffix.skip(n as int) =~= bytes@.skip(pos + n));
                    match parse_fields(suffix.skip(n as int)) {
                        Some(rest) => {
                            assert(field_views(out@.push(f)) + rest =~= before + (seq![f@] + rest));
                        },
                        None => {},
                    }
                }
                out.push(f);
                pos += n;
            },
        }
    }
    proof {
        assert(field_views(out@) + Seq::<WireFieldView>::empty() =~= field_views(out@));
    }
    Some(out)
}

} // verus!
