//! The messages on the wire. A message travels as one field whose number
//! says what kind of message it is and whose value holds the fields of the
//! message. A field that holds what a missing field stands for, an empty
//! text or the number 0, is left out.

use vstd::prelude::*;
use vstd::string::*;
use vstd::utf8::{decode_utf8, encode_utf8, valid_utf8};
use crate::boundary::string_from_utf8;
use crate::peer::{AddressView, SocketAddress};
use crate::rendezvous_proto::{
    ConfigUpdate, ConfigUpdateView, MessageView, PunchHoleFailure, PunchHoleRequest,
    PunchHoleResponse, PunchHoleResponseView, RegisterPeer, RegisterPk, RegisterPkResponse,
    RegisterPkResult, RendezvousMessage,
};
use crate::text::{view_opt, views_of};
use crate::wire::{
    copy_range, field_bytes, field_ok, field_views, fields_bytes, lemma_parse_fields,
    parse_fields, put_bytes, put_bytes_field, put_varint_field, read_fields, WireField,
    WireFieldView, WireValue, WireValueView,
};

verus! {

/// The number of the field that holds a `RegisterPeer`.
pub const REGISTER_PEER: u64 = 6;

/// The number of the field that holds a `PunchHoleRequest`.
pub const PUNCH_HOLE_REQUEST: u64 = 8;

/// The number of the field that holds a `PunchHoleResponse`.
pub const PUNCH_HOLE_RESPONSE: u64 = 11;

/// The number of the field that holds a `ConfigUpdate`.
pub const CONFIGURE_UPDATE: u64 = 14;

/// The number of the field that holds a `RegisterPk`.
pub const REGISTER_PK: u64 = 15;

/// The number of the field that holds a `RegisterPkResponse`.
pub const REGISTER_PK_RESPONSE: u64 = 16;

/// Whether a field number names a kind of message.
pub open spec fn is_kind(number: u64) -> bool {
    number == REGISTER_PEER || number == PUNCH_HOLE_REQUEST || number == PUNCH_HOLE_RESPONSE
        || number == CONFIGURE_UPDATE || number == REGISTER_PK || number == REGISTER_PK_RESPONSE
}

/// The value of the last field of the given number that holds a number.
pub open spec fn last_varint(fields: Seq<WireFieldView>, number: u64) -> Option<u64>
    decreases fields.len(),
{
    if fields.len() == 0 {
        None
    } else {
        match fields.last().value {
            WireValueView::Varint(v) => if fields.last().number == number {
                Some(v)
            } else {
                last_varint(fields.drop_last(), number)
            },
            _ => last_varint(fields.drop_last(), number),
        }
    }
}

/// The value of the last field of the given number that holds bytes.
pub open spec fn last_bytes(fields: Seq<WireFieldView>, number: u64) -> Option<Seq<u8>>
    decreases fields.len(),
{
    if fields.len() == 0 {
        None
    } else {
        match fields.last().value {
            WireValueView::Bytes(b) => if fields.last().number == number {
                Some(b)
            } else {
                last_bytes(fields.drop_last(), number)
            },
            _ => last_bytes(fields.drop_last(), number),
        }
    }
}

/// The values of all the fields of the given number that hold bytes, in
/// order.
pub open spec fn all_bytes(fields: Seq<WireFieldView>, number: u64) -> Seq<Seq<u8>>
    decreases fields.len(),
{
    if fields.len() == 0 {
        Seq::empty()
    } else {
        match fields.last().value {
            WireValueView::Bytes(b) => if fields.last().number == number {
                all_bytes(fields.drop_last(), number).push(b)
            } else {
                all_bytes(fields.drop_last(), number)
            },
            _ => all_bytes(fields.drop_last(), number),
        }
    }
}

/// The last field that names a kind of message and holds bytes: the kind,
/// and the bytes.
pub open spec fn last_kind(fields: Seq<WireFieldView>) -> Option<(u64, Seq<u8>)>
    decreases fields.len(),
{
    if fields.len() == 0 {
        None
    } else {
        match fields.last().value {
            WireValueView::Bytes(b) => if is_kind(fields.last().number) {
                Some((fields.last().number, b))
            } else {
                last_kind(fields.drop_last())
            },
            _ => last_kind(fields.drop_last()),
        }
    }
}

/// The bytes of a field that may be missing.
pub open spec fn or_empty(bytes: Option<Seq<u8>>) -> Seq<u8> {
    match bytes {
        Some(b) => b,
        None => Seq::empty(),
    }
}

/// The number of a field that may be missing.
pub open spec fn or_zero(v: Option<u64>) -> u64 {
    match v {
        Some(v) => v,
        None => 0,
    }
}

/// The text that bytes encode, if they are UTF-8.
pub open spec fn text_of(bytes: Seq<u8>) -> Option<Seq<char>> {
    if valid_utf8(bytes) {
        Some(decode_utf8(bytes))
    } else {
        None
    }
}

/// The texts that runs of bytes encode, if all of them are UTF-8.
pub open spec fn texts_of(list: Seq<Seq<u8>>) -> Option<Seq<Seq<char>>>
    decreases list.len(),
{
    if list.len() == 0 {
        Some(Seq::empty())
    } else {
        match (texts_of(list.drop_last()), text_of(list.last())) {
            (Some(head), Some(t)) => Some(head.push(t)),
            _ => None,
        }
    }
}

/// The 32-bit number that a number on the wire stands for: its lowest 32
/// bits, read as a signed number.
pub open spec fn int32_of(v: u64) -> i32 {
    let low = v % 0x1_0000_0000;
    if low < 0x8000_0000 {
        low as i32
    } else {
        (low - 0x1_0000_0000) as i32
    }
}

/// The number on the wire that stands for a 32-bit number: a negative one
/// is counted down from two to the power of 64.
pub open spec fn int32_wire(v: i32) -> u64 {
    if v >= 0 {
        v as u64
    } else {
        (0x1_0000_0000_0000_0000 + v) as u64
    }
}

/// An address on the wire: the port in two bytes, the high one first, and
/// then the text of the IP address.
pub open spec fn address_bytes(a: AddressView) -> Seq<u8> {
    seq![(a.port / 256) as u8, (a.port % 256) as u8] + encode_utf8(a.ip)
}

/// The address that bytes hold.
pub open spec fn address_of(bytes: Seq<u8>) -> Option<AddressView> {
    if bytes.len() < 2 {
        None
    } else {
        match text_of(bytes.skip(2)) {
            Some(ip) => Some(AddressView { ip, port: (bytes[0] * 256 + bytes[1]) as u16 }),
            None => None,
        }
    }
}

/// The message of the given kind that the fields hold.
pub open spec fn message_of_fields(kind: u64, fields: Seq<WireFieldView>) -> Option<MessageView> {
    if kind == REGISTER_PEER {
        match text_of(or_empty(last_bytes(fields, 1))) {
            Some(id) => Some(
                MessageView::RegisterPeer { id, serial: int32_of(or_zero(last_varint(fields, 2))) },
            ),
            None => None,
        }
    } else if kind == CONFIGURE_UPDATE {
        match texts_of(all_bytes(fields, 2)) {
            Some(rendezvous_servers) => Some(
                MessageView::ConfigUpdate(
                    ConfigUpdateView {
                        serial: int32_of(or_zero(last_varint(fields, 1))),
                        rendezvous_servers,
                    },
                ),
            ),
            None => None,
        }
    } else if kind == REGISTER_PK {
        match text_of(or_empty(last_bytes(fields, 1))) {
            Some(id) => Some(
                MessageView::RegisterPk {
                    id,
                    uuid: or_empty(last_bytes(fields, 2)),
                    public_key: or_empty(last_bytes(fields, 3)),
                },
            ),
            None => None,
        }
    } else if kind == REGISTER_PK_RESPONSE {
        let result = or_zero(last_varint(fields, 1));
        if result == 0 {
            Some(MessageView::RegisterPkResponse(RegisterPkResult::Okay))
        } else if result == 2 {
            Some(MessageView::RegisterPkResponse(RegisterPkResult::UuidMismatch))
        } else if result == 4 {
            Some(MessageView::RegisterPkResponse(RegisterPkResult::TooFrequent))
        } else {
            None
        }
    } else if kind == PUNCH_HOLE_REQUEST {
        match (text_of(or_empty(last_bytes(fields, 1))), text_of(or_empty(last_bytes(fields, 3)))) {
            (Some(target_id), Some(license_key)) => Some(
                MessageView::PunchHoleRequest { target_id, license_key },
            ),
            _ => None,
        }
    } else if kind == PUNCH_HOLE_RESPONSE {
        let address = or_empty(last_bytes(fields, 1));
        let relay = or_empty(last_bytes(fields, 4));
        let failure = or_zero(last_varint(fields, 3));
        if address.len() > 0 {
            match address_of(address) {
                Some(a) => Some(MessageView::PunchHoleResponse(PunchHoleResponseView::Address(a))),
                None => None,
            }
        } else if relay.len() > 0 {
            match text_of(relay) {
                Some(r) => Some(MessageView::PunchHoleResponse(PunchHoleResponseView::Relay(r))),
                None => None,
            }
        } else if failure == 0 {
            Some(
                MessageView::PunchHoleResponse(
                    PunchHoleResponseView::Failure(PunchHoleFailure::IdNotExist),
                ),
            )
        } else if failure == 2 {
            Some(
                MessageView::PunchHoleResponse(
                    PunchHoleResponseView::Failure(PunchHoleFailure::Offline),
                ),
            )
        } else if failure == 3 {
            Some(
                MessageView::PunchHoleResponse(
                    PunchHoleResponseView::Failure(PunchHoleFailure::LicenseMismatch),
                ),
            )
        } else {
            None
        }
    } else {
        None
    }
}

/// The message that bytes hold. Fields that are not known are passed
/// over; of fields that come more than once the last counts.
pub open spec fn message_of(bytes: Seq<u8>) -> Option<MessageView> {
    match parse_fields(bytes) {
        None => None,
        Some(outer) => match last_kind(outer) {
            None => None,
            Some((kind, body)) => match parse_fields(body) {
                None => None,
                Some(fields) => message_of_fields(kind, fields),
            },
        },
    }
}

/// A field that holds bytes, or no field for no bytes.
pub open spec fn bytes_if_any(number: u64, bytes: Seq<u8>) -> Seq<WireFieldView> {
    if bytes.len() == 0 {
        Seq::empty()
    } else {
        seq![WireFieldView { number, value: WireValueView::Bytes(bytes) }]
    }
}

/// A field that holds a number, or no field for 0.
pub open spec fn varint_if_any(number: u64, v: u64) -> Seq<WireFieldView> {
    if v == 0 {
        Seq::empty()
    } else {
        seq![WireFieldView { number, value: WireValueView::Varint(v) }]
    }
}

/// One field of the given number for each text, in order.
pub open spec fn text_fields(number: u64, texts: Seq<Seq<char>>) -> Seq<WireFieldView> {
    Seq::new(
        texts.len(),
        |i: int| WireFieldView { number, value: WireValueView::Bytes(encode_utf8(texts[i])) },
    )
}

/// The kind of a message.
pub open spec fn kind_of_message(m: MessageView) -> u64 {
    match m {
        MessageView::RegisterPeer { .. } => REGISTER_PEER,
        MessageView::ConfigUpdate(_) => CONFIGURE_UPDATE,
        MessageView::RegisterPk { .. } => REGISTER_PK,
        MessageView::RegisterPkResponse(_) => REGISTER_PK_RESPONSE,
        MessageView::PunchHoleRequest { .. } => PUNCH_HOLE_REQUEST,
        MessageView::PunchHoleResponse(_) => PUNCH_HOLE_RESPONSE,
    }
}

/// The number that stands for a result on the wire.
pub open spec fn result_wire(r: RegisterPkResult) -> u64 {
    match r {
        RegisterPkResult::Okay => 0,
        RegisterPkResult::UuidMismatch => 2,
        RegisterPkResult::TooFrequent => 4,
    }
}

/// The number that stands for a failure on the wire.
pub open spec fn failure_wire(f: PunchHoleFailure) -> u64 {
    match f {
        PunchHoleFailure::IdNotExist => 0,
        PunchHoleFailure::Offline => 2,
        PunchHoleFailure::LicenseMismatch => 3,
    }
}

/// The fields of a message.
pub open spec fn fields_of(m: MessageView) -> Seq<WireFieldView> {
    match m {
        MessageView::RegisterPeer { id, serial } => bytes_if_any(1, encode_utf8(id))
            + varint_if_any(2, int32_wire(serial)),
        MessageView::ConfigUpdate(c) => varint_if_any(1, int32_wire(c.serial)) + text_fields(
            2,
            c.rendezvous_servers,
        ),
        MessageView::RegisterPk { id, uuid, public_key } => bytes_if_any(1, encode_utf8(id))
            + bytes_if_any(2, uuid) + bytes_if_any(3, public_key),
        MessageView::RegisterPkResponse(r) => varint_if_any(1, result_wire(r)),
        MessageView::PunchHoleRequest { target_id, license_key } => bytes_if_any(
            1,
            encode_utf8(target_id),
        ) + bytes_if_any(3, encode_utf8(license_key)),
        MessageView::PunchHoleResponse(r) => match r {
            PunchHoleResponseView::Address(a) => bytes_if_any(1, address_bytes(a)),
            PunchHoleResponseView::Relay(relay) => bytes_if_any(4, encode_utf8(relay)),
            PunchHoleResponseView::Failure(f) => varint_if_any(3, failure_wire(f)),
        },
    }
}

/// A message on the wire.
pub open spec fn wire_of(m: MessageView) -> Seq<u8> {
    field_bytes(
        WireFieldView {
            number: kind_of_message(m),
            value: WireValueView::Bytes(fields_bytes(fields_of(m))),
        },
    )
}

/// Fields written one list behind the other are the two lists written.
pub proof fn lemma_fields_bytes_append(a: Seq<WireFieldView>, b: Seq<WireFieldView>)
    ensures
        fields_bytes(a + b) == fields_bytes(a) + fields_bytes(b),
    decreases a.len(),
{
    if a.len() == 0 {
        assert(a + b =~= b);
        assert(fields_bytes(a) + fields_bytes(b) =~= fields_bytes(b));
    } else {
        assert((a + b).skip(1) =~= a.skip(1) + b);
        lemma_fields_bytes_append(a.skip(1), b);
        assert(fields_bytes(a + b) =~= fields_bytes(a) + fields_bytes(b));
    }
}

/// One field written is the field's bytes.
pub proof fn lemma_fields_bytes_one(f: WireFieldView)
    ensures
        fields_bytes(seq![f]) == field_bytes(f),
{
    let one = seq![f];
    assert(one.skip(1) =~= Seq::<WireFieldView>::empty());
    assert(fields_bytes(one.skip(1)) =~= Seq::<u8>::empty());
    assert(one[0] == f);
    assert(fields_bytes(one) =~= field_bytes(f));
}

proof fn lemma_lookup_bytes(a: Seq<WireFieldView>, n: u64, b: Seq<u8>, k: u64)
    ensures
        last_bytes(a + bytes_if_any(n, b), k) == if k == n && b.len() > 0 {
            Some(b)
        } else {
            last_bytes(a, k)
        },
        last_varint(a + bytes_if_any(n, b), k) == last_varint(a, k),
        all_bytes(a + bytes_if_any(n, b), k) == if k == n && b.len() > 0 {
            all_bytes(a, k).push(b)
        } else {
            all_bytes(a, k)
        },
{
    let t = a + bytes_if_any(n, b);
    if b.len() == 0 {
        assert(t =~= a);
    } else {
        assert(t.drop_last() =~= a);
    }
}

proof fn lemma_lookup_varint(a: Seq<WireFieldView>, n: u64, v: u64, k: u64)
    ensures
        last_varint(a + varint_if_any(n, v), k) == if k == n && v != 0 {
            Some(v)
        } else {
            last_varint(a, k)
        },
        last_bytes(a + varint_if_any(n, v), k) == last_bytes(a, k),
        all_bytes(a + varint_if_any(n, v), k) == all_bytes(a, k),
{
    let t = a + varint_if_any(n, v);
    if v == 0 {
        assert(t =~= a);
    } else {
        assert(t.drop_last() =~= a);
    }
}

proof fn lemma_lookup_texts(a: Seq<WireFieldView>, n: u64, texts: Seq<Seq<char>>, k: u64)
    ensures
        last_varint(a + text_fields(n, texts), k) == last_varint(a, k),
        all_bytes(a + text_fields(n, texts), n) == all_bytes(a, n) + Seq::new(
            texts.len(),
            |i: int| encode_utf8(texts[i]),
        ),
    decreases texts.len(),
{
    let t = a + text_fields(n, texts);
    let encoded = Seq::new(texts.len(), |i: int| encode_utf8(texts[i]));
    if texts.len() == 0 {
        assert(t =~= a);
        assert(all_bytes(a, n) + encoded =~= all_bytes(a, n));
    } else {
        let head = texts.drop_last();
        lemma_lookup_texts(a, n, head, k);
        assert(t.drop_last() =~= a + text_fields(n, head));
        assert(t.last() == WireFieldView {
            number: n,
            value: WireValueView::Bytes(encode_utf8(texts.last())),
        });
        let head_encoded = Seq::new(head.len(), |i: int| encode_utf8(head[i]));
        assert((all_bytes(a, n) + head_encoded).push(encode_utf8(texts.last())) =~= all_bytes(
            a,
            n,
        ) + encoded);
    }
}

proof fn lemma_texts_round_trip(texts: Seq<Seq<char>>)
    ensures
        texts_of(Seq::new(texts.len(), |i: int| encode_utf8(texts[i]))) == Some(texts),
    decreases texts.len(),
{
    let encoded = Seq::new(texts.len(), |i: int| encode_utf8(texts[i]));
    if texts.len() == 0 {
        assert(texts =~= Seq::<Seq<char>>::empty());
    } else {
        let head = texts.drop_last();
        lemma_texts_round_trip(head);
        assert(encoded.drop_last() =~= Seq::new(head.len(), |i: int| encode_utf8(head[i])));
        lemma_text_round_trip(texts.last());
        assert(head.push(texts.last()) =~= texts);
    }
}

/// A text that was written as bytes is read back.
pub proof fn lemma_text_round_trip(text: Seq<char>)
    ensures
        text_of(encode_utf8(text)) == Some(text),
{
    vstd::utf8::encode_utf8_valid_utf8(text);
    vstd::utf8::encode_utf8_decode_utf8(text);
}

/// A 32-bit number that was put on the wire is read back.
pub proof fn lemma_int32_round_trip(v: i32)
    ensures
        int32_of(int32_wire(v)) == v,
{
    if v < 0 {
        let w = 0x1_0000_0000_0000_0000 + v;
        assert(w % 0x1_0000_0000 == 0x1_0000_0000 + v) by {
            vstd::arithmetic::div_mod::lemma_fundamental_div_mod_converse(
                w,
                0x1_0000_0000,
                0xffff_ffff,
                0x1_0000_0000 + v,
            );
        }
    }
}

/// An address that was written as bytes is read back.
pub proof fn lemma_address_round_trip(a: AddressView)
    ensures
        address_of(address_bytes(a)) == Some(a),
        address_bytes(a).len() >= 2,
{
    let bytes = address_bytes(a);
    assert(bytes.skip(2) =~= encode_utf8(a.ip));
    lemma_text_round_trip(a.ip);
    assert(bytes[0] == (a.port / 256) as u8);
    assert(bytes[1] == (a.port % 256) as u8);
}

/// Whether every field of a list can be written.
pub open spec fn all_ok(fields: Seq<WireFieldView>) -> bool {
    forall|i: int| 0 <= i < fields.len() ==> field_ok(#[trigger] fields[i])
}

/// Two lists of fields that can be written can be written one behind the
/// other.
pub proof fn lemma_all_ok_append(a: Seq<WireFieldView>, b: Seq<WireFieldView>)
    requires
        all_ok(a),
        all_ok(b),
    ensures
        all_ok(a + b),
{
    assert forall|i: int| 0 <= i < (a + b).len() implies field_ok(#[trigger] (a + b)[i]) by {
        if i < a.len() {
            assert((a + b)[i] == a[i]);
        } else {
            assert((a + b)[i] == b[i - a.len()]);
        }
    }
}

/// Whether a message can go on the wire and come back: its texts and
/// byte strings and its fields taken together have lengths that fit 64
/// bits, and it is no relay answer without a relay, which the wire cannot
/// tell from a failure.
pub open spec fn fits_wire(m: MessageView) -> bool {
    &&& all_ok(fields_of(m))
    &&& fields_bytes(fields_of(m)).len() <= u64::MAX
    &&& m != MessageView::PunchHoleResponse(PunchHoleResponseView::Relay(Seq::empty()))
}

/// The fields of a message hold the message.
pub proof fn lemma_fields_round_trip(m: MessageView)
    requires
        m != MessageView::PunchHoleResponse(PunchHoleResponseView::Relay(Seq::empty())),
    ensures
        message_of_fields(kind_of_message(m), fields_of(m)) == Some(m),
{
    let none = Seq::<WireFieldView>::empty();
    match m {
        MessageView::RegisterPeer { id, serial } => {
            let a = none + bytes_if_any(1, encode_utf8(id));
            assert(a =~= bytes_if_any(1, encode_utf8(id)));
            lemma_lookup_bytes(none, 1, encode_utf8(id), 1);
            lemma_lookup_bytes(none, 1, encode_utf8(id), 2);
            lemma_lookup_varint(a, 2, int32_wire(serial), 1);
            lemma_lookup_varint(a, 2, int32_wire(serial), 2);
            lemma_text_round_trip(id);
            lemma_int32_round_trip(serial);
            assert(or_empty(last_bytes(fields_of(m), 1)) =~= encode_utf8(id));
        },
        MessageView::ConfigUpdate(c) => {
            let a = none + varint_if_any(1, int32_wire(c.serial));
            assert(a =~= varint_if_any(1, int32_wire(c.serial)));
            lemma_lookup_varint(none, 1, int32_wire(c.serial), 1);
            lemma_lookup_varint(none, 1, int32_wire(c.serial), 2);
            lemma_lookup_texts(a, 2, c.rendezvous_servers, 1);
            lemma_texts_round_trip(c.rendezvous_servers);
            lemma_int32_round_trip(c.serial);
            let encoded = Seq::new(
                c.rendezvous_servers.len(),
                |i: int| encode_utf8(c.rendezvous_servers[i]),
            );
            assert(all_bytes(a, 2) + encoded =~= encoded);
        },
        MessageView::RegisterPk { id, uuid, public_key } => {
            let a = none + bytes_if_any(1, encode_utf8(id));
            assert(a =~= bytes_if_any(1, encode_utf8(id)));
            let b = a + bytes_if_any(2, uuid);
            lemma_lookup_bytes(none, 1, encode_utf8(id), 1);
            lemma_lookup_bytes(none, 1, encode_utf8(id), 2);
            lemma_lookup_bytes(none, 1, encode_utf8(id), 3);
            lemma_lookup_bytes(a, 2, uuid, 1);
            lemma_lookup_bytes(a, 2, uuid, 2);
            lemma_lookup_bytes(a, 2, uuid, 3);
            lemma_lookup_bytes(b, 3, public_key, 1);
            lemma_lookup_bytes(b, 3, public_key, 2);
            lemma_lookup_bytes(b, 3, public_key, 3);
            lemma_text_round_trip(id);
            assert(or_empty(last_bytes(fields_of(m), 1)) =~= encode_utf8(id));
            assert(or_empty(last_bytes(fields_of(m), 2)) =~= uuid);
            assert(or_empty(last_bytes(fields_of(m), 3)) =~= public_key);
        },
        MessageView::RegisterPkResponse(r) => {
            assert(none + varint_if_any(1, result_wire(r)) =~= fields_of(m));
            lemma_lookup_varint(none, 1, result_wire(r), 1);
        },
        MessageView::PunchHoleRequest { target_id, license_key } => {
            let a = none + bytes_if_any(1, encode_utf8(target_id));
            assert(a =~= bytes_if_any(1, encode_utf8(target_id)));
            lemma_lookup_bytes(none, 1, encode_utf8(target_id), 1);
            lemma_lookup_bytes(none, 1, encode_utf8(target_id), 3);
            lemma_lookup_bytes(a, 3, encode_utf8(license_key), 1);
            lemma_lookup_bytes(a, 3, encode_utf8(license_key), 3);
            lemma_text_round_trip(target_id);
            lemma_text_round_trip(license_key);
            assert(or_empty(last_bytes(fields_of(m), 1)) =~= encode_utf8(target_id));
            assert(or_empty(last_bytes(fields_of(m), 3)) =~= encode_utf8(license_key));
        },
        MessageView::PunchHoleResponse(r) => {
            match r {
                PunchHoleResponseView::Address(a) => {
                    assert(none + bytes_if_any(1, address_bytes(a)) =~= fields_of(m));
                    lemma_lookup_bytes(none, 1, address_bytes(a), 1);
                    lemma_lookup_bytes(none, 1, address_bytes(a), 4);
                    lemma_address_round_trip(a);
                },
                PunchHoleResponseView::Relay(relay) => {
                    assert(none + bytes_if_any(4, encode_utf8(relay)) =~= fields_of(m));
                    lemma_lookup_bytes(none, 4, encode_utf8(relay), 1);
                    lemma_lookup_bytes(none, 4, encode_utf8(relay), 4);
                    lemma_text_round_trip(relay);
                    if encode_utf8(relay).len() == 0 {
                        assert(relay =~= Seq::<char>::empty());
                    }
                },
                PunchHoleResponseView::Failure(f) => {
                    assert(none + varint_if_any(3, failure_wire(f)) =~= fields_of(m));
                    lemma_lookup_varint(none, 3, failure_wire(f), 1);
                    lemma_lookup_varint(none, 3, failure_wire(f), 3);
                    lemma_lookup_varint(none, 3, failure_wire(f), 4);
                },
            }
        },
    }
}

/// A message that was put on the wire is read back from it.
pub proof fn lemma_wire_round_trip(m: MessageView)
    requires
        fits_wire(m),
    ensures
        message_of(wire_of(m)) == Some(m),
{
    let body = fields_bytes(fields_of(m));
    let f = WireFieldView { number: kind_of_message(m), value: WireValueView::Bytes(body) };
    lemma_fields_bytes_one(f);
    assert(field_ok(f));
    assert forall|i: int| 0 <= i < seq![f].len() implies field_ok(#[trigger] seq![f][i]) by {}
    lemma_parse_fields(seq![f]);
    assert(seq![f].drop_last() =~= Seq::<WireFieldView>::empty());
    assert(last_kind(seq![f]) == Some((kind_of_message(m), body)));
    lemma_parse_fields(fields_of(m));
    lemma_fields_round_trip(m);
}

/// The number on the wire that stands for a 32-bit number.
pub fn int32_to_wire(v: i32) -> (w: u64)
    ensures
        w == int32_wire(v),
{
    if v >= 0 {
        v as u64
    } else {
        u64::MAX - ((-(v as i64) - 1) as u64)
    }
}

/// The 32-bit number that a number on the wire stands for.
pub fn int32_from_wire(w: u64) -> (v: i32)
    ensures
        v == int32_of(w),
{
    let low = w % 0x1_0000_0000;
    if low < 0x8000_0000 {
        low as i32
    } else {
        (low as i64 - 0x1_0000_0000) as i32
    }
}

/// An address as it goes on the wire.
pub fn address_to_bytes(a: &SocketAddress) -> (out: Vec<u8>)
    ensures
        out@ == address_bytes(a@),
{
    let mut out: Vec<u8> = Vec::new();
    out.push((a.port / 256) as u8);
    out.push((a.port % 256) as u8);
    put_bytes(&mut out, a.ip.as_str().as_bytes());
    assert(out@ =~= address_bytes(a@));
    out
}

/// The address that bytes hold.
pub fn address_from_bytes(bytes: &[u8]) -> (r: Option<SocketAddress>)
    ensures
        view_opt(r) == address_of(bytes@),
{
    if bytes.len() < 2 {
        return None;
    }
    let port = bytes[0] as u16 * 256 + bytes[1] as u16;
    let text = copy_range(bytes, 2, bytes.len());
    assert(text@ =~= bytes@.skip(2));
    match string_from_utf8(text) {
        Some(ip) => Some(SocketAddress { ip, port }),
        None => None,
    }
}

fn put_bytes_if_any(out: &mut Vec<u8>, number: u64, bytes: &[u8])
    requires
        1 <= number <= crate::wire::MAX_FIELD_NUMBER,
    ensures
        final(out)@ == old(out)@ + fields_bytes(bytes_if_any(number, bytes@)),
        all_ok(bytes_if_any(number, bytes@)),
{
    if bytes.len() > 0 {
        put_bytes_field(out, number, bytes);
        proof {
            lemma_fields_bytes_one(
                WireFieldView { number, value: WireValueView::Bytes(bytes@) },
            );
        }
    } else {
        assert(out@ =~= old(out)@ + fields_bytes(bytes_if_any(number, bytes@)));
    }
}

fn put_varint_if_any(out: &mut Vec<u8>, number: u64, v: u64)
    requires
        1 <= number <= crate::wire::MAX_FIELD_NUMBER,
    ensures
        final(out)@ == old(out)@ + fields_bytes(varint_if_any(number, v)),
        all_ok(varint_if_any(number, v)),
{
    if v != 0 {
        put_varint_field(out, number, v);
        proof {
            lemma_fields_bytes_one(WireFieldView { number, value: WireValueView::Varint(v) });
        }
    } else {
        assert(out@ =~= old(out)@ + fields_bytes(varint_if_any(number, v)));
    }
}

fn put_texts(out: &mut Vec<u8>, number: u64, texts: &Vec<String>)
    requires
        1 <= number <= crate::wire::MAX_FIELD_NUMBER,
    ensures
        final(out)@ == old(out)@ + fields_bytes(text_fields(number, views_of(texts@))),
        all_ok(text_fields(number, views_of(texts@))),
{
    let ghost all = views_of(texts@);
    let mut i: usize = 0;
    proof {
        assert(text_fields(number, all.subrange(0, 0)) =~= Seq::<WireFieldView>::empty());
        assert(out@ =~= old(out)@ + fields_bytes(text_fields(number, all.subrange(0, 0))));
    }
    while i < texts.len()
        invariant
            1 <= number <= crate::wire::MAX_FIELD_NUMBER,
            i <= texts@.len(),
            all == views_of(texts@),
            out@ == old(out)@ + fields_bytes(text_fields(number, all.subrange(0, i as int))),
            all_ok(text_fields(number, all.subrange(0, i as int))),
        decreases texts@.len() - i,
    {
        let ghost before = text_fields(number, all.subrange(0, i as int));
        let ghost f = WireFieldView {
            number,
            value: WireValueView::Bytes(encode_utf8(texts@[i as int]@)),
        };
        let piece = texts[i].as_str().as_bytes();
        put_bytes_field(out, number, piece);
        proof {
            assert(text_fields(number, all.subrange(0, i as int + 1)) =~= before + seq![f]);
            assert(piece@.len() == piece.len());
            assert(field_ok(f));
            lemma_all_ok_append(before, seq![f]);
            lemma_fields_bytes_append(before, seq![f]);
            lemma_fields_bytes_one(f);
            assert(out@ =~= old(out)@ + fields_bytes(
                text_fields(number, all.subrange(0, i as int + 1)),
            ));
        }
        i += 1;
    }
    assert(all.subrange(0, texts@.len() as int) =~= all);
}

/// A message as it goes on the wire.
pub fn encode_message(msg: &RendezvousMessage) -> (out: Vec<u8>)
    ensures
        out@ == wire_of(msg@),
        msg@ != MessageView::PunchHoleResponse(PunchHoleResponseView::Relay(Seq::empty()))
            ==> message_of(out@) == Some(msg@),
{
    let mut body: Vec<u8> = Vec::new();
    let ghost none = Seq::<WireFieldView>::empty();
    let kind = match msg {
        RendezvousMessage::RegisterPeer(m) => {
            let ghost a = bytes_if_any(1, encode_utf8(m.id@));
            let ghost b = varint_if_any(2, int32_wire(m.serial));
            put_bytes_if_any(&mut body, 1, m.id.as_str().as_bytes());
            put_varint_if_any(&mut body, 2, int32_to_wire(m.serial));
            proof {
                lemma_fields_bytes_append(a, b);
                lemma_all_ok_append(a, b);
                assert(body@ =~= fields_bytes(a + b));
            }
            REGISTER_PEER
        },
        RendezvousMessage::ConfigUpdate(m) => {
            let ghost a = varint_if_any(1, int32_wire(m.serial));
            let ghost b = text_fields(2, views_of(m.rendezvous_servers@));
            put_varint_if_any(&mut body, 1, int32_to_wire(m.serial));
            put_texts(&mut body, 2, &m.rendezvous_servers);
            proof {
                lemma_fields_bytes_append(a, b);
                lemma_all_ok_append(a, b);
                assert(body@ =~= fields_bytes(a + b));
            }
            CONFIGURE_UPDATE
        },
        RendezvousMessage::RegisterPk(m) => {
            let ghost a = bytes_if_any(1, encode_utf8(m.id@));
            let ghost b = bytes_if_any(2, m.uuid@);
            let ghost c = bytes_if_any(3, m.public_key@);
            put_bytes_if_any(&mut body, 1, m.id.as_str().as_bytes());
            put_bytes_if_any(&mut body, 2, m.uuid.as_slice());
            put_bytes_if_any(&mut body, 3, m.public_key.as_slice());
            proof {
                lemma_fields_bytes_append(a, b);
                lemma_fields_bytes_append(a + b, c);
                lemma_all_ok_append(a, b);
                lemma_all_ok_append(a + b, c);
                assert(body@ =~= fields_bytes(a + b + c));
            }
            REGISTER_PK
        },
        RendezvousMessage::RegisterPkResponse(m) => {
            let w = match m.result {
                RegisterPkResult::Okay => 0,
                RegisterPkResult::UuidMismatch => 2,
                RegisterPkResult::TooFrequent => 4,
            };
            put_varint_if_any(&mut body, 1, w);
            assert(body@ =~= fields_bytes(varint_if_any(1, result_wire(m.result))));
            REGISTER_PK_RESPONSE
        },
        RendezvousMessage::PunchHoleRequest(m) => {
            let ghost a = bytes_if_any(1, encode_utf8(m.target_id@));
            let ghost b = bytes_if_any(3, encode_utf8(m.license_key@));
            put_bytes_if_any(&mut body, 1, m.target_id.as_str().as_bytes());
            put_bytes_if_any(&mut body, 3, m.license_key.as_str().as_bytes());
            proof {
                lemma_fields_bytes_append(a, b);
                lemma_all_ok_append(a, b);
                assert(body@ =~= fields_bytes(a + b));
            }
            PUNCH_HOLE_REQUEST
        },
        RendezvousMessage::PunchHoleResponse(m) => {
            match m {
                PunchHoleResponse::Address(a) => {
                    let bytes = address_to_bytes(a);
                    put_bytes_if_any(&mut body, 1, bytes.as_slice());
                    assert(body@ =~= fields_bytes(bytes_if_any(1, address_bytes(a@))));
                },
                PunchHoleResponse::Relay(r) => {
                    put_bytes_if_any(&mut body, 4, r.as_str().as_bytes());
                    assert(body@ =~= fields_bytes(bytes_if_any(4, encode_utf8(r@))));
                },
                PunchHoleResponse::Failure(f) => {
                    let w = match f {
                        PunchHoleFailure::IdNotExist => 0,
                        PunchHoleFailure::Offline => 2,
                        PunchHoleFailure::LicenseMismatch => 3,
                    };
                    put_varint_if_any(&mut body, 3, w);
                    assert(body@ =~= fields_bytes(varint_if_any(3, failure_wire(*f))));
                },
            }
            PUNCH_HOLE_RESPONSE
        },
    };
    assert(body@ == fields_bytes(fields_of(msg@)));
    assert(all_ok(fields_of(msg@)));
    assert(kind == kind_of_message(msg@));
    assert(body@.len() == body.len());
    let mut out: Vec<u8> = Vec::new();
    put_bytes_field(&mut out, kind, body.as_slice());
    proof {
        assert(out@ =~= wire_of(msg@));
        if msg@ != MessageView::PunchHoleResponse(PunchHoleResponseView::Relay(Seq::empty())) {
            lemma_wire_round_trip(msg@);
        }
    }
    out
}

fn find_last_varint(fields: &Vec<WireField>, number: u64) -> (r: Option<u64>)
    ensures
        r == last_varint(field_views(fields@), number),
{
    let ghost all = field_views(fields@);
    let mut found: Option<u64> = None;
    let mut i: usize = 0;
    assert(all.subrange(0, 0) =~= Seq::<WireFieldView>::empty());
    while i < fields.len()
        invariant
            i <= fields@.len(),
            all == field_views(fields@),
            found == last_varint(all.subrange(0, i as int), number),
        decreases fields@.len() - i,
    {
        proof {
            let next = all.subrange(0, i as int + 1);
            assert(next.drop_last() =~= all.subrange(0, i as int));
            assert(next.last() == fields@[i as int]@);
        }
        if fields[i].number == number {
            match &fields[i].value {
                WireValue::Varint(v) => {
                    found = Some(*v);
                },
                _ => {},
            }
        }
        i += 1;
    }
    assert(all.subrange(0, fields@.len() as int) =~= all);
    found
}

fn find_last_bytes(fields: &Vec<WireField>, number: u64) -> (r: Vec<u8>)
    ensures
        r@ == or_empty(last_bytes(field_views(fields@), number)),
{
    let ghost all = field_views(fields@);
    let mut found: Option<usize> = None;
    let mut i: usize = 0;
    assert(all.subrange(0, 0) =~= Seq::<WireFieldView>::empty());
    while i < fields.len()
        invariant
            i <= fields@.len(),
            all == field_views(fields@),
            match found {
                Some(j) => j < i && last_bytes(all.subrange(0, i as int), number) == Some(
                    fields@[j as int].value@->Bytes_0,
                ) && fields@[j as int].value is Bytes,
                None => last_bytes(all.subrange(0, i as int), number) is None,
            },
        decreases fields@.len() - i,
    {
        proof {
            let next = all.subrange(0, i as int + 1);
            assert(next.drop_last() =~= all.subrange(0, i as int));
            assert(next.last() == fields@[i as int]@);
        }
        if fields[i].number == number {
            match &fields[i].value {
                WireValue::Bytes(_) => {
                    found = Some(i);
                },
                _ => {},
            }
        }
        i += 1;
    }
    assert(all.subrange(0, fields@.len() as int) =~= all);
    match found {
        Some(j) => match &fields[j].value {
            WireValue::Bytes(b) => b.clone(),
            _ => Vec::new(),
        },
        None => Vec::new(),
    }
}

fn find_last_kind(fields: &Vec<WireField>) -> (r: Option<usize>)
    ensures
        match r {
            Some(j) => j < fields@.len() && fields@[j as int].value is Bytes && last_kind(
                field_views(fields@),
            ) == Some((fields@[j as int].number, fields@[j as int].value@->Bytes_0)),
            None => last_kind(field_views(fields@)) is None,
        },
{
    let ghost all = field_views(fields@);
    let mut found: Option<usize> = None;
    let mut i: usize = 0;
    assert(all.subrange(0, 0) =~= Seq::<WireFieldView>::empty());
    while i < fields.len()
        invariant
            i <= fields@.len(),
            all == field_views(fields@),
            match found {
                Some(j) => j < i && fields@[j as int].value is Bytes && last_kind(
                    all.subrange(0, i as int),
                ) == Some((fields@[j as int].number, fields@[j as int].value@->Bytes_0)),
                None => last_kind(all.subrange(0, i as int)) is None,
            },
        decreases fields@.len() - i,
    {
        proof {
            let next = all.subrange(0, i as int + 1);
            assert(next.drop_last() =~= all.subrange(0, i as int));
            assert(next.last() == fields@[i as int]@);
        }
        let n = fields[i].number;
        if n == REGISTER_PEER || n == PUNCH_HOLE_REQUEST || n == PUNCH_HOLE_RESPONSE || n
            == CONFIGURE_UPDATE || n == REGISTER_PK || n == REGISTER_PK_RESPONSE {
            match &fields[i].value {
                WireValue::Bytes(_) => {
                    found = Some(i);
                },
                _ => {},
            }
        }
        i += 1;
    }
    assert(all.subrange(0, fields@.len() as int) =~= all);
    found
}

proof fn lemma_texts_none(list: Seq<Seq<u8>>, i: int)
    requires
        0 <= i < list.len(),
        text_of(list[i]) is None,
    ensures
        texts_of(list) is None,
    decreases list.len(),
{
    if i < list.len() - 1 {
        lemma_texts_none(list.drop_last(), i);
    }
}

fn find_texts(fields: &Vec<WireField>, number: u64) -> (r: Option<Vec<String>>)
    ensures
        match r {
            Some(texts) => texts_of(all_bytes(field_views(fields@), number)) == Some(
                views_of(texts@),
            ),
            None => texts_of(all_bytes(field_views(fields@), number)) is None,
        },
{
    let ghost all = field_views(fields@);
    let mut out: Vec<String> = Vec::new();
    let mut i: usize = 0;
    proof {
        assert(all.subrange(0, 0) =~= Seq::<WireFieldView>::empty());
        assert(views_of(out@) =~= Seq::<Seq<char>>::empty());
    }
    while i < fields.len()
        invariant
            i <= fields@.len(),
            all == field_views(fields@),
            texts_of(all_bytes(all.subrange(0, i as int), number)) == Some(views_of(out@)),
        decreases fields@.len() - i,
    {
        let ghost before = all_bytes(all.subrange(0, i as int), number);
        proof {
            let next = all.subrange(0, i as int + 1);
            assert(next.drop_last() =~= all.subrange(0, i as int));
            assert(next.last() == fields@[i as int]@);
        }
        if fields[i].number == number {
            match &fields[i].value {
                WireValue::Bytes(b) => {
                    let ghost prev = views_of(out@);
                    match string_from_utf8(b.clone()) {
                        Some(t) => {
                            out.push(t);
                            proof {
                                assert(before.push(b@).drop_last() =~= before);
                                assert(views_of(out@) =~= prev.push(t@));
                            }
                        },
                        None => {
                            proof {
                                lemma_texts_cut(all, i as int + 1, number);
                                let list = all_bytes(all, number);
                                let at = before.len() as int;
                                assert(all_bytes(all.subrange(0, i as int + 1), number)[at] == b@);
                                lemma_texts_none(list, at);
                            }
                            return None;
                        },
                    }
                },
                _ => {},
            }
        }
        i += 1;
    }
    assert(all.subrange(0, fields@.len() as int) =~= all);
    Some(out)
}

/// The byte strings of the first fields of a list stand first among the
/// byte strings of the whole list.
proof fn lemma_texts_cut(all: Seq<WireFieldView>, upto: int, number: u64)
    requires
        0 <= upto <= all.len(),
    ensures
        all_bytes(all.subrange(0, upto), number).len() <= all_bytes(all, number).len(),
        forall|k: int|
            0 <= k < all_bytes(all.subrange(0, upto), number).len() ==> all_bytes(
                all,
                number,
            )[k] == #[trigger] all_bytes(all.subrange(0, upto), number)[k],
    decreases all.len() - upto,
{
    if upto == all.len() {
        assert(all.subrange(0, upto) =~= all);
    } else {
        lemma_texts_cut(all, upto + 1, number);
        let next = all.subrange(0, upto + 1);
        let prev = all.subrange(0, upto);
        assert(next.drop_last() =~= prev);
        assert forall|k: int| 0 <= k < all_bytes(prev, number).len() implies all_bytes(
            all,
            number,
        )[k] == #[trigger] all_bytes(prev, number)[k] by {
            assert(all_bytes(next, number)[k] == all_bytes(prev, number)[k]);
        }
    }
}

fn message_from_fields(kind: u64, fields: &Vec<WireField>) -> (r: Option<RendezvousMessage>)
    ensures
        view_opt(r) == message_of_fields(kind, field_views(fields@)),
{
    if kind == REGISTER_PEER {
        match string_from_utf8(find_last_bytes(fields, 1)) {
            Some(id) => {
                let serial = int32_from_wire(
                    match find_last_varint(fields, 2) {
                        Some(v) => v,
                        None => 0,
                    },
                );
                Some(RendezvousMessage::RegisterPeer(RegisterPeer { id, serial }))
            },
            None => None,
        }
    } else if kind == CONFIGURE_UPDATE {
        match find_texts(fields, 2) {
            Some(rendezvous_servers) => {
                let serial = int32_from_wire(
                    match find_last_varint(fields, 1) {
                        Some(v) => v,
                        None => 0,
                    },
                );
                Some(RendezvousMessage::ConfigUpdate(ConfigUpdate { serial, rendezvous_servers }))
            },
            None => None,
        }
    } else if kind == REGISTER_PK {
        match string_from_utf8(find_last_bytes(fields, 1)) {
            Some(id) => Some(
                RendezvousMessage::RegisterPk(
                    RegisterPk {
                        id,
                        uuid: find_last_bytes(fields, 2),
                        public_key: find_last_bytes(fields, 3),
                    },
                ),
            ),
            None => None,
        }
    } else if kind == REGISTER_PK_RESPONSE {
        let result = match find_last_varint(fields, 1) {
            Some(v) => v,
            None => 0,
        };
        if result == 0 {
            Some(RendezvousMessage::RegisterPkResponse(RegisterPkResponse { result: RegisterPkResult::Okay }))
        } else if result == 2 {
            Some(
                RendezvousMessage::RegisterPkResponse(
                    RegisterPkResponse { result: RegisterPkResult::UuidMismatch },
                ),
            )
        } else if result == 4 {
            Some(
                RendezvousMessage::RegisterPkResponse(
                    RegisterPkResponse { result: RegisterPkResult::TooFrequent },
                ),
            )
        } else {
            None
        }
    } else if kind == PUNCH_HOLE_REQUEST {
        let target_id = string_from_utf8(find_last_bytes(fields, 1));
        let license_key = string_from_utf8(find_last_bytes(fields, 3));
        match (target_id, license_key) {
            (Some(target_id), Some(license_key)) => Some(
                RendezvousMessage::PunchHoleRequest(PunchHoleRequest { target_id, license_key }),
            ),
            _ => None,
        }
    } else if kind == PUNCH_HOLE_RESPONSE {
        let address = find_last_bytes(fields, 1);
        let relay = find_last_bytes(fields, 4);
        let failure = match find_last_varint(fields, 3) {
            Some(v) => v,
            None => 0,
        };
        if address.len() > 0 {
            match address_from_bytes(address.as_slice()) {
                Some(a) => Some(RendezvousMessage::PunchHoleResponse(PunchHoleResponse::Address(a))),
                None => None,
            }
        } else if relay.len() > 0 {
            match string_from_utf8(relay) {
                Some(r) => Some(RendezvousMessage::PunchHoleResponse(PunchHoleResponse::Relay(r))),
                None => None,
            }
        } else if failure == 0 {
            Some(
                RendezvousMessage::PunchHoleResponse(
                    PunchHoleResponse::Failure(PunchHoleFailure::IdNotExist),
                ),
            )
        } else if failure == 2 {
            Some(
                RendezvousMessage::PunchHoleResponse(
                    PunchHoleResponse::Failure(PunchHoleFailure::Offline),
                ),
            )
        } else if failure == 3 {
            Some(
                RendezvousMessage::PunchHoleResponse(
                    PunchHoleResponse::Failure(PunchHoleFailure::LicenseMismatch),
                ),
            )
        } else {
            None
        }
    } else {
        None
    }
}

/// The message that bytes hold, if they hold one.
pub fn decode_message(bytes: &[u8]) -> (r: Option<RendezvousMessage>)
    ensures
        view_opt(r) == message_of(bytes@),
{
    let outer = match read_fields(bytes) {
        Some(f) => f,
        None => {
            return None;
        },
    };
    let j = match find_last_kind(&outer) {
        Some(j) => j,
        None => {
            return None;
        },
    };
    let kind = outer[j].number;
    match &outer[j].value {
        WireValue::Bytes(body) => match read_fields(body.as_slice()) {
            Some(fields) => message_from_fields(kind, &fields),
            None => None,
        },
        _ => None,
    }
}

} // verus!
