//! The encoder and the decoder are exact inverses: decoding the encoded
//! transmit line of any valid frame reproduces that frame.

use vstd::prelude::*;

use crate::command::{spec_frame_bytes, spec_frame_tag, spec_hex_bytes, spec_hex_digit,
    spec_hex_field, spec_id_bytes};
use crate::frame::{Can2FrameView, CanFdFrameView, CanFrameView, FdDataLengthCode, IdView,
    can2_view_valid, can_fd_view_valid, can_frame_view_valid, lemma_fd_code_table_bijective,
    lemma_for_length_exact, EXTENDED_ID_MAX, STANDARD_ID_MAX};
use crate::parser::{pow16, spec_dec_digit_val, spec_hex_digit_val, spec_hex_field_val,
    spec_hex_pair, spec_hex_pairs, spec_hex_val, spec_is_dec_digit, spec_is_hex_digit, spec_parse,
    spec_parse_ext_id, spec_parse_std_id, MessageParseError};

verus! {

/// An encoded hex digit is a hex digit, its value decodes back, and for
/// values up to 9 it is also a decimal digit with the same value.
proof fn lemma_hex_digit_value(v: int)
    requires
        0 <= v < 16,
    ensures
        spec_is_hex_digit(spec_hex_digit(v)),
        spec_hex_val(spec_hex_digit(v)) == v,
        v <= 9 ==> spec_is_dec_digit(spec_hex_digit(v)) && spec_dec_digit_val(spec_hex_digit(v))
            == Ok::<u8, MessageParseError>(v as u8),
{
}

/// A hex field of width `w` holds `w` digits.
proof fn lemma_hex_field_len(v: int, w: nat)
    ensures
        spec_hex_field(v, w).len() == w,
    decreases w,
{
    if w > 0 {
        lemma_hex_field_len(v / 16, (w - 1) as nat);
    }
}

/// Scanning a field extended by one digit multiplies the scanned value by
/// 16 and adds the digit, or reports the digit as illegal.
proof fn lemma_hex_field_val_snoc(s: Seq<u8>, x: u8, acc: int)
    ensures
        spec_hex_field_val(s.push(x), acc) == (match spec_hex_field_val(s, acc) {
            Ok(v) => if spec_is_hex_digit(x) {
                Ok::<int, MessageParseError>(v * 16 + spec_hex_val(x))
            } else {
                Err::<int, MessageParseError>(MessageParseError::IllegalHexDigit(x))
            },
            Err(e) => Err::<int, MessageParseError>(e),
        }),
    decreases s.len(),
{
    if s.len() == 0 {
        assert(s.push(x).len() == 1);
        assert(s.push(x)[0] == x);
        assert(s.push(x).drop_first() =~= Seq::<u8>::empty());
        assert(spec_hex_field_val(s, acc) == Ok::<int, MessageParseError>(acc));
        if spec_is_hex_digit(x) {
            assert(spec_hex_field_val(s.push(x), acc) == spec_hex_field_val(
                Seq::<u8>::empty(),
                acc * 16 + spec_hex_val(x),
            ));
            assert(spec_hex_field_val(Seq::<u8>::empty(), acc * 16 + spec_hex_val(x)) == Ok::<
                int,
                MessageParseError,
            >(acc * 16 + spec_hex_val(x)));
        } else {
            assert(spec_hex_field_val(s.push(x), acc) == Err::<int, MessageParseError>(
                MessageParseError::IllegalHexDigit(x),
            ));
        }
    } else {
        assert(s.push(x)[0] == s[0]);
        assert(s.push(x).drop_first() =~= s.drop_first().push(x));
        if spec_is_hex_digit(s[0]) {
            lemma_hex_field_val_snoc(s.drop_first(), x, acc * 16 + spec_hex_val(s[0]));
            assert(spec_hex_field_val(s.push(x), acc) == spec_hex_field_val(
                s.drop_first().push(x),
                acc * 16 + spec_hex_val(s[0]),
            ));
            assert(spec_hex_field_val(s, acc) == spec_hex_field_val(
                s.drop_first(),
                acc * 16 + spec_hex_val(s[0]),
            ));
        } else {
            assert(spec_hex_field_val(s.push(x), acc) == Err::<int, MessageParseError>(
                MessageParseError::IllegalHexDigit(s[0]),
            ));
            assert(spec_hex_field_val(s, acc) == Err::<int, MessageParseError>(
                MessageParseError::IllegalHexDigit(s[0]),
            ));
        }
    }
}

/// Scanning the hex field of a value within the field's range recovers the
/// value, continued from any accumulator.
proof fn lemma_hex_field_roundtrip(v: int, w: nat, acc: int)
    requires
        0 <= v < pow16(w),
    ensures
        spec_hex_field_val(spec_hex_field(v, w), acc) == Ok::<int, MessageParseError>(
            acc * pow16(w) + v,
        ),
    decreases w,
{
    if w == 0 {
        assert(pow16(0) == 1);
        assert(acc * 1 == acc) by (nonlinear_arith);
    } else {
        let q = v / 16;
        let r = v % 16;
        assert(pow16(w) == 16 * pow16((w - 1) as nat));
        assert(16 * q + r == v);
        assert(q < pow16((w - 1) as nat));
        lemma_hex_field_roundtrip(q, (w - 1) as nat, acc);
        lemma_hex_digit_value(r);
        lemma_hex_field_val_snoc(spec_hex_field(q, (w - 1) as nat), spec_hex_digit(r), acc);
        assert((acc * pow16((w - 1) as nat) + q) * 16 + r == acc * pow16(w) + v)
            by (nonlinear_arith)
            requires
                pow16(w) == 16 * pow16((w - 1) as nat),
                v == 16 * q + r,
        ;
    }
}

/// A hex-encoded payload holds two digits per byte.
proof fn lemma_hex_bytes_len(d: Seq<u8>)
    ensures
        spec_hex_bytes(d).len() == 2 * d.len(),
    decreases d.len(),
{
    if d.len() > 0 {
        lemma_hex_bytes_len(d.drop_first());
    }
}

/// Decoding a hex-encoded payload recovers the original bytes.
proof fn lemma_hex_pairs_roundtrip(d: Seq<u8>)
    ensures
        spec_hex_pairs(spec_hex_bytes(d)) == Ok::<Seq<u8>, MessageParseError>(d),
    decreases d.len(),
{
    if d.len() == 0 {
        assert(Seq::<u8>::empty() =~= d);
    } else {
        let s = spec_hex_bytes(d);
        let b0 = d[0];
        lemma_hex_bytes_len(d.drop_first());
        lemma_hex_digit_value((b0 as int) / 16);
        lemma_hex_digit_value((b0 as int) % 16);
        assert(s[0] == spec_hex_digit((b0 as int) / 16));
        assert(s[1] == spec_hex_digit((b0 as int) % 16));
        assert(spec_hex_pair(s[0], s[1]) == Ok::<u8, MessageParseError>(b0));
        assert(s.skip(2) =~= spec_hex_bytes(d.drop_first()));
        lemma_hex_pairs_roundtrip(d.drop_first());
        assert(seq![b0] + d.drop_first() =~= d);
    }
}

/// The 3-digit hex field of an 11-bit identifier decodes back to it.
proof fn lemma_std_id_roundtrip(raw: u16)
    requires
        raw <= STANDARD_ID_MAX,
    ensures
        spec_parse_std_id(spec_hex_field(raw as int, 3)) == Ok::<IdView, MessageParseError>(
            IdView::Standard(raw),
        ),
        spec_hex_field(raw as int, 3).len() == 3,
{
    assert(pow16(0) == 1);
    assert(pow16(1) == 16);
    assert(pow16(2) == 256);
    assert(pow16(3) == 4096);
    lemma_hex_field_roundtrip(raw as int, 3, 0);
    lemma_hex_field_len(raw as int, 3);
}

/// The 8-digit hex field of a 29-bit identifier decodes back to it.
proof fn lemma_ext_id_roundtrip(raw: u32)
    requires
        raw <= EXTENDED_ID_MAX,
    ensures
        spec_parse_ext_id(spec_hex_field(raw as int, 8)) == Ok::<IdView, MessageParseError>(
            IdView::Extended(raw),
        ),
        spec_hex_field(raw as int, 8).len() == 8,
{
    assert(pow16(0) == 1);
    assert(pow16(1) == 16);
    assert(pow16(2) == 256);
    assert(pow16(3) == 0x1000);
    assert(pow16(4) == 0x10000);
    assert(pow16(5) == 0x100000);
    assert(pow16(6) == 0x1000000);
    assert(pow16(7) == 0x10000000);
    assert(pow16(8) == 0x100000000);
    lemma_hex_field_roundtrip(raw as int, 8, 0);
    lemma_hex_field_len(raw as int, 8);
}

/// Decoding the encoded transmit line of a valid CAN 2.0 frame reproduces
/// the frame.
proof fn lemma_roundtrip_can2(f2: Can2FrameView)
    requires
        can2_view_valid(f2),
    ensures
        spec_parse(spec_frame_bytes(CanFrameView::Can2(f2))) == Ok::<
            CanFrameView,
            MessageParseError,
        >(CanFrameView::Can2(f2)),
{
    let f = CanFrameView::Can2(f2);
    let s = spec_frame_bytes(f);
    let tag = spec_frame_tag(f);
    let idhex = spec_id_bytes(f2.id);
    let dlcd = spec_hex_digit(f2.dlc as int);
    let payload = match f2.data {
        Some(d) => spec_hex_bytes(d),
        None => Seq::<u8>::empty(),
    };
    let w: int = match f2.id {
        IdView::Standard(_) => 3,
        IdView::Extended(_) => 8,
    };
    match f2.id {
        IdView::Standard(raw) => {
            lemma_std_id_roundtrip(raw);
        },
        IdView::Extended(raw) => {
            lemma_ext_id_roundtrip(raw);
        },
    }
    assert(idhex.len() == w);
    match f2.data {
        Some(d) => {
            lemma_hex_bytes_len(d);
            lemma_hex_pairs_roundtrip(d);
        },
        None => {},
    }
    lemma_hex_digit_value(f2.dlc as int);
    assert(s.len() == 1 + w + 1 + payload.len());
    assert(s[0] == tag);
    assert(s.subrange(1, 1 + w) =~= idhex);
    assert(s[1 + w] == dlcd);
    assert(s.subrange(2 + w, s.len() as int) =~= payload);
    assert(spec_parse(s) == Ok::<CanFrameView, MessageParseError>(f));
}

/// Decoding the encoded transmit line of a valid CAN-FD frame reproduces
/// the frame.
proof fn lemma_roundtrip_fd(fd: CanFdFrameView)
    requires
        can_fd_view_valid(fd),
    ensures
        spec_parse(spec_frame_bytes(CanFrameView::CanFd(fd))) == Ok::<
            CanFrameView,
            MessageParseError,
        >(CanFrameView::CanFd(fd)),
{
    let f = CanFrameView::CanFd(fd);
    let s = spec_frame_bytes(f);
    let tag = spec_frame_tag(f);
    let idhex = spec_id_bytes(fd.id);
    let len = fd.data.len() as int;
    lemma_for_length_exact(len);
    let code = FdDataLengthCode::spec_for_length(len).unwrap();
    lemma_fd_code_table_bijective(code, code);
    let dlcd = spec_hex_digit(code.spec_code() as int);
    lemma_hex_digit_value(code.spec_code() as int);
    lemma_hex_bytes_len(fd.data);
    lemma_hex_pairs_roundtrip(fd.data);
    let payload = spec_hex_bytes(fd.data);
    let w: int = match fd.id {
        IdView::Standard(_) => 3,
        IdView::Extended(_) => 8,
    };
    match fd.id {
        IdView::Standard(raw) => {
            lemma_std_id_roundtrip(raw);
        },
        IdView::Extended(raw) => {
            lemma_ext_id_roundtrip(raw);
        },
    }
    assert(idhex.len() == w);
    assert(s.len() == 1 + w + 1 + payload.len());
    assert(s[0] == tag);
    assert(s.subrange(1, 1 + w) =~= idhex);
    assert(s[1 + w] == dlcd);
    assert(s.subrange(2 + w, s.len() as int) =~= payload);
    assert(spec_hex_digit_val(dlcd) == Ok::<u8, MessageParseError>(code.spec_code()));
    assert(spec_parse(s) == Ok::<CanFrameView, MessageParseError>(f));
}

/// Round trip: decoding the encoded transmit line of any valid frame —
/// CAN 2.0 or CAN-FD, data or remote, standard or extended identifier,
/// with or without bit rate switching — reproduces an equal frame.
pub proof fn lemma_encode_decode_roundtrip(f: CanFrameView)
    requires
        can_frame_view_valid(f),
    ensures
        spec_parse(spec_frame_bytes(f)) == Ok::<CanFrameView, MessageParseError>(f),
{
    match f {
        CanFrameView::Can2(f2) => {
            lemma_roundtrip_can2(f2);
        },
        CanFrameView::CanFd(fd) => {
            lemma_roundtrip_fd(fd);
        },
    }
}

} // verus!
