//! Decoding of one complete received line (without its terminator) into a
//! typed CAN frame. Decoding is purely functional: the line's first byte
//! selects the message kind, then the identifier, DLC digit and hex payload
//! are validated and decoded in order, and the first violation is reported
//! as a caller-inspectable error.

use vstd::prelude::*;

use crate::frame::{Can2Frame, Can2FrameView, CanFdFrame, CanFdFrameView, CanFrame, CanFrameView,
    ExtendedId, FdDataLengthCode, Id, IdView, StandardId, EXTENDED_ID_MAX, STANDARD_ID_MAX,
    lemma_fd_code_table_bijective};

verus! {

/// The errors that can arise while decoding a received line.
#[derive(Debug, Clone, Copy, PartialEq, Eq, Structural)]
pub enum MessageParseError {
    /// The message's first byte is not a recognized message kind.
    UnrecognizedMessage(u8),
    /// The message holds fewer bytes than its kind requires; carries the
    /// kind and the observed total length.
    NotEnoughBytes(MessageKind, usize),
    /// The message holds more bytes than its kind allows; carries the kind
    /// and the observed total length.
    TooManyBytes(MessageKind, usize),
    /// A byte where a hex digit was expected is not one.
    IllegalHexDigit(u8),
    /// A byte where a decimal digit was expected is not one.
    IllegalDecimalDigit(u8),
    /// The decoded standard identifier exceeds `0x7FF`.
    StandardIdOutOfRange(u16),
    /// The decoded extended identifier exceeds `0x1FFF_FFFF`.
    ExtendedIdOutOfRange(u32),
    /// The encoded payload length is not a multiple of 2.
    InvalidDataLength(u8),
    /// The payload length does not match the DLC; carries the DLC digit's
    /// value and the observed payload byte count.
    MismatchedDataLength(u8, usize),
}

/// The kinds of messages the gateway emits, selected by the line's first
/// byte.
#[derive(Debug, Clone, Copy, PartialEq, Eq, Structural)]
pub enum MessageKind {
    /// A standard (11-bit) CAN 2.0 data frame.
    ReceivedStandardDataFrame,
    /// An extended (29-bit) CAN 2.0 data frame.
    ReceivedExtendedDataFrame,
    /// A standard (11-bit) CAN 2.0 remote frame.
    ReceivedStandardRemoteFrame,
    /// An extended (29-bit) CAN 2.0 remote frame.
    ReceivedExtendedRemoteFrame,
    /// A standard (11-bit) CAN-FD frame at the nominal bit rate.
    ReceivedStandardFdFrameNoBrs,
    /// An extended (29-bit) CAN-FD frame at the nominal bit rate.
    ReceivedExtendedFdFrameNoBrs,
    /// A standard (11-bit) CAN-FD frame at the increased data bit rate.
    ReceivedStandardFdFrameWithBrs,
    /// An extended (29-bit) CAN-FD frame at the increased data bit rate.
    ReceivedExtendedFdFrameWithBrs,
}

impl MessageKind {
    /// The message kind selected by a line's first byte, or the
    /// unrecognized-message error carrying that byte.
    pub open spec fn spec_from_byte(byte: u8) -> Result<MessageKind, MessageParseError> {
        if byte == 116 {
            Ok(MessageKind::ReceivedStandardDataFrame)
        } else if byte == 84 {
            Ok(MessageKind::ReceivedExtendedDataFrame)
        } else if byte == 114 {
            Ok(MessageKind::ReceivedStandardRemoteFrame)
        } else if byte == 82 {
            Ok(MessageKind::ReceivedExtendedRemoteFrame)
        } else if byte == 100 {
            Ok(MessageKind::ReceivedStandardFdFrameNoBrs)
        } else if byte == 68 {
            Ok(MessageKind::ReceivedExtendedFdFrameNoBrs)
        } else if byte == 98 {
            Ok(MessageKind::ReceivedStandardFdFrameWithBrs)
        } else if byte == 66 {
            Ok(MessageKind::ReceivedExtendedFdFrameWithBrs)
        } else {
            Err(MessageParseError::UnrecognizedMessage(byte))
        }
    }

    /// Returns the message kind selected by a line's first byte.
    pub fn from_byte(byte: u8) -> (r: Result<MessageKind, MessageParseError>)
        ensures
            r == MessageKind::spec_from_byte(byte),
    {
        if byte == 116 {
            Ok(MessageKind::ReceivedStandardDataFrame)
        } else if byte == 84 {
            Ok(MessageKind::ReceivedExtendedDataFrame)
        } else if byte == 114 {
            Ok(MessageKind::ReceivedStandardRemoteFrame)
        } else if byte == 82 {
            Ok(MessageKind::ReceivedExtendedRemoteFrame)
        } else if byte == 100 {
            Ok(MessageKind::ReceivedStandardFdFrameNoBrs)
        } else if byte == 68 {
            Ok(MessageKind::ReceivedExtendedFdFrameNoBrs)
        } else if byte == 98 {
            Ok(MessageKind::ReceivedStandardFdFrameWithBrs)
        } else if byte == 66 {
            Ok(MessageKind::ReceivedExtendedFdFrameWithBrs)
        } else {
            Err(MessageParseError::UnrecognizedMessage(byte))
        }
    }

    /// Whether this kind carries an extended (29-bit) identifier.
    pub open spec fn spec_is_extended(self) -> bool {
        match self {
            MessageKind::ReceivedExtendedDataFrame => true,
            MessageKind::ReceivedExtendedRemoteFrame => true,
            MessageKind::ReceivedExtendedFdFrameNoBrs => true,
            MessageKind::ReceivedExtendedFdFrameWithBrs => true,
            _ => false,
        }
    }

    /// Whether this kind is a CAN-FD frame.
    pub open spec fn spec_is_fd(self) -> bool {
        match self {
            MessageKind::ReceivedStandardFdFrameNoBrs => true,
            MessageKind::ReceivedExtendedFdFrameNoBrs => true,
            MessageKind::ReceivedStandardFdFrameWithBrs => true,
            MessageKind::ReceivedExtendedFdFrameWithBrs => true,
            _ => false,
        }
    }

    /// Whether this kind is a CAN-FD frame received at the increased data
    /// bit rate.
    pub open spec fn spec_is_brs(self) -> bool {
        match self {
            MessageKind::ReceivedStandardFdFrameWithBrs => true,
            MessageKind::ReceivedExtendedFdFrameWithBrs => true,
            _ => false,
        }
    }

    /// Whether this kind is a CAN 2.0 remote frame.
    pub open spec fn spec_is_remote(self) -> bool {
        match self {
            MessageKind::ReceivedStandardRemoteFrame => true,
            MessageKind::ReceivedExtendedRemoteFrame => true,
            _ => false,
        }
    }

    /// The fewest bytes that can follow this kind's first byte: the
    /// identifier plus one DLC digit.
    pub open spec fn spec_min_data_length(self) -> usize {
        if self.spec_is_extended() {
            9
        } else {
            4
        }
    }

    /// The most bytes that can follow this kind's first byte: the minimum
    /// plus the longest hex payload.
    pub open spec fn spec_max_data_length(self) -> usize {
        (self.spec_min_data_length() + (if self.spec_is_remote() {
            0usize
        } else if self.spec_is_fd() {
            128usize
        } else {
            16usize
        })) as usize
    }

    /// Returns the fewest bytes that can follow this kind's first byte.
    pub fn get_min_data_length(&self) -> (r: usize)
        ensures
            r == self.spec_min_data_length(),
    {
        match self {
            MessageKind::ReceivedStandardDataFrame => 3 + 1,
            MessageKind::ReceivedExtendedDataFrame => 8 + 1,
            MessageKind::ReceivedStandardRemoteFrame => 3 + 1,
            MessageKind::ReceivedExtendedRemoteFrame => 8 + 1,
            MessageKind::ReceivedStandardFdFrameNoBrs => 3 + 1,
            MessageKind::ReceivedExtendedFdFrameNoBrs => 8 + 1,
            MessageKind::ReceivedStandardFdFrameWithBrs => 3 + 1,
            MessageKind::ReceivedExtendedFdFrameWithBrs => 8 + 1,
        }
    }

    /// Returns the most bytes that can follow this kind's first byte.
    pub fn get_max_data_length(&self) -> (r: usize)
        ensures
            r == self.spec_max_data_length(),
    {
        match self {
            MessageKind::ReceivedStandardDataFrame => 3 + 1 + 16,
            MessageKind::ReceivedExtendedDataFrame => 8 + 1 + 16,
            MessageKind::ReceivedStandardRemoteFrame => 3 + 1,
            MessageKind::ReceivedExtendedRemoteFrame => 8 + 1,
            MessageKind::ReceivedStandardFdFrameNoBrs => 3 + 1 + 128,
            MessageKind::ReceivedExtendedFdFrameNoBrs => 8 + 1 + 128,
            MessageKind::ReceivedStandardFdFrameWithBrs => 3 + 1 + 128,
            MessageKind::ReceivedExtendedFdFrameWithBrs => 8 + 1 + 128,
        }
    }

    /// Whether this kind carries an extended (29-bit) identifier.
    fn is_extended(&self) -> (r: bool)
        ensures
            r == self.spec_is_extended(),
    {
        match self {
            MessageKind::ReceivedExtendedDataFrame => true,
            MessageKind::ReceivedExtendedRemoteFrame => true,
            MessageKind::ReceivedExtendedFdFrameNoBrs => true,
            MessageKind::ReceivedExtendedFdFrameWithBrs => true,
            _ => false,
        }
    }

    /// Whether this kind is a CAN-FD frame.
    fn is_fd(&self) -> (r: bool)
        ensures
            r == self.spec_is_fd(),
    {
        match self {
            MessageKind::ReceivedStandardFdFrameNoBrs => true,
            MessageKind::ReceivedExtendedFdFrameNoBrs => true,
            MessageKind::ReceivedStandardFdFrameWithBrs => true,
            MessageKind::ReceivedExtendedFdFrameWithBrs => true,
            _ => false,
        }
    }

    /// Whether this kind is a CAN-FD frame received with BRS.
    fn is_brs(&self) -> (r: bool)
        ensures
            r == self.spec_is_brs(),
    {
        match self {
            MessageKind::ReceivedStandardFdFrameWithBrs => true,
            MessageKind::ReceivedExtendedFdFrameWithBrs => true,
            _ => false,
        }
    }

    /// Whether this kind is a CAN 2.0 remote frame.
    fn is_remote(&self) -> (r: bool)
        ensures
            r == self.spec_is_remote(),
    {
        match self {
            MessageKind::ReceivedStandardRemoteFrame => true,
            MessageKind::ReceivedExtendedRemoteFrame => true,
            _ => false,
        }
    }
}

/// Whether `b` is an ASCII hex digit (`0-9`, `a-f` or `A-F`).
pub open spec fn spec_is_hex_digit(b: u8) -> bool {
    (48 <= b <= 57) || (97 <= b <= 102) || (65 <= b <= 70)
}

/// The nibble value of an ASCII hex digit.
pub open spec fn spec_hex_val(b: u8) -> u8
    recommends
        spec_is_hex_digit(b),
{
    if 48 <= b <= 57 {
        (b - 48) as u8
    } else if 97 <= b <= 102 {
        (b - 87) as u8
    } else {
        (b - 55) as u8
    }
}

/// The nibble value of an ASCII hex digit, or the illegal-digit error
/// carrying the offending byte.
pub open spec fn spec_hex_digit_val(b: u8) -> Result<u8, MessageParseError> {
    if spec_is_hex_digit(b) {
        Ok(spec_hex_val(b))
    } else {
        Err(MessageParseError::IllegalHexDigit(b))
    }
}

/// Whether `b` is an ASCII decimal digit.
pub open spec fn spec_is_dec_digit(b: u8) -> bool {
    48 <= b <= 57
}

/// The value of an ASCII decimal digit, or the illegal-digit error
/// carrying the offending byte.
pub open spec fn spec_dec_digit_val(b: u8) -> Result<u8, MessageParseError> {
    if spec_is_dec_digit(b) {
        Ok((b - 48) as u8)
    } else {
        Err(MessageParseError::IllegalDecimalDigit(b))
    }
}

/// Returns the nibble value of an ASCII hex digit; `0-9`, `a-f` and `A-F`
/// are accepted.
pub fn hex_digit_to_u8(byte: u8) -> (r: Result<u8, MessageParseError>)
    ensures
        r == spec_hex_digit_val(byte),
        r matches Ok(v) ==> v < 16,
{
    if 48 <= byte && byte <= 57 {
        Ok(byte - 48)
    } else if 97 <= byte && byte <= 102 {
        Ok(byte - 87)
    } else if 65 <= byte && byte <= 70 {
        Ok(byte - 55)
    } else {
        Err(MessageParseError::IllegalHexDigit(byte))
    }
}

/// Returns the value of an ASCII decimal digit.
pub fn dec_digit_to_u8(byte: u8) -> (r: Result<u8, MessageParseError>)
    ensures
        r == spec_dec_digit_val(byte),
        r matches Ok(v) ==> v <= 9,
{
    if 48 <= byte && byte <= 57 {
        Ok(byte - 48)
    } else {
        Err(MessageParseError::IllegalDecimalDigit(byte))
    }
}

/// The byte encoded by two hex digits, most significant nibble first, or
/// the first illegal-digit error.
pub open spec fn spec_hex_pair(a: u8, b: u8) -> Result<u8, MessageParseError> {
    if !spec_is_hex_digit(a) {
        Err(MessageParseError::IllegalHexDigit(a))
    } else if !spec_is_hex_digit(b) {
        Err(MessageParseError::IllegalHexDigit(b))
    } else {
        Ok((spec_hex_val(a) * 16 + spec_hex_val(b)) as u8)
    }
}

/// Returns the byte encoded by two hex digits, most significant nibble
/// first.
pub fn u8_from_hex(hex_nibbles: &[u8; 2]) -> (r: Result<u8, MessageParseError>)
    ensures
        r == spec_hex_pair(hex_nibbles@[0], hex_nibbles@[1]),
{
    let msn = match hex_digit_to_u8(hex_nibbles[0]) {
        Ok(v) => v,
        Err(e) => {
            return Err(e);
        },
    };
    let lsn = match hex_digit_to_u8(hex_nibbles[1]) {
        Ok(v) => v,
        Err(e) => {
            return Err(e);
        },
    };
    Ok(msn * 16 + lsn)
}

/// Sixteen to the power `n`.
pub open spec fn pow16(n: nat) -> int
    decreases n,
{
    if n == 0 {
        1
    } else {
        16 * pow16((n - 1) as nat)
    }
}

/// `pow16` is positive.
pub proof fn lemma_pow16_pos(n: nat)
    ensures
        pow16(n) >= 1,
    decreases n,
{
    if n > 0 {
        lemma_pow16_pos((n - 1) as nat);
    }
}

/// `pow16` is monotonic.
pub proof fn lemma_pow16_mono(a: nat, b: nat)
    requires
        a <= b,
    ensures
        pow16(a) <= pow16(b),
    decreases b,
{
    if a < b {
        lemma_pow16_mono(a, (b - 1) as nat);
        lemma_pow16_pos((b - 1) as nat);
    }
}

/// The value of a big-endian hex field continued from the accumulator
/// `acc`, or the first illegal-digit error.
pub open spec fn spec_hex_field_val(s: Seq<u8>, acc: int) -> Result<int, MessageParseError>
    decreases s.len(),
{
    if s.len() == 0 {
        Ok(acc)
    } else if !spec_is_hex_digit(s[0]) {
        Err(MessageParseError::IllegalHexDigit(s[0]))
    } else {
        spec_hex_field_val(s.drop_first(), acc * 16 + spec_hex_val(s[0]))
    }
}

/// The standard identifier encoded by 3 hex digits, or the first error:
/// an illegal digit, or a value beyond the 11-bit range.
pub open spec fn spec_parse_std_id(s: Seq<u8>) -> Result<IdView, MessageParseError>
    recommends
        s.len() == 3,
{
    match spec_hex_field_val(s, 0) {
        Ok(v) => if v <= STANDARD_ID_MAX {
            Ok(IdView::Standard(v as u16))
        } else {
            Err(MessageParseError::StandardIdOutOfRange(v as u16))
        },
        Err(e) => Err(e),
    }
}

/// The extended identifier encoded by 8 hex digits, or the first error:
/// an illegal digit, or a value beyond the 29-bit range.
pub open spec fn spec_parse_ext_id(s: Seq<u8>) -> Result<IdView, MessageParseError>
    recommends
        s.len() == 8,
{
    match spec_hex_field_val(s, 0) {
        Ok(v) => if v <= EXTENDED_ID_MAX {
            Ok(IdView::Extended(v as u32))
        } else {
            Err(MessageParseError::ExtendedIdOutOfRange(v as u32))
        },
        Err(e) => Err(e),
    }
}

/// Decodes 3 hex digits into a standard identifier.
fn standard_id_from_hex(hex_nibbles: &[u8; 3]) -> (r: Result<StandardId, MessageParseError>)
    ensures
        match r {
            Ok(id) => spec_parse_std_id(hex_nibbles@) == Ok::<IdView, MessageParseError>(
                IdView::Standard(id.spec_raw()),
            ),
            Err(e) => spec_parse_std_id(hex_nibbles@) == Err::<IdView, MessageParseError>(e),
        },
{
    let ghost s = hex_nibbles@;
    let mut value: u16 = 0;
    let mut i: usize = 0;
    proof {
        assert(s.skip(0) =~= s);
    }
    while i < 3
        invariant
            i <= 3,
            value < pow16(i as nat),
            spec_hex_field_val(s.skip(i as int), value as int) == spec_hex_field_val(s, 0),
            s.len() == 3,
            s == hex_nibbles@,
        decreases 3 - i,
    {
        proof {
            lemma_pow16_mono(i as nat, 2);
            assert(pow16(0) == 1);
            assert(pow16(1) == 16);
            assert(pow16(2) == 256);
            assert(s.skip(i as int)[0] == s[i as int]);
        }
        let nibble = match hex_digit_to_u8(hex_nibbles[i]) {
            Ok(v) => v,
            Err(e) => {
                return Err(e);
            },
        };
        proof {
            assert(pow16((i + 1) as nat) == 16 * pow16(i as nat));
            assert(s.skip(i as int).drop_first() =~= s.skip(i + 1));
        }
        value = value * 16 + nibble as u16;
        i = i + 1;
    }
    proof {
        assert(s.skip(3) =~= Seq::<u8>::empty());
    }
    match StandardId::new(value) {
        Some(id) => Ok(id),
        None => Err(MessageParseError::StandardIdOutOfRange(value)),
    }
}

/// Decodes 8 hex digits into an extended identifier.
fn extended_id_from_hex(hex_nibbles: &[u8; 8]) -> (r: Result<ExtendedId, MessageParseError>)
    ensures
        match r {
            Ok(id) => spec_parse_ext_id(hex_nibbles@) == Ok::<IdView, MessageParseError>(
                IdView::Extended(id.spec_raw()),
            ),
            Err(e) => spec_parse_ext_id(hex_nibbles@) == Err::<IdView, MessageParseError>(e),
        },
{
    let ghost s = hex_nibbles@;
    let mut value: u32 = 0;
    let mut i: usize = 0;
    proof {
        assert(s.skip(0) =~= s);
    }
    while i < 8
        invariant
            i <= 8,
            value < pow16(i as nat),
            spec_hex_field_val(s.skip(i as int), value as int) == spec_hex_field_val(s, 0),
            s.len() == 8,
            s == hex_nibbles@,
        decreases 8 - i,
    {
        proof {
            lemma_pow16_mono(i as nat, 7);
            assert(pow16(0) == 1);
            assert(pow16(1) == 16);
            assert(pow16(2) == 256);
            assert(pow16(3) == 0x1000);
            assert(pow16(4) == 0x10000);
            assert(pow16(5) == 0x100000);
            assert(pow16(6) == 0x1000000);
            assert(pow16(7) == 0x10000000);
            assert(s.skip(i as int)[0] == s[i as int]);
        }
        let nibble = match hex_digit_to_u8(hex_nibbles[i]) {
            Ok(v) => v,
            Err(e) => {
                return Err(e);
            },
        };
        proof {
            assert(pow16((i + 1) as nat) == 16 * pow16(i as nat));
            assert(s.skip(i as int).drop_first() =~= s.skip(i + 1));
        }
        value = value * 16 + nibble as u32;
        i = i + 1;
    }
    proof {
        assert(s.skip(8) =~= Seq::<u8>::empty());
    }
    match ExtendedId::new(value) {
        Some(id) => Ok(id),
        None => Err(MessageParseError::ExtendedIdOutOfRange(value)),
    }
}

/// The bytes encoded by a sequence of hex digit pairs, or the first
/// illegal-digit error, scanning left to right.
pub open spec fn spec_hex_pairs(s: Seq<u8>) -> Result<Seq<u8>, MessageParseError>
    recommends
        s.len() % 2 == 0,
    decreases s.len(),
{
    if s.len() < 2 {
        Ok(Seq::empty())
    } else {
        match spec_hex_pair(s[0], s[1]) {
            Ok(b) => match spec_hex_pairs(s.skip(2)) {
                Ok(t) => Ok(seq![b] + t),
                Err(e) => Err(e),
            },
            Err(e) => Err(e),
        }
    }
}

/// The payload bytes decoded from a hex-encoded payload whose DLC digit had
/// value `dlc` and whose expected byte count is `expected_len`: an odd
/// count of hex digits, a count different from twice the expected byte
/// count, and an illegal digit are each errors, in that order.
pub open spec fn spec_unpack(s: Seq<u8>, dlc: u8, expected_len: int) -> Result<
    Seq<u8>,
    MessageParseError,
> {
    if s.len() % 2 != 0 {
        Err(MessageParseError::InvalidDataLength((s.len() % 256) as u8))
    } else if s.len() != 2 * expected_len {
        Err(MessageParseError::MismatchedDataLength(dlc, (s.len() / 2) as usize))
    } else {
        spec_hex_pairs(s)
    }
}

/// Decodes a hex-encoded payload of `expected_len` bytes; `dlc` is the
/// DLC digit's value, named by the mismatched-length error.
pub fn unpack_data_bytes(hex_bytes: &[u8], dlc: u8, expected_len: usize) -> (r: Result<
    Vec<u8>,
    MessageParseError,
>)
    ensures
        match r {
            Ok(v) => spec_unpack(hex_bytes@, dlc, expected_len as int) == Ok::<
                Seq<u8>,
                MessageParseError,
            >(v@) && v@.len() == expected_len,
            Err(e) => spec_unpack(hex_bytes@, dlc, expected_len as int) == Err::<
                Seq<u8>,
                MessageParseError,
            >(e),
        },
{
    let ghost s = hex_bytes@;
    if hex_bytes.len() % 2 != 0 {
        return Err(MessageParseError::InvalidDataLength((hex_bytes.len() % 256) as u8));
    }
    if hex_bytes.len() / 2 != expected_len {
        return Err(MessageParseError::MismatchedDataLength(dlc, hex_bytes.len() / 2));
    }
    let mut out: Vec<u8> = Vec::new();
    let mut i: usize = 0;
    proof {
        assert(s.skip(0) =~= s);
        match spec_hex_pairs(s) {
            Ok(t) => {
                assert(out@ + t =~= t);
            },
            Err(_) => {},
        }
    }
    while i < hex_bytes.len()
        invariant
            s == hex_bytes@,
            s.len() % 2 == 0,
            s.len() == 2 * expected_len,
            i % 2 == 0,
            i <= s.len(),
            out@.len() == i / 2,
            spec_hex_pairs(s) == (match spec_hex_pairs(s.skip(i as int)) {
                Ok(t) => Ok::<Seq<u8>, MessageParseError>(out@ + t),
                Err(e) => Err::<Seq<u8>, MessageParseError>(e),
            }),
        decreases s.len() - i,
    {
        proof {
            assert(s.skip(i as int)[0] == s[i as int]);
            assert(s.skip(i as int)[1] == s[i as int + 1]);
        }
        let b = match u8_from_hex(&[hex_bytes[i], hex_bytes[i + 1]]) {
            Ok(b) => b,
            Err(e) => {
                return Err(e);
            },
        };
        let ghost old_out = out@;
        out.push(b);
        i = i + 2;
        proof {
            assert(s.skip(i - 2).skip(2) =~= s.skip(i as int));
            assert(out@ =~= old_out + seq![b]);
            match spec_hex_pairs(s.skip(i as int)) {
                Ok(t) => {
                    assert((old_out + (seq![b] + t)) =~= (out@ + t));
                },
                Err(_) => {},
            }
        }
    }
    proof {
        assert(s.skip(s.len() as int) =~= Seq::<u8>::empty());
        assert(out@ + Seq::<u8>::empty() =~= out@);
    }
    Ok(out)
}

/// The frame encoded by one complete received line (without terminator),
/// or the first decoding error: the line's first byte selects the kind,
/// the following bytes are the fixed-width hex identifier, one DLC digit
/// (decimal byte count for CAN 2.0, hex wire code for CAN-FD), and the
/// payload as hex pairs.
pub open spec fn spec_parse(s: Seq<u8>) -> Result<CanFrameView, MessageParseError>
    recommends
        s.len() >= 1,
{
    match MessageKind::spec_from_byte(s[0]) {
        Err(e) => Err(e),
        Ok(kind) => {
            let data_len = s.len() - 1;
            if data_len < kind.spec_min_data_length() {
                Err(MessageParseError::NotEnoughBytes(kind, s.len() as usize))
            } else if data_len > kind.spec_max_data_length() {
                Err(MessageParseError::TooManyBytes(kind, s.len() as usize))
            } else {
                let id_width: int = if kind.spec_is_extended() {
                    8
                } else {
                    3
                };
                let id_res = if kind.spec_is_extended() {
                    spec_parse_ext_id(s.subrange(1, 9))
                } else {
                    spec_parse_std_id(s.subrange(1, 4))
                };
                match id_res {
                    Err(e) => Err(e),
                    Ok(id) => {
                        let dlc_byte = s[1 + id_width];
                        let payload = s.subrange(2 + id_width, s.len() as int);
                        if kind.spec_is_fd() {
                            match spec_hex_digit_val(dlc_byte) {
                                Err(e) => Err(e),
                                Ok(code_val) => {
                                    let code = FdDataLengthCode::spec_from_code(code_val);
                                    match spec_unpack(
                                        payload,
                                        code_val,
                                        code.spec_num_bytes() as int,
                                    ) {
                                        Err(e) => Err(e),
                                        Ok(d) => Ok(
                                            CanFrameView::CanFd(
                                                CanFdFrameView {
                                                    id,
                                                    data: d,
                                                    bit_rate_switched: kind.spec_is_brs(),
                                                },
                                            ),
                                        ),
                                    }
                                },
                            }
                        } else {
                            match spec_dec_digit_val(dlc_byte) {
                                Err(e) => Err(e),
                                Ok(dlc) => {
                                    if kind.spec_is_remote() {
                                        if dlc <= 8 {
                                            Ok(
                                                CanFrameView::Can2(
                                                    Can2FrameView {
                                                        id,
                                                        dlc: dlc as nat,
                                                        data: None,
                                                    },
                                                ),
                                            )
                                        } else {
                                            Err(MessageParseError::MismatchedDataLength(dlc, 0))
                                        }
                                    } else {
                                        match spec_unpack(payload, dlc, dlc as int) {
                                            Err(e) => Err(e),
                                            Ok(d) => Ok(
                                                CanFrameView::Can2(
                                                    Can2FrameView {
                                                        id,
                                                        dlc: dlc as nat,
                                                        data: Some(d),
                                                    },
                                                ),
                                            ),
                                        }
                                    }
                                },
                            }
                        }
                    },
                }
            }
        },
    }
}

/// Decodes one complete received line (without its terminator) into a CAN
/// frame; the line must not be empty.
pub fn parse_frame_from_bytes(buffer: &[u8]) -> (r: Result<CanFrame, MessageParseError>)
    requires
        buffer@.len() >= 1,
    ensures
        match r {
            Ok(f) => spec_parse(buffer@) == Ok::<CanFrameView, MessageParseError>(f@),
            Err(e) => spec_parse(buffer@) == Err::<CanFrameView, MessageParseError>(e),
        },
{
    let kind = match MessageKind::from_byte(buffer[0]) {
        Ok(k) => k,
        Err(e) => {
            return Err(e);
        },
    };
    let data_len = buffer.len() - 1;
    if data_len < kind.get_min_data_length() {
        return Err(MessageParseError::NotEnoughBytes(kind, buffer.len()));
    }
    if data_len > kind.get_max_data_length() {
        return Err(MessageParseError::TooManyBytes(kind, buffer.len()));
    }
    let is_ext = kind.is_extended();
    let id: Id = if is_ext {
        let nibbles: [u8; 8] = [
            buffer[1],
            buffer[2],
            buffer[3],
            buffer[4],
            buffer[5],
            buffer[6],
            buffer[7],
            buffer[8],
        ];
        proof {
            assert(nibbles@ =~= buffer@.subrange(1, 9));
        }
        match extended_id_from_hex(&nibbles) {
            Ok(eid) => Id::Extended(eid),
            Err(e) => {
                return Err(e);
            },
        }
    } else {
        let nibbles: [u8; 3] = [buffer[1], buffer[2], buffer[3]];
        proof {
            assert(nibbles@ =~= buffer@.subrange(1, 4));
        }
        match standard_id_from_hex(&nibbles) {
            Ok(sid) => Id::Standard(sid),
            Err(e) => {
                return Err(e);
            },
        }
    };
    let dlc_index: usize = if is_ext {
        9
    } else {
        4
    };
    let dlc_byte = buffer[dlc_index];
    let payload_hex: &[u8] = &buffer[dlc_index + 1..buffer.len()];
    proof {
        assert(payload_hex@ =~= buffer@.subrange(
            2 + (if kind.spec_is_extended() { 8int } else { 3int }),
            buffer@.len() as int,
        ));
    }
    if kind.is_fd() {
        let code_val = match hex_digit_to_u8(dlc_byte) {
            Ok(v) => v,
            Err(e) => {
                return Err(e);
            },
        };
        let code = FdDataLengthCode::from_code(code_val).unwrap();
        let num_bytes = code.get_num_bytes();
        let data = match unpack_data_bytes(payload_hex, code_val, num_bytes) {
            Ok(d) => d,
            Err(e) => {
                return Err(e);
            },
        };
        proof {
            lemma_fd_code_table_bijective(code, code);
        }
        let frame = CanFdFrame::new(id, data.as_slice()).unwrap();
        Ok(CanFrame::CanFd(frame.with_bit_rate_switched(kind.is_brs())))
    } else {
        let dlc = match dec_digit_to_u8(dlc_byte) {
            Ok(v) => v,
            Err(e) => {
                return Err(e);
            },
        };
        if kind.is_remote() {
            if dlc <= 8 {
                let frame = Can2Frame::new_remote(id, dlc as usize).unwrap();
                Ok(CanFrame::Can2(frame))
            } else {
                Err(MessageParseError::MismatchedDataLength(dlc, 0))
            }
        } else {
            let data = match unpack_data_bytes(payload_hex, dlc, dlc as usize) {
                Ok(d) => d,
                Err(e) => {
                    return Err(e);
                },
            };
            let frame = Can2Frame::new_data(id, data.as_slice()).unwrap();
            Ok(CanFrame::Can2(frame))
        }
    }
}

} // verus!
