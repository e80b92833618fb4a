//! Encoding of configuration and transmit commands into the gateway's ASCII
//! line bytes. The encoder emits no line terminator; the sender appends it.

use vstd::prelude::*;

use crate::frame::{Can2FrameView, CanFdFrameView, CanFrame, CanFrameView, ExtendedId,
    FdDataLengthCode, Id, IdView, StandardId};

verus! {

/// The command bytes understood by the CAN gateway.
#[derive(Debug, Clone, Copy, PartialEq, Eq, Structural)]
pub enum CommandKind {
    /// Set the nominal bit rate to a standard CAN bit rate.
    SetNominalBitRate,
    /// Set the data bit rate (CAN-FD frames only).
    SetDataBitRate,
    /// Set the mode of the gateway (normal or silent).
    SetMode,
    /// Enable or disable automatic retransmission of frames.
    SetAutoRetransmission,
    /// Open the CAN channel.
    Open,
    /// Close the CAN channel.
    Close,
    /// Transmit a standard (11-bit) CAN 2.0 data frame.
    TransmitStandardDataFrame,
    /// Transmit an extended (29-bit) CAN 2.0 data frame.
    TransmitExtendedDataFrame,
    /// Transmit a standard (11-bit) CAN 2.0 remote frame.
    TransmitStandardRemoteFrame,
    /// Transmit an extended (29-bit) CAN 2.0 remote frame.
    TransmitExtendedRemoteFrame,
    /// Transmit a standard (11-bit) CAN-FD frame at the nominal bit rate.
    TransmitStandardFdFrameNoBrs,
    /// Transmit an extended (29-bit) CAN-FD frame at the nominal bit rate.
    TransmitExtendedFdFrameNoBrs,
    /// Transmit a standard (11-bit) CAN-FD frame at the data bit rate.
    TransmitStandardFdFrameWithBrs,
    /// Transmit an extended (29-bit) CAN-FD frame at the data bit rate.
    TransmitExtendedFdFrameWithBrs,
    /// Ask the device for its firmware version.
    GetFirmwareVersion,
    /// Ask the device for the value of its error register.
    GetErrorRegister,
}

impl CommandKind {
    /// The ASCII byte of this command on the wire.
    pub open spec fn spec_byte(self) -> u8 {
        match self {
            CommandKind::SetNominalBitRate => 83,
            CommandKind::SetDataBitRate => 89,
            CommandKind::SetMode => 77,
            CommandKind::SetAutoRetransmission => 65,
            CommandKind::Open => 79,
            CommandKind::Close => 67,
            CommandKind::TransmitStandardDataFrame => 116,
            CommandKind::TransmitExtendedDataFrame => 84,
            CommandKind::TransmitStandardRemoteFrame => 114,
            CommandKind::TransmitExtendedRemoteFrame => 82,
            CommandKind::TransmitStandardFdFrameNoBrs => 100,
            CommandKind::TransmitExtendedFdFrameNoBrs => 68,
            CommandKind::TransmitStandardFdFrameWithBrs => 98,
            CommandKind::TransmitExtendedFdFrameWithBrs => 66,
            CommandKind::GetFirmwareVersion => 86,
            CommandKind::GetErrorRegister => 69,
        }
    }

    /// Returns the ASCII byte of this command on the wire.
    pub fn byte(self) -> (r: u8)
        ensures
            r == self.spec_byte(),
    {
        match self {
            CommandKind::SetNominalBitRate => 83,
            CommandKind::SetDataBitRate => 89,
            CommandKind::SetMode => 77,
            CommandKind::SetAutoRetransmission => 65,
            CommandKind::Open => 79,
            CommandKind::Close => 67,
            CommandKind::TransmitStandardDataFrame => 116,
            CommandKind::TransmitExtendedDataFrame => 84,
            CommandKind::TransmitStandardRemoteFrame => 114,
            CommandKind::TransmitExtendedRemoteFrame => 82,
            CommandKind::TransmitStandardFdFrameNoBrs => 100,
            CommandKind::TransmitExtendedFdFrameNoBrs => 68,
            CommandKind::TransmitStandardFdFrameWithBrs => 98,
            CommandKind::TransmitExtendedFdFrameWithBrs => 66,
            CommandKind::GetFirmwareVersion => 86,
            CommandKind::GetErrorRegister => 69,
        }
    }
}

/// The bit rate used for CAN 2.0 frames, CAN-FD frames without BRS, and the
/// arbitration phase of CAN-FD frames with BRS.
#[derive(Debug, Clone, Copy, PartialEq, Eq, Structural)]
pub enum NominalBitRate {
    /// 10 Kbit/s.
    Rate10Kbit,
    /// 20 Kbit/s.
    Rate20Kbit,
    /// 50 Kbit/s.
    Rate50Kbit,
    /// 100 Kbit/s.
    Rate100Kbit,
    /// 125 Kbit/s.
    Rate125Kbit,
    /// 250 Kbit/s.
    Rate250Kbit,
    /// 500 Kbit/s.
    Rate500Kbit,
    /// 800 Kbit/s.
    Rate800Kbit,
    /// 1 Mbit/s.
    Rate1Mbit,
    /// 83.3 Kbit/s.
    Rate83_3Kbit,
}

impl NominalBitRate {
    /// The ASCII code byte of this bit rate on the wire.
    pub open spec fn spec_byte(self) -> u8 {
        match self {
            NominalBitRate::Rate10Kbit => 48,
            NominalBitRate::Rate20Kbit => 49,
            NominalBitRate::Rate50Kbit => 50,
            NominalBitRate::Rate100Kbit => 51,
            NominalBitRate::Rate125Kbit => 52,
            NominalBitRate::Rate250Kbit => 53,
            NominalBitRate::Rate500Kbit => 54,
            NominalBitRate::Rate800Kbit => 55,
            NominalBitRate::Rate1Mbit => 56,
            NominalBitRate::Rate83_3Kbit => 57,
        }
    }

    /// Returns the ASCII code byte of this bit rate on the wire.
    pub fn byte(self) -> (r: u8)
        ensures
            r == self.spec_byte(),
    {
        match self {
            NominalBitRate::Rate10Kbit => 48,
            NominalBitRate::Rate20Kbit => 49,
            NominalBitRate::Rate50Kbit => 50,
            NominalBitRate::Rate100Kbit => 51,
            NominalBitRate::Rate125Kbit => 52,
            NominalBitRate::Rate250Kbit => 53,
            NominalBitRate::Rate500Kbit => 54,
            NominalBitRate::Rate800Kbit => 55,
            NominalBitRate::Rate1Mbit => 56,
            NominalBitRate::Rate83_3Kbit => 57,
        }
    }
}

/// The bit rate used for the data and CRC sections of CAN-FD frames with
/// BRS enabled.
#[derive(Debug, Clone, Copy, PartialEq, Eq, Structural, Default)]
pub enum DataBitRate {
    /// 2 Mbit/s.
    #[default]
    Rate2Mbit,
    /// 5 Mbit/s.
    Rate5Mbit,
}

impl DataBitRate {
    /// The ASCII code byte of this bit rate on the wire.
    pub open spec fn spec_byte(self) -> u8 {
        match self {
            DataBitRate::Rate2Mbit => 50,
            DataBitRate::Rate5Mbit => 53,
        }
    }

    /// Returns the ASCII code byte of this bit rate on the wire.
    pub fn byte(self) -> (r: u8)
        ensures
            r == self.spec_byte(),
    {
        match self {
            DataBitRate::Rate2Mbit => 50,
            DataBitRate::Rate5Mbit => 53,
        }
    }
}

/// Operating mode of the gateway.
#[derive(Debug, Clone, Copy, PartialEq, Eq, Structural, Default)]
pub enum OperatingMode {
    /// The gateway can send and receive frames on the bus.
    #[default]
    Normal,
    /// "Listen only": the gateway can only observe frames on the bus.
    Silent,
}

impl OperatingMode {
    /// The ASCII code byte of this mode on the wire.
    pub open spec fn spec_byte(self) -> u8 {
        match self {
            OperatingMode::Normal => 48,
            OperatingMode::Silent => 49,
        }
    }

    /// Returns the ASCII code byte of this mode on the wire.
    pub fn byte(self) -> (r: u8)
        ensures
            r == self.spec_byte(),
    {
        match self {
            OperatingMode::Normal => 48,
            OperatingMode::Silent => 49,
        }
    }
}

/// The automatic retransmission policy of the gateway.
#[derive(Debug, Clone, Copy, PartialEq, Eq, Structural, Default)]
pub enum AutoRetransmissionMode {
    /// Frames are not retransmitted when transmission fails.
    Disabled,
    /// Frames are retransmitted until they succeed.
    #[default]
    Enabled,
}

impl AutoRetransmissionMode {
    /// The ASCII code byte of this policy on the wire.
    pub open spec fn spec_byte(self) -> u8 {
        match self {
            AutoRetransmissionMode::Disabled => 48,
            AutoRetransmissionMode::Enabled => 49,
        }
    }

    /// Returns the ASCII code byte of this policy on the wire.
    pub fn byte(self) -> (r: u8)
        ensures
            r == self.spec_byte(),
    {
        match self {
            AutoRetransmissionMode::Disabled => 48,
            AutoRetransmissionMode::Enabled => 49,
        }
    }
}

/// A command sent to the CAN gateway, together with its attached data.
#[derive(Debug)]
pub enum Command {
    SetNominalBitRate(NominalBitRate),
    SetDataBitRate(DataBitRate),
    SetMode(OperatingMode),
    SetAutoRetransmission(AutoRetransmissionMode),
    Open,
    Close,
    TransmitFrame(CanFrame),
}

/// Mathematical model of a command.
pub ghost enum CommandView {
    SetNominalBitRate(NominalBitRate),
    SetDataBitRate(DataBitRate),
    SetMode(OperatingMode),
    SetAutoRetransmission(AutoRetransmissionMode),
    Open,
    Close,
    TransmitFrame(CanFrameView),
}

impl View for Command {
    type V = CommandView;

    open spec fn view(&self) -> CommandView {
        match self {
            Command::SetNominalBitRate(rate) => CommandView::SetNominalBitRate(*rate),
            Command::SetDataBitRate(rate) => CommandView::SetDataBitRate(*rate),
            Command::SetMode(mode) => CommandView::SetMode(*mode),
            Command::SetAutoRetransmission(mode) => CommandView::SetAutoRetransmission(*mode),
            Command::Open => CommandView::Open,
            Command::Close => CommandView::Close,
            Command::TransmitFrame(frame) => CommandView::TransmitFrame(frame@),
        }
    }
}

/// The uppercase ASCII hex digit of a nibble value.
pub open spec fn spec_hex_digit(v: int) -> u8
    recommends
        0 <= v < 16,
{
    if v < 10 {
        (48 + v) as u8
    } else {
        (55 + v) as u8
    }
}

/// A value written as `width` uppercase hex digits, most significant first,
/// zero-padded.
pub open spec fn spec_hex_field(v: int, width: nat) -> Seq<u8>
    decreases width,
{
    if width == 0 {
        Seq::empty()
    } else {
        spec_hex_field(v / 16, (width - 1) as nat).push(spec_hex_digit(v % 16))
    }
}

/// Bytes written as hex pairs, most significant nibble first per byte, in
/// the original byte order.
pub open spec fn spec_hex_bytes(data: Seq<u8>) -> Seq<u8>
    decreases data.len(),
{
    if data.len() == 0 {
        Seq::empty()
    } else {
        seq![
            spec_hex_digit((data[0] as int) / 16),
            spec_hex_digit((data[0] as int) % 16),
        ] + spec_hex_bytes(data.drop_first())
    }
}

/// A CAN identifier written as fixed-width hex: 3 digits for standard
/// identifiers, 8 for extended ones.
pub open spec fn spec_id_bytes(id: IdView) -> Seq<u8> {
    match id {
        IdView::Standard(raw) => spec_hex_field(raw as int, 3),
        IdView::Extended(raw) => spec_hex_field(raw as int, 8),
    }
}

/// The transmit command byte of a frame, chosen by frame class, identifier
/// width and frame subtype.
pub open spec fn spec_frame_tag(f: CanFrameView) -> u8 {
    match f {
        CanFrameView::Can2(f2) => match f2.id {
            IdView::Standard(_) => if f2.data is None {
                CommandKind::TransmitStandardRemoteFrame.spec_byte()
            } else {
                CommandKind::TransmitStandardDataFrame.spec_byte()
            },
            IdView::Extended(_) => if f2.data is None {
                CommandKind::TransmitExtendedRemoteFrame.spec_byte()
            } else {
                CommandKind::TransmitExtendedDataFrame.spec_byte()
            },
        },
        CanFrameView::CanFd(fd) => match fd.id {
            IdView::Standard(_) => if fd.bit_rate_switched {
                CommandKind::TransmitStandardFdFrameWithBrs.spec_byte()
            } else {
                CommandKind::TransmitStandardFdFrameNoBrs.spec_byte()
            },
            IdView::Extended(_) => if fd.bit_rate_switched {
                CommandKind::TransmitExtendedFdFrameWithBrs.spec_byte()
            } else {
                CommandKind::TransmitExtendedFdFrameNoBrs.spec_byte()
            },
        },
    }
}

/// The wire bytes of a transmit command for a frame: the tag byte, the
/// identifier as fixed-width hex, one DLC digit (the byte count for CAN
/// 2.0, the wire code for CAN-FD) and the payload as hex pairs.
pub open spec fn spec_frame_bytes(f: CanFrameView) -> Seq<u8> {
    match f {
        CanFrameView::Can2(f2) => seq![spec_frame_tag(f)] + spec_id_bytes(f2.id) + seq![
            spec_hex_digit(f2.dlc as int),
        ] + (match f2.data {
            Some(d) => spec_hex_bytes(d),
            None => Seq::empty(),
        }),
        CanFrameView::CanFd(fd) => seq![spec_frame_tag(f)] + spec_id_bytes(fd.id) + seq![
            spec_hex_digit(
                FdDataLengthCode::spec_for_length(fd.data.len() as int).unwrap().spec_code() as int,
            ),
        ] + spec_hex_bytes(fd.data),
    }
}

/// The wire bytes of a command, without the line terminator.
pub open spec fn spec_command_bytes(c: CommandView) -> Seq<u8> {
    match c {
        CommandView::SetNominalBitRate(rate) => seq![
            CommandKind::SetNominalBitRate.spec_byte(),
            rate.spec_byte(),
        ],
        CommandView::SetDataBitRate(rate) => seq![
            CommandKind::SetDataBitRate.spec_byte(),
            rate.spec_byte(),
        ],
        CommandView::SetMode(mode) => seq![CommandKind::SetMode.spec_byte(), mode.spec_byte()],
        CommandView::SetAutoRetransmission(mode) => seq![
            CommandKind::SetAutoRetransmission.spec_byte(),
            mode.spec_byte(),
        ],
        CommandView::Open => seq![CommandKind::Open.spec_byte()],
        CommandView::Close => seq![CommandKind::Close.spec_byte()],
        CommandView::TransmitFrame(f) => spec_frame_bytes(f),
    }
}

/// Returns the uppercase ASCII hex digit of the low nibble of `value`.
pub fn to_hex_digit(value: u32) -> (r: u8)
    ensures
        r == spec_hex_digit(value as int % 16),
{
    let v: u8 = (value % 16) as u8;
    if v < 10 {
        48 + v
    } else {
        65 + (v - 10)
    }
}

/// Writes `value` as `width` uppercase hex digits, most significant first.
fn hex_field(value: u32, width: usize) -> (r: Vec<u8>)
    ensures
        r@ == spec_hex_field(value as int, width as nat),
    decreases width,
{
    if width == 0 {
        Vec::new()
    } else {
        let mut digits = hex_field(value / 16, width - 1);
        digits.push(to_hex_digit(value));
        digits
    }
}

/// Writes a standard identifier as 3 uppercase hex digits.
fn standard_id_to_hex(id: StandardId) -> (r: Vec<u8>)
    ensures
        r@ == spec_id_bytes(IdView::Standard(id.spec_raw())),
{
    hex_field(id.as_raw() as u32, 3)
}

/// Writes an extended identifier as 8 uppercase hex digits.
fn extended_id_to_hex(id: ExtendedId) -> (r: Vec<u8>)
    ensures
        r@ == spec_id_bytes(IdView::Extended(id.spec_raw())),
{
    hex_field(id.as_raw(), 8)
}

/// Writes bytes as hex pairs, most significant nibble first per byte.
pub fn bytes_to_hex(data: &[u8]) -> (r: Vec<u8>)
    ensures
        r@ == spec_hex_bytes(data@),
{
    let mut buf: Vec<u8> = Vec::new();
    let mut i: usize = 0;
    while i < data.len()
        invariant
            i <= data@.len(),
            buf@ == spec_hex_bytes(data@.take(i as int)),
        decreases data@.len() - i,
    {
        let byte = data[i];
        buf.push(to_hex_digit((byte / 16) as u32));
        buf.push(to_hex_digit(byte as u32));
        i = i + 1;
        proof {
            lemma_hex_bytes_push(data@.take(i - 1), data@[i - 1]);
            assert(data@.take(i - 1).push(data@[i - 1]) =~= data@.take(i as int));
        }
    }
    proof {
        assert(data@.take(data@.len() as int) =~= data@);
    }
    buf
}

/// Appending a byte to the input appends its two hex digits to the output.
proof fn lemma_hex_bytes_push(data: Seq<u8>, byte: u8)
    ensures
        spec_hex_bytes(data.push(byte)) == spec_hex_bytes(data) + seq![
            spec_hex_digit((byte as int) / 16),
            spec_hex_digit((byte as int) % 16),
        ],
    decreases data.len(),
{
    if data.len() == 0 {
        let p = data.push(byte);
        let pair = seq![spec_hex_digit((byte as int) / 16), spec_hex_digit((byte as int) % 16)];
        assert(p.len() == 1);
        assert(p[0] == byte);
        assert(p.drop_first() =~= Seq::<u8>::empty());
        assert(spec_hex_bytes(Seq::<u8>::empty()) == Seq::<u8>::empty());
        assert(spec_hex_bytes(p) == pair + spec_hex_bytes(p.drop_first()));
        assert(spec_hex_bytes(data) == Seq::<u8>::empty());
        assert(pair + Seq::<u8>::empty() =~= pair);
        assert(Seq::<u8>::empty() + pair =~= pair);
    } else {
        let pair = seq![spec_hex_digit((byte as int) / 16), spec_hex_digit((byte as int) % 16)];
        let head = seq![
            spec_hex_digit((data[0] as int) / 16),
            spec_hex_digit((data[0] as int) % 16),
        ];
        assert(data.push(byte).drop_first() =~= data.drop_first().push(byte));
        lemma_hex_bytes_push(data.drop_first(), byte);
        assert(data.push(byte)[0] == data[0]);
        assert(spec_hex_bytes(data.push(byte)) == head + spec_hex_bytes(
            data.drop_first().push(byte),
        ));
        assert(spec_hex_bytes(data.push(byte)) == head + (spec_hex_bytes(data.drop_first())
            + pair));
        assert(head + (spec_hex_bytes(data.drop_first()) + pair) =~= (head + spec_hex_bytes(
            data.drop_first(),
        )) + pair);
        assert(spec_hex_bytes(data) + pair == (head + spec_hex_bytes(data.drop_first())) + pair);
    }
}

impl Command {
    /// Serializes the command into its ASCII wire bytes, without the line
    /// terminator.
    pub fn as_bytes(&self) -> (r: Vec<u8>)
        ensures
            r@ == spec_command_bytes(self@),
    {
        let mut result: Vec<u8> = Vec::new();
        match self {
            Command::SetNominalBitRate(rate) => {
                result.push(CommandKind::SetNominalBitRate.byte());
                result.push(rate.byte());
                proof {
                    assert(result@ =~= spec_command_bytes(self@));
                }
            },
            Command::SetDataBitRate(rate) => {
                result.push(CommandKind::SetDataBitRate.byte());
                result.push(rate.byte());
                proof {
                    assert(result@ =~= spec_command_bytes(self@));
                }
            },
            Command::SetMode(mode) => {
                result.push(CommandKind::SetMode.byte());
                result.push(mode.byte());
                proof {
                    assert(result@ =~= spec_command_bytes(self@));
                }
            },
            Command::SetAutoRetransmission(mode) => {
                result.push(CommandKind::SetAutoRetransmission.byte());
                result.push(mode.byte());
                proof {
                    assert(result@ =~= spec_command_bytes(self@));
                }
            },
            Command::Open => {
                result.push(CommandKind::Open.byte());
                proof {
                    assert(result@ =~= spec_command_bytes(self@));
                }
            },
            Command::Close => {
                result.push(CommandKind::Close.byte());
                proof {
                    assert(result@ =~= spec_command_bytes(self@));
                }
            },
            Command::TransmitFrame(frame) => {
                match frame {
                    CanFrame::Can2(f2) => {
                        match f2.id() {
                            Id::Standard(sid) => {
                                if f2.is_remote() {
                                    result.push(
                                        CommandKind::TransmitStandardRemoteFrame.byte(),
                                    );
                                } else {
                                    result.push(CommandKind::TransmitStandardDataFrame.byte());
                                }
                                let mut id_hex = standard_id_to_hex(sid);
                                result.append(&mut id_hex);
                            },
                            Id::Extended(eid) => {
                                if f2.is_remote() {
                                    result.push(
                                        CommandKind::TransmitExtendedRemoteFrame.byte(),
                                    );
                                } else {
                                    result.push(CommandKind::TransmitExtendedDataFrame.byte());
                                }
                                let mut id_hex = extended_id_to_hex(eid);
                                result.append(&mut id_hex);
                            },
                        }
                        result.push(to_hex_digit(f2.dlc() as u32));
                        match f2.data() {
                            Some(data) => {
                                let mut data_hex = bytes_to_hex(data);
                                result.append(&mut data_hex);
                            },
                            None => {},
                        }
                        proof {
                            assert(result@ =~= spec_command_bytes(self@));
                        }
                    },
                    CanFrame::CanFd(fd) => {
                        match fd.id() {
                            Id::Standard(sid) => {
                                if fd.is_bit_rate_switched() {
                                    result.push(
                                        CommandKind::TransmitStandardFdFrameWithBrs.byte(),
                                    );
                                } else {
                                    result.push(
                                        CommandKind::TransmitStandardFdFrameNoBrs.byte(),
                                    );
                                }
                                let mut id_hex = standard_id_to_hex(sid);
                                result.append(&mut id_hex);
                            },
                            Id::Extended(eid) => {
                                if fd.is_bit_rate_switched() {
                                    result.push(
                                        CommandKind::TransmitExtendedFdFrameWithBrs.byte(),
                                    );
                                } else {
                                    result.push(
                                        CommandKind::TransmitExtendedFdFrameNoBrs.byte(),
                                    );
                                }
                                let mut id_hex = extended_id_to_hex(eid);
                                result.append(&mut id_hex);
                            },
                        }
                        result.push(to_hex_digit(fd.dlc().code() as u32));
                        let mut data_hex = bytes_to_hex(fd.data());
                        result.append(&mut data_hex);
                        proof {
                            assert(result@ =~= spec_command_bytes(self@));
                        }
                    },
                }
            },
        }
        result
    }

    /// Serializes the command and appends the line terminator: the whole
    /// wire line, meant to be written and flushed as one indivisible
    /// operation.
    pub fn to_wire_line(&self) -> (r: Vec<u8>)
        ensures
            r@ == spec_command_bytes(self@).push(crate::framer::LINE_TERMINATOR),
    {
        let mut buffer = self.as_bytes();
        buffer.push(crate::framer::LINE_TERMINATOR);
        buffer
    }
}

} // verus!
