//! Value types for CAN 2.0 and CAN-FD frames, CAN identifiers and the CAN-FD
//! data length code table.

use vstd::prelude::*;

verus! {

/// Largest raw value of an 11-bit standard CAN identifier.
pub const STANDARD_ID_MAX: u16 = 0x7FF;

/// Largest raw value of a 29-bit extended CAN identifier.
pub const EXTENDED_ID_MAX: u32 = 0x1FFF_FFFF;

/// An 11-bit standard CAN message identifier, always in `0..=0x7FF`.
#[derive(Debug, Clone, Copy, PartialEq, Eq, Structural)]
pub struct StandardId {
    raw: u16,
}

impl StandardId {
    #[verifier::type_invariant]
    spec fn inv(self) -> bool {
        self.raw <= STANDARD_ID_MAX
    }

    /// The raw identifier value.
    pub closed spec fn spec_raw(self) -> u16 {
        self.raw
    }

    /// Accepts exactly the values `0..=0x7FF`.
    pub fn new(raw: u16) -> (r: Option<StandardId>)
        ensures
            r is Some <==> raw <= STANDARD_ID_MAX,
            r matches Some(id) ==> id.spec_raw() == raw,
    {
        if raw <= STANDARD_ID_MAX {
            Some(StandardId { raw })
        } else {
            None
        }
    }

    /// Returns the raw identifier value.
    pub fn as_raw(&self) -> (r: u16)
        ensures
            r == self.spec_raw(),
            r <= STANDARD_ID_MAX,
    {
        proof {
            use_type_invariant(self);
        }
        self.raw
    }
}

/// A 29-bit extended CAN message identifier, always in `0..=0x1FFF_FFFF`.
#[derive(Debug, Clone, Copy, PartialEq, Eq, Structural)]
pub struct ExtendedId {
    raw: u32,
}

impl ExtendedId {
    #[verifier::type_invariant]
    spec fn inv(self) -> bool {
        self.raw <= EXTENDED_ID_MAX
    }

    /// The raw identifier value.
    pub closed spec fn spec_raw(self) -> u32 {
        self.raw
    }

    /// Accepts exactly the values `0..=0x1FFF_FFFF`.
    pub fn new(raw: u32) -> (r: Option<ExtendedId>)
        ensures
            r is Some <==> raw <= EXTENDED_ID_MAX,
            r matches Some(id) ==> id.spec_raw() == raw,
    {
        if raw <= EXTENDED_ID_MAX {
            Some(ExtendedId { raw })
        } else {
            None
        }
    }

    /// Returns the raw identifier value.
    pub fn as_raw(&self) -> (r: u32)
        ensures
            r == self.spec_raw(),
            r <= EXTENDED_ID_MAX,
    {
        proof {
            use_type_invariant(self);
        }
        self.raw
    }
}

/// A CAN message identifier: standard (11-bit) or extended (29-bit).
#[derive(Debug, Clone, Copy, PartialEq, Eq, Structural)]
pub enum Id {
    Standard(StandardId),
    Extended(ExtendedId),
}

/// Mathematical model of a CAN identifier: the raw value with its width.
pub ghost enum IdView {
    Standard(u16),
    Extended(u32),
}

/// The raw value lies within the bit width of its variant.
pub open spec fn id_view_valid(id: IdView) -> bool {
    match id {
        IdView::Standard(raw) => raw <= STANDARD_ID_MAX,
        IdView::Extended(raw) => raw <= EXTENDED_ID_MAX,
    }
}

impl View for Id {
    type V = IdView;

    open spec fn view(&self) -> IdView {
        match self {
            Id::Standard(id) => IdView::Standard(id.spec_raw()),
            Id::Extended(id) => IdView::Extended(id.spec_raw()),
        }
    }
}

/// Records in the proof state that an identifier obtained from executable
/// code lies within the bit width of its variant.
pub(crate) fn note_id_valid(id: &Id)
    ensures
        id_view_valid(id@),
{
    match id {
        Id::Standard(s) => {
            proof {
                use_type_invariant(s);
            }
        },
        Id::Extended(e) => {
            proof {
                use_type_invariant(e);
            }
        },
    }
}

/// All the data length codes a CAN-FD frame can carry. The wire code
/// (`0..=15`) is a distinct numbering from the byte count it denotes; see
/// [`FdDataLengthCode::get_num_bytes`].
#[derive(Debug, Clone, Copy, PartialEq, Eq, Structural)]
pub enum FdDataLengthCode {
    Bytes0,
    Bytes1,
    Bytes2,
    Bytes3,
    Bytes4,
    Bytes5,
    Bytes6,
    Bytes7,
    Bytes8,
    Bytes12,
    Bytes16,
    Bytes20,
    Bytes24,
    Bytes32,
    Bytes48,
    Bytes64,
}

/// Whether `n` is one of the sixteen byte counts a CAN-FD frame may carry.
pub open spec fn is_fd_len(n: int) -> bool {
    (0 <= n <= 8) || n == 12 || n == 16 || n == 20 || n == 24 || n == 32 || n == 48 || n == 64
}

impl FdDataLengthCode {
    /// The wire code (`0..=15`) of this data length code.
    pub open spec fn spec_code(self) -> u8 {
        match self {
            FdDataLengthCode::Bytes0 => 0,
            FdDataLengthCode::Bytes1 => 1,
            FdDataLengthCode::Bytes2 => 2,
            FdDataLengthCode::Bytes3 => 3,
            FdDataLengthCode::Bytes4 => 4,
            FdDataLengthCode::Bytes5 => 5,
            FdDataLengthCode::Bytes6 => 6,
            FdDataLengthCode::Bytes7 => 7,
            FdDataLengthCode::Bytes8 => 8,
            FdDataLengthCode::Bytes12 => 9,
            FdDataLengthCode::Bytes16 => 10,
            FdDataLengthCode::Bytes20 => 11,
            FdDataLengthCode::Bytes24 => 12,
            FdDataLengthCode::Bytes32 => 13,
            FdDataLengthCode::Bytes48 => 14,
            FdDataLengthCode::Bytes64 => 15,
        }
    }

    /// The byte count this data length code denotes.
    pub open spec fn spec_num_bytes(self) -> usize {
        match self {
            FdDataLengthCode::Bytes0 => 0,
            FdDataLengthCode::Bytes1 => 1,
            FdDataLengthCode::Bytes2 => 2,
            FdDataLengthCode::Bytes3 => 3,
            FdDataLengthCode::Bytes4 => 4,
            FdDataLengthCode::Bytes5 => 5,
            FdDataLengthCode::Bytes6 => 6,
            FdDataLengthCode::Bytes7 => 7,
            FdDataLengthCode::Bytes8 => 8,
            FdDataLengthCode::Bytes12 => 12,
            FdDataLengthCode::Bytes16 => 16,
            FdDataLengthCode::Bytes20 => 20,
            FdDataLengthCode::Bytes24 => 24,
            FdDataLengthCode::Bytes32 => 32,
            FdDataLengthCode::Bytes48 => 48,
            FdDataLengthCode::Bytes64 => 64,
        }
    }

    /// The data length code with the given wire code (`0..=15`).
    pub open spec fn spec_from_code(code: u8) -> FdDataLengthCode
        recommends
            code < 16,
    {
        if code == 0 {
            FdDataLengthCode::Bytes0
        } else if code == 1 {
            FdDataLengthCode::Bytes1
        } else if code == 2 {
            FdDataLengthCode::Bytes2
        } else if code == 3 {
            FdDataLengthCode::Bytes3
        } else if code == 4 {
            FdDataLengthCode::Bytes4
        } else if code == 5 {
            FdDataLengthCode::Bytes5
        } else if code == 6 {
            FdDataLengthCode::Bytes6
        } else if code == 7 {
            FdDataLengthCode::Bytes7
        } else if code == 8 {
            FdDataLengthCode::Bytes8
        } else if code == 9 {
            FdDataLengthCode::Bytes12
        } else if code == 10 {
            FdDataLengthCode::Bytes16
        } else if code == 11 {
            FdDataLengthCode::Bytes20
        } else if code == 12 {
            FdDataLengthCode::Bytes24
        } else if code == 13 {
            FdDataLengthCode::Bytes32
        } else if code == 14 {
            FdDataLengthCode::Bytes48
        } else {
            FdDataLengthCode::Bytes64
        }
    }

    /// The smallest data length code whose byte count is at least `n`, or
    /// `None` for `n > 64`.
    pub open spec fn spec_for_length(n: int) -> Option<FdDataLengthCode> {
        if 0 <= n <= 8 {
            Some(FdDataLengthCode::spec_from_code(n as u8))
        } else if n <= 12 {
            Some(FdDataLengthCode::Bytes12)
        } else if n <= 16 {
            Some(FdDataLengthCode::Bytes16)
        } else if n <= 20 {
            Some(FdDataLengthCode::Bytes20)
        } else if n <= 24 {
            Some(FdDataLengthCode::Bytes24)
        } else if n <= 32 {
            Some(FdDataLengthCode::Bytes32)
        } else if n <= 48 {
            Some(FdDataLengthCode::Bytes48)
        } else if n <= 64 {
            Some(FdDataLengthCode::Bytes64)
        } else {
            None
        }
    }

    /// Returns the wire code (`0..=15`) of this data length code.
    pub fn code(&self) -> (r: u8)
        ensures
            r == self.spec_code(),
            r < 16,
    {
        match self {
            FdDataLengthCode::Bytes0 => 0,
            FdDataLengthCode::Bytes1 => 1,
            FdDataLengthCode::Bytes2 => 2,
            FdDataLengthCode::Bytes3 => 3,
            FdDataLengthCode::Bytes4 => 4,
            FdDataLengthCode::Bytes5 => 5,
            FdDataLengthCode::Bytes6 => 6,
            FdDataLengthCode::Bytes7 => 7,
            FdDataLengthCode::Bytes8 => 8,
            FdDataLengthCode::Bytes12 => 9,
            FdDataLengthCode::Bytes16 => 10,
            FdDataLengthCode::Bytes20 => 11,
            FdDataLengthCode::Bytes24 => 12,
            FdDataLengthCode::Bytes32 => 13,
            FdDataLengthCode::Bytes48 => 14,
            FdDataLengthCode::Bytes64 => 15,
        }
    }

    /// Returns the data length code with the given wire code, or `None` for
    /// codes above 15.
    pub fn from_code(code: u8) -> (r: Option<FdDataLengthCode>)
        ensures
            r is Some <==> code < 16,
            r matches Some(c) ==> c == FdDataLengthCode::spec_from_code(code),
    {
        if code < 16 {
            Some(
                if code == 0 {
                    FdDataLengthCode::Bytes0
                } else if code == 1 {
                    FdDataLengthCode::Bytes1
                } else if code == 2 {
                    FdDataLengthCode::Bytes2
                } else if code == 3 {
                    FdDataLengthCode::Bytes3
                } else if code == 4 {
                    FdDataLengthCode::Bytes4
                } else if code == 5 {
                    FdDataLengthCode::Bytes5
                } else if code == 6 {
                    FdDataLengthCode::Bytes6
                } else if code == 7 {
                    FdDataLengthCode::Bytes7
                } else if code == 8 {
                    FdDataLengthCode::Bytes8
                } else if code == 9 {
                    FdDataLengthCode::Bytes12
                } else if code == 10 {
                    FdDataLengthCode::Bytes16
                } else if code == 11 {
                    FdDataLengthCode::Bytes20
                } else if code == 12 {
                    FdDataLengthCode::Bytes24
                } else if code == 13 {
                    FdDataLengthCode::Bytes32
                } else if code == 14 {
                    FdDataLengthCode::Bytes48
                } else {
                    FdDataLengthCode::Bytes64
                },
            )
        } else {
            None
        }
    }

    /// Returns the next data length code whose byte count is at least
    /// `length`; values over 64 return `None`.
    pub fn for_length(length: usize) -> (r: Option<FdDataLengthCode>)
        ensures
            r == FdDataLengthCode::spec_for_length(length as int),
    {
        if length <= 8 {
            FdDataLengthCode::from_code(length as u8)
        } else if length <= 12 {
            Some(FdDataLengthCode::Bytes12)
        } else if length <= 16 {
            Some(FdDataLengthCode::Bytes16)
        } else if length <= 20 {
            Some(FdDataLengthCode::Bytes20)
        } else if length <= 24 {
            Some(FdDataLengthCode::Bytes24)
        } else if length <= 32 {
            Some(FdDataLengthCode::Bytes32)
        } else if length <= 48 {
            Some(FdDataLengthCode::Bytes48)
        } else if length <= 64 {
            Some(FdDataLengthCode::Bytes64)
        } else {
            None
        }
    }

    /// Returns the byte count this data length code denotes, which is
    /// distinct from its wire code.
    pub fn get_num_bytes(&self) -> (r: usize)
        ensures
            r == self.spec_num_bytes(),
    {
        match self {
            FdDataLengthCode::Bytes0 => 0,
            FdDataLengthCode::Bytes1 => 1,
            FdDataLengthCode::Bytes2 => 2,
            FdDataLengthCode::Bytes3 => 3,
            FdDataLengthCode::Bytes4 => 4,
            FdDataLengthCode::Bytes5 => 5,
            FdDataLengthCode::Bytes6 => 6,
            FdDataLengthCode::Bytes7 => 7,
            FdDataLengthCode::Bytes8 => 8,
            FdDataLengthCode::Bytes12 => 12,
            FdDataLengthCode::Bytes16 => 16,
            FdDataLengthCode::Bytes20 => 20,
            FdDataLengthCode::Bytes24 => 24,
            FdDataLengthCode::Bytes32 => 32,
            FdDataLengthCode::Bytes48 => 48,
            FdDataLengthCode::Bytes64 => 64,
        }
    }
}

/// The wire codes and the byte counts are both distinct across the sixteen
/// data length codes, every byte count is a legal CAN-FD length, and the
/// wire code maps back to the same data length code: the table is a
/// bijection between the codes `0..=15` and the legal lengths.
pub proof fn lemma_fd_code_table_bijective(a: FdDataLengthCode, b: FdDataLengthCode)
    ensures
        a.spec_code() < 16,
        is_fd_len(a.spec_num_bytes() as int),
        FdDataLengthCode::spec_from_code(a.spec_code()) == a,
        a != b ==> a.spec_code() != b.spec_code(),
        a != b ==> a.spec_num_bytes() != b.spec_num_bytes(),
{
}

/// On a length that is itself legal, `for_length` is exact: it returns the
/// data length code denoting precisely that byte count.
pub proof fn lemma_for_length_exact(n: int)
    requires
        is_fd_len(n),
    ensures
        FdDataLengthCode::spec_for_length(n) matches Some(c) && c.spec_num_bytes() == n,
{
}

/// For any length up to 64, `for_length` returns the smallest legal byte
/// count at least as large as the length: a ceiling over the table.
pub proof fn lemma_for_length_ceiling(n: int)
    requires
        0 <= n <= 64,
    ensures
        FdDataLengthCode::spec_for_length(n) matches Some(c) && n <= c.spec_num_bytes()
            && is_fd_len(c.spec_num_bytes() as int) && (forall|d: FdDataLengthCode|
            n <= d.spec_num_bytes() ==> c.spec_num_bytes() <= d.spec_num_bytes()),
{
}

/// `for_length` is monotonic in the requested length.
pub proof fn lemma_for_length_monotonic(m: int, n: int)
    requires
        0 <= m <= n <= 64,
    ensures
        FdDataLengthCode::spec_for_length(m) matches Some(c) && (
        FdDataLengthCode::spec_for_length(n) matches Some(d)
            && c.spec_num_bytes() <= d.spec_num_bytes()),
{
}

/// Mathematical model of a CAN 2.0 frame. `data` is present exactly for
/// data frames; remote frames carry none.
pub ghost struct Can2FrameView {
    pub id: IdView,
    pub dlc: nat,
    pub data: Option<Seq<u8>>,
}

/// The identifier is in range, the length code is at most 8, and a data
/// frame carries exactly `dlc` bytes.
pub open spec fn can2_view_valid(f: Can2FrameView) -> bool {
    &&& id_view_valid(f.id)
    &&& f.dlc <= 8
    &&& (f.data matches Some(d) ==> d.len() == f.dlc)
}

/// Whether two byte slices hold the same bytes.
fn bytes_eq(a: &[u8], b: &[u8]) -> (r: bool)
    ensures
        r == (a@ == b@),
{
    if a.len() != b.len() {
        return false;
    }
    let mut i: usize = 0;
    while i < a.len()
        invariant
            i <= a@.len(),
            a@.len() == b@.len(),
            forall|j: int| 0 <= j < i ==> a@[j] == b@[j],
        decreases a@.len() - i,
    {
        if a[i] != b[i] {
            return false;
        }
        i = i + 1;
    }
    proof {
        assert(a@ =~= b@);
    }
    true
}

/// Copies a byte slice into a fresh vector.
fn copy_bytes(data: &[u8]) -> (r: Vec<u8>)
    ensures
        r@ == data@,
{
    let mut copy: Vec<u8> = Vec::new();
    let mut i: usize = 0;
    while i < data.len()
        invariant
            i <= data@.len(),
            copy@ == data@.take(i as int),
        decreases data@.len() - i,
    {
        copy.push(data[i]);
        i = i + 1;
        proof {
            assert(copy@ =~= data@.take(i as int));
        }
    }
    proof {
        assert(copy@ =~= data@);
    }
    copy
}

/// A CAN 2.0 frame: up to 8 data bytes, or a remote (RTR) frame carrying
/// none.
#[derive(Debug)]
pub struct Can2Frame {
    id: Id,
    dlc: usize,
    data: Option<Vec<u8>>,
}

impl View for Can2Frame {
    type V = Can2FrameView;

    closed spec fn view(&self) -> Can2FrameView {
        Can2FrameView {
            id: self.id@,
            dlc: self.dlc as nat,
            data: match self.data {
                Some(d) => Some(d@),
                None => None,
            },
        }
    }
}

impl Can2Frame {
    #[verifier::type_invariant]
    spec fn inv(self) -> bool {
        can2_view_valid(self@)
    }

    /// Creates a new CAN 2.0 data frame; `data` must hold at most 8 bytes
    /// or `None` is returned instead.
    pub fn new_data(id: Id, data: &[u8]) -> (r: Option<Can2Frame>)
        ensures
            r is Some <==> data@.len() <= 8,
            r matches Some(f) ==> f@ == (Can2FrameView {
                id: id@,
                dlc: data@.len(),
                data: Some(data@),
            }),
    {
        if data.len() > 8 {
            return None;
        }
        note_id_valid(&id);
        let copy = copy_bytes(data);
        Some(Can2Frame { id, dlc: data.len(), data: Some(copy) })
    }

    /// Creates a new CAN 2.0 remote frame; `dlc` must be in `0..=8` or
    /// `None` is returned instead.
    pub fn new_remote(id: Id, dlc: usize) -> (r: Option<Can2Frame>)
        ensures
            r is Some <==> dlc <= 8,
            r matches Some(f) ==> f@ == (Can2FrameView { id: id@, dlc: dlc as nat, data: None }),
    {
        if dlc > 8 {
            return None;
        }
        note_id_valid(&id);
        Some(Can2Frame { id, dlc, data: None })
    }

    /// Returns the message identifier of the frame.
    pub fn id(&self) -> (r: Id)
        ensures
            r@ == self@.id,
            id_view_valid(self@.id),
    {
        proof {
            use_type_invariant(self);
        }
        self.id
    }

    /// Returns the data length code of the frame.
    pub fn dlc(&self) -> (r: usize)
        ensures
            r == self@.dlc,
            r <= 8,
    {
        proof {
            use_type_invariant(self);
        }
        self.dlc
    }

    /// Returns the data carried by the frame, or `None` for a remote frame.
    pub fn data(&self) -> (r: Option<&[u8]>)
        ensures
            match r {
                Some(d) => self@.data == Some(d@) && d@.len() == self@.dlc,
                None => self@.data is None,
            },
    {
        proof {
            use_type_invariant(self);
        }
        match &self.data {
            Some(d) => Some(d.as_slice()),
            None => None,
        }
    }

    /// Returns whether this is a remote (RTR) frame.
    pub fn is_remote(&self) -> (r: bool)
        ensures
            r == (self@.data is None),
    {
        self.data.is_none()
    }
}

impl PartialEq for Can2Frame {
    /// Two frames are equal when their models are: same identifier, same
    /// length code, and the same data or both remote.
    fn eq(&self, other: &Self) -> (r: bool) {
        self.id == other.id && self.dlc == other.dlc && (match (&self.data, &other.data) {
            (Some(a), Some(b)) => bytes_eq(a.as_slice(), b.as_slice()),
            (None, None) => true,
            _ => false,
        })
    }
}

impl vstd::std_specs::cmp::PartialEqSpecImpl for Can2Frame {
    open spec fn obeys_eq_spec() -> bool {
        true
    }

    open spec fn eq_spec(&self, other: &Self) -> bool {
        self@ == other@
    }
}

impl Clone for Can2Frame {
    /// The clone carries the same identifier, length code and data.
    fn clone(&self) -> (r: Self)
        ensures
            r@ == self@,
    {
        proof {
            use_type_invariant(self);
        }
        Can2Frame {
            id: self.id,
            dlc: self.dlc,
            data: match &self.data {
                Some(d) => Some(copy_bytes(d.as_slice())),
                None => None,
            },
        }
    }
}

/// Mathematical model of a CAN-FD frame.
pub ghost struct CanFdFrameView {
    pub id: IdView,
    pub data: Seq<u8>,
    pub bit_rate_switched: bool,
}

/// The identifier is in range and the data length is one of the sixteen
/// legal CAN-FD byte counts.
pub open spec fn can_fd_view_valid(f: CanFdFrameView) -> bool {
    &&& id_view_valid(f.id)
    &&& is_fd_len(f.data.len() as int)
}

/// The bytes held by a fixed-capacity CAN-FD payload buffer, in order.
pub uninterp spec fn fd_buffer_bytes(v: heapless::Vec<u8, 64>) -> Seq<u8>;

#[verifier::external_type_specification]
#[verifier::external_body]
#[verifier::reject_recursive_types(T)]
pub struct ExHeaplessVec<T, const N: usize>(heapless::Vec<T, N>);

/// Relies on `heapless::Vec::from_slice`: it copies the slice into a fresh
/// vector when the slice fits within the fixed capacity, and refuses longer
/// slices.
#[verifier::external_body]
fn fd_buffer_from_slice(data: &[u8]) -> (r: Option<heapless::Vec<u8, 64>>)
    ensures
        r is Some <==> data@.len() <= 64,
        r matches Some(v) ==> fd_buffer_bytes(v) == data@,
{
    heapless::Vec::from_slice(data).ok()
}

/// Relies on `heapless::Vec`'s `PartialEq`, which compares the stored
/// element sequences.
#[verifier::external_body]
fn fd_buffer_eq(a: &heapless::Vec<u8, 64>, b: &heapless::Vec<u8, 64>) -> (r: bool)
    ensures
        r == (fd_buffer_bytes(*a) == fd_buffer_bytes(*b)),
{
    a == b
}

/// Relies on `heapless::Vec::clone`: the clone holds the same bytes as the
/// original.
#[verifier::external_body]
fn fd_buffer_clone(v: &heapless::Vec<u8, 64>) -> (r: heapless::Vec<u8, 64>)
    ensures
        fd_buffer_bytes(r) == fd_buffer_bytes(*v),
{
    v.clone()
}

/// Relies on `heapless::Vec::as_slice`: it exposes the stored bytes in
/// order.
#[verifier::external_body]
fn fd_buffer_as_slice(v: &heapless::Vec<u8, 64>) -> (r: &[u8])
    ensures
        r@ == fd_buffer_bytes(*v),
{
    v.as_slice()
}

/// A CAN-FD frame: up to 64 data bytes whose count is always one of the
/// sixteen legal CAN-FD lengths, optionally transmitted with the higher
/// data bit rate (enabled by default).
#[derive(Debug)]
pub struct CanFdFrame {
    id: Id,
    data: heapless::Vec<u8, 64>,
    bit_rate_switched: bool,
}

impl View for CanFdFrame {
    type V = CanFdFrameView;

    closed spec fn view(&self) -> CanFdFrameView {
        CanFdFrameView {
            id: self.id@,
            data: fd_buffer_bytes(self.data),
            bit_rate_switched: self.bit_rate_switched,
        }
    }
}

impl CanFdFrame {
    #[verifier::type_invariant]
    spec fn inv(self) -> bool {
        can_fd_view_valid(self@)
    }

    /// Creates a new CAN-FD frame; returns `None` unless the data length is
    /// one of the sixteen legal CAN-FD byte counts.
    pub fn new(id: Id, data: &[u8]) -> (r: Option<CanFdFrame>)
        ensures
            r is Some <==> is_fd_len(data@.len() as int),
            r matches Some(f) ==> f@ == (CanFdFrameView {
                id: id@,
                data: data@,
                bit_rate_switched: true,
            }),
    {
        if !is_legal_fd_length(data.len()) {
            return None;
        }
        note_id_valid(&id);
        let buffer = fd_buffer_from_slice(data);
        match buffer {
            Some(b) => Some(CanFdFrame { id, data: b, bit_rate_switched: true }),
            None => None,
        }
    }

    /// Creates a new CAN-FD frame, zero-padding the data up to the next
    /// legal CAN-FD byte count; returns `None` for more than 64 bytes.
    pub fn new_padded(id: Id, data: &[u8]) -> (r: Option<CanFdFrame>)
        ensures
            r is Some <==> data@.len() <= 64,
            r matches Some(f) ==> (FdDataLengthCode::spec_for_length(data@.len() as int)
                matches Some(c) && f@ == (CanFdFrameView {
                id: id@,
                data: data@ + Seq::new((c.spec_num_bytes() - data@.len()) as nat, |i: int| 0u8),
                bit_rate_switched: true,
            })),
    {
        let code = match FdDataLengthCode::for_length(data.len()) {
            Some(c) => c,
            None => {
                return None;
            },
        };
        proof {
            lemma_for_length_ceiling(data@.len() as int);
        }
        note_id_valid(&id);
        let target: usize = code.get_num_bytes();
        let mut padded: Vec<u8> = copy_bytes(data);
        proof {
            assert(padded@ =~= data@ + Seq::new((padded@.len() - data@.len()) as nat, |i: int| 0u8));
        }
        while padded.len() < target
            invariant
                data@.len() <= target <= 64,
                data@.len() <= padded@.len() <= target,
                padded@ == data@ + Seq::new((padded@.len() - data@.len()) as nat, |i: int| 0u8),
            decreases target - padded@.len(),
        {
            padded.push(0);
            proof {
                assert(padded@ =~= data@ + Seq::new(
                    (padded@.len() - data@.len()) as nat,
                    |i: int| 0u8,
                ));
            }
        }
        let buffer = match fd_buffer_from_slice(padded.as_slice()) {
            Some(b) => b,
            None => {
                return None;
            },
        };
        Some(CanFdFrame { id, data: buffer, bit_rate_switched: true })
    }

    /// Returns the message identifier of the frame.
    pub fn id(&self) -> (r: Id)
        ensures
            r@ == self@.id,
            id_view_valid(self@.id),
    {
        proof {
            use_type_invariant(self);
        }
        self.id
    }

    /// Returns the data length code matching the frame's byte count.
    pub fn dlc(&self) -> (r: FdDataLengthCode)
        ensures
            FdDataLengthCode::spec_for_length(self@.data.len() as int) == Some(r),
            r.spec_num_bytes() == self@.data.len(),
    {
        proof {
            use_type_invariant(self);
            lemma_for_length_exact(self@.data.len() as int);
        }
        let s = fd_buffer_as_slice(&self.data);
        FdDataLengthCode::for_length(s.len()).unwrap()
    }

    /// Returns the data carried by the frame; its length matches the DLC.
    pub fn data(&self) -> (r: &[u8])
        ensures
            r@ == self@.data,
            is_fd_len(r@.len() as int),
    {
        proof {
            use_type_invariant(self);
        }
        fd_buffer_as_slice(&self.data)
    }

    /// Returns whether the frame should be, or was, transmitted with the
    /// higher data bit rate.
    pub fn is_bit_rate_switched(&self) -> (r: bool)
        ensures
            r == self@.bit_rate_switched,
    {
        self.bit_rate_switched
    }

    /// Sets whether the frame should be transmitted with the higher data
    /// bit rate.
    pub fn set_bit_rate_switched(&mut self, bit_rate_switched: bool)
        ensures
            final(self)@ == (CanFdFrameView { bit_rate_switched, ..old(self)@ }),
    {
        proof {
            use_type_invariant(&*self);
        }
        self.bit_rate_switched = bit_rate_switched;
    }

    /// Consumes the frame and returns it with the supplied value for
    /// `bit_rate_switched`.
    pub fn with_bit_rate_switched(self, bit_rate_switched: bool) -> (r: CanFdFrame)
        ensures
            r@ == (CanFdFrameView { bit_rate_switched, ..self@ }),
    {
        proof {
            use_type_invariant(&self);
        }
        let mut frame = self;
        frame.bit_rate_switched = bit_rate_switched;
        frame
    }
}

impl PartialEq for CanFdFrame {
    /// Two frames are equal when their models are: same identifier, same
    /// data, and the same bit rate switch flag.
    fn eq(&self, other: &Self) -> (r: bool) {
        self.id == other.id && self.bit_rate_switched == other.bit_rate_switched && fd_buffer_eq(
            &self.data,
            &other.data,
        )
    }
}

impl vstd::std_specs::cmp::PartialEqSpecImpl for CanFdFrame {
    open spec fn obeys_eq_spec() -> bool {
        true
    }

    open spec fn eq_spec(&self, other: &Self) -> bool {
        self@ == other@
    }
}

impl Clone for CanFdFrame {
    /// The clone carries the same identifier, data and bit rate switch
    /// flag.
    fn clone(&self) -> (r: Self)
        ensures
            r@ == self@,
    {
        proof {
            use_type_invariant(self);
        }
        CanFdFrame {
            id: self.id,
            data: fd_buffer_clone(&self.data),
            bit_rate_switched: self.bit_rate_switched,
        }
    }
}

/// Whether `length` is one of the sixteen legal CAN-FD byte counts.
fn is_legal_fd_length(length: usize) -> (r: bool)
    ensures
        r == is_fd_len(length as int),
{
    length <= 8 || length == 12 || length == 16 || length == 20 || length == 24 || length == 32
        || length == 48 || length == 64
}

/// Mathematical model of a frame exchanged with the gateway: CAN 2.0 or
/// CAN-FD.
pub ghost enum CanFrameView {
    Can2(Can2FrameView),
    CanFd(CanFdFrameView),
}

/// Validity of the underlying frame model.
pub open spec fn can_frame_view_valid(f: CanFrameView) -> bool {
    match f {
        CanFrameView::Can2(f2) => can2_view_valid(f2),
        CanFrameView::CanFd(fd) => can_fd_view_valid(fd),
    }
}

/// A frame exchanged with the gateway: either CAN 2.0 or CAN-FD.
#[derive(Debug)]
pub enum CanFrame {
    Can2(Can2Frame),
    CanFd(CanFdFrame),
}

impl View for CanFrame {
    type V = CanFrameView;

    open spec fn view(&self) -> CanFrameView {
        match self {
            CanFrame::Can2(f) => CanFrameView::Can2(f@),
            CanFrame::CanFd(f) => CanFrameView::CanFd(f@),
        }
    }
}

impl PartialEq for CanFrame {
    /// Two frames are equal when their models are.
    fn eq(&self, other: &Self) -> (r: bool) {
        match (self, other) {
            (CanFrame::Can2(a), CanFrame::Can2(b)) => a == b,
            (CanFrame::CanFd(a), CanFrame::CanFd(b)) => a == b,
            _ => false,
        }
    }
}

impl vstd::std_specs::cmp::PartialEqSpecImpl for CanFrame {
    open spec fn obeys_eq_spec() -> bool {
        true
    }

    open spec fn eq_spec(&self, other: &Self) -> bool {
        self@ == other@
    }
}

impl Clone for CanFrame {
    /// The clone carries the same model as the original frame.
    fn clone(&self) -> (r: Self)
        ensures
            r@ == self@,
    {
        match self {
            CanFrame::Can2(f) => CanFrame::Can2(f.clone()),
            CanFrame::CanFd(f) => CanFrame::CanFd(f.clone()),
        }
    }
}

impl From<Can2Frame> for CanFrame {
    fn from(frame: Can2Frame) -> (r: CanFrame) {
        CanFrame::Can2(frame)
    }
}

impl vstd::std_specs::convert::FromSpecImpl<Can2Frame> for CanFrame {
    open spec fn obeys_from_spec() -> bool {
        true
    }

    open spec fn from_spec(frame: Can2Frame) -> CanFrame {
        CanFrame::Can2(frame)
    }
}

impl From<CanFdFrame> for CanFrame {
    fn from(frame: CanFdFrame) -> (r: CanFrame) {
        CanFrame::CanFd(frame)
    }
}

impl vstd::std_specs::convert::FromSpecImpl<CanFdFrame> for CanFrame {
    open spec fn obeys_from_spec() -> bool {
        true
    }

    open spec fn from_spec(frame: CanFdFrame) -> CanFrame {
        CanFrame::CanFd(frame)
    }
}

} // verus!
