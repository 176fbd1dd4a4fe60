use vstd::prelude::*;
use vstd::slice::{slice_subrange, slice_to_vec};
use crate::error::DecodeError;
use crate::utils::{
    le_bytes, le_value, lemma_le_bytes_of_value, lemma_le_value_of_bytes, lemma_value_of_prefix,
    slice_to_u32_ntoh, u32_to_vec_hton,
};

verus! {

pub const BASE_RESERVED: u32 = 0;
pub const BASE_EXTENSIONS: u32 = 20000;
pub const BASE_USER: u32 = 40000;
pub const BASE_TEMP: u32 = 60000;
pub const META_TYPE_NONE: u32 = 0;
pub const META_TYPE_STRING: u32 = 0x10000;
pub const META_TYPE_UINT: u32 = 0x20000;
pub const META_TYPE_RAW: u32 = 0x40000;
pub const META_TYPE_BOOL: u32 = 0x80000;
pub const META_TYPE_QWORD: u32 = 0x100000;
pub const META_TYPE_COMPRESSED: u32 = 0x20000000;
pub const META_TYPE_GROUP: u32 = 0x40000000;
pub const META_TYPE_COMPLEX: u32 = 0x80000000;
pub const LOAD_LIBRARY_FLAG_ON_DISK: u32 = 1;
pub const LOAD_LIBRARY_FLAG_EXTENSION: u32 = 2;
pub const LOAD_LIBRARY_FLAG_LOCAL: u32 = 4;
pub const CHANNEL_FLAG_SYNCHRONOUS: u32 = 1;
pub const CHANNEL_FLAG_COMPRESS: u32 = 2;

/// Largest length, in bytes, that a decoder accepts from a length field.
pub const MAX_DECLARED_LENGTH: u32 = 0x400_0000;

/// Bytes that a packet kind takes on the wire.
pub const TLV_PACKET_TYPE_SIZE: usize = 4;

/// What a packet is: a request or a response, encrypted or plain.
#[derive(Clone, Copy, Debug, PartialEq, Eq, Structural, Hash)]
pub enum TlvPacketType {
    Request,
    Response,
    PlainRequest,
    PlainResponse,
    Invalid,
}

impl TlvPacketType {
    /// The number that stands for this kind on the wire.
    pub open spec fn code(self) -> u32 {
        match self {
            TlvPacketType::Request => 0,
            TlvPacketType::Response => 1,
            TlvPacketType::PlainRequest => 10,
            TlvPacketType::PlainResponse => 11,
            TlvPacketType::Invalid => 0xFFFF,
        }
    }

    /// Whether some kind has `code` as its number.
    pub open spec fn is_assigned(code: u32) -> bool {
        exists|kind: TlvPacketType| kind.code() == code
    }

    /// The kind that `code` stands for: the one with that number, and
    /// `Invalid` where there is none.
    pub open spec fn from_code(code: u32) -> TlvPacketType {
        if Self::is_assigned(code) {
            choose|kind: TlvPacketType| kind.code() == code
        } else {
            TlvPacketType::Invalid
        }
    }

    /// The four bytes that stand for this kind on the wire.
    pub open spec fn wire(self) -> Seq<u8> {
        le_bytes(self.code())
    }

    /// The kind of a fresh packet.
    pub fn new() -> (kind: Self)
        ensures
            kind == TlvPacketType::Request,
    {
        TlvPacketType::Request
    }

    /// The number that stands for this kind on the wire.
    pub fn to_u32(self) -> (code: u32)
        ensures
            code == self.code(),
    {
        match self {
            TlvPacketType::Request => 0,
            TlvPacketType::Response => 1,
            TlvPacketType::PlainRequest => 10,
            TlvPacketType::PlainResponse => 11,
            TlvPacketType::Invalid => 0xFFFF,
        }
    }

    /// The kind that `val` stands for. Every number stands for one: those
    /// that no kind has stand for `Invalid`.
    pub fn from_u32(val: u32) -> (kind: Self)
        ensures
            kind == Self::from_code(val),
            Self::is_assigned(val) ==> kind.code() == val,
            !Self::is_assigned(val) ==> kind == TlvPacketType::Invalid,
    {
        let kind = match val {
            0 => TlvPacketType::Request,
            1 => TlvPacketType::Response,
            10 => TlvPacketType::PlainRequest,
            11 => TlvPacketType::PlainResponse,
            _ => TlvPacketType::Invalid,
        };
        proof {
            if kind.code() == val {
                Self::lemma_decode_encode(kind);
            }
        }
        kind
    }

    /// Reads a kind from the first four bytes of `val`.
    pub fn decode(val: &[u8]) -> (r: Result<Self, DecodeError>)
        ensures
            val@.len() < TLV_PACKET_TYPE_SIZE <==> r == Err::<Self, DecodeError>(
                DecodeError::TruncatedInput,
            ),
            val@.len() >= TLV_PACKET_TYPE_SIZE <==> r == Ok::<Self, DecodeError>(
                Self::from_code(le_value(val@) as u32),
            ),
    {
        match slice_to_u32_ntoh(val) {
            Ok(code) => Ok(Self::from_u32(code)),
            Err(e) => Err(e),
        }
    }

    /// Writes this kind as its four bytes.
    pub fn encode(self) -> (bytes: Vec<u8>)
        ensures
            bytes@ == self.wire(),
    {
        u32_to_vec_hton(self.to_u32())
    }

    /// No two kinds share a number.
    pub proof fn lemma_code_injective(a: Self, b: Self)
        requires
            a.code() == b.code(),
        ensures
            a == b,
    {
    }

    /// Turning a kind into its number and the number back gives the kind.
    pub proof fn lemma_decode_encode(kind: Self)
        ensures
            Self::is_assigned(kind.code()),
            Self::from_code(kind.code()) == kind,
    {
        let back = Self::from_code(kind.code());
        Self::lemma_code_injective(back, kind);
    }

    /// Turning a number that some kind has into its kind and the kind back
    /// gives the number.
    pub proof fn lemma_encode_decode(code: u32)
        requires
            Self::is_assigned(code),
        ensures
            Self::from_code(code).code() == code,
    {
    }

    /// A number that no kind has stands for `Invalid`.
    pub proof fn lemma_unassigned_is_invalid(code: u32)
        requires
            !Self::is_assigned(code),
        ensures
            Self::from_code(code) == TlvPacketType::Invalid,
    {
    }

    /// Reading the four bytes that a kind was written as gives the kind.
    pub proof fn lemma_wire_round_trip(kind: Self)
        ensures
            kind.wire().len() == 4,
            Self::from_code(le_value(kind.wire()) as u32) == kind,
    {
        lemma_le_value_of_bytes(kind.code());
        Self::lemma_decode_encode(kind);
    }

    /// Writing the kind that four bytes were read as gives the four bytes,
    /// where some kind has their number.
    pub proof fn lemma_bytes_round_trip(s: Seq<u8>)
        requires
            s.len() >= 4,
            Self::is_assigned(le_value(s) as u32),
        ensures
            Self::from_code(le_value(s) as u32).wire() == s.subrange(0, 4),
    {
        lemma_le_bytes_of_value(s);
    }
}

impl From<u32> for TlvPacketType {
    fn from(val: u32) -> (kind: TlvPacketType) {
        TlvPacketType::from_u32(val)
    }
}

impl vstd::std_specs::convert::FromSpecImpl<u32> for TlvPacketType {
    open spec fn obeys_from_spec() -> bool {
        true
    }

    open spec fn from_spec(val: u32) -> TlvPacketType {
        TlvPacketType::from_code(val)
    }
}

/// Bytes that a value kind takes on the wire.
pub const TLV_TYPE_SIZE: usize = 4;

/// What a record's value is. The number of a kind is a numeric id joined
/// with the bits of its meta-type.
#[derive(Clone, Copy, Debug, PartialEq, Eq, Structural, Hash)]
pub enum TlvType {
    Any,
    Method,
    RequestId,
    Exception,
    Result,
    // Arguments
    String,
    Uint,
    Bool,
    // Extended
    Length,
    Data,
    Flags,
    // Channels
    ChannelId,
    ChannelType,
    ChanneData,
    ChannelClass,
    ChannelParentId,
    // Channel Extended
    SeekWhence,
    SeekOffset,
    SeekPos,
    // Group Ids
    ExceptionCode,
    ExceptionString,
    // Libraries
    LibraryPath,
    TargetPath,
    MigratePid,
    MigratePayloadLength,
    MigratePayload,
    MigrateArch,
    MigrateTechnique,
    MigrateBaseAddress,
    MigrateEntryPoint,
    MigrateSocketPath,
    MigrateStubLength,
    MigrateStub,
    // Transports
    TransportType,
    TransportUrl,
    TransportUserAgent,
    TransportTimeout,
    TransportSessionExpiration,
    TransportCertificateHash,
    TransportProxyHost,
    TransportProxyUser,
    TransportProxyPass,
    TransportRetryTotal,
    TransportRetryWait,
    TransportHeaders,
    TransportGroup,
    // Ident
    MachineId,
    Uuid,
    SessionGuid,
    // Encryption
    RsaPubKey,
    SymetricKeyType,
    SymetricKey,
    EncryptedSymetricKey,
    // Pivots
    PivotId,
    PivotStageData,
    PivotStageDataSize,
    PivotNamedPipeName,
    // Peering
    PeerHost,
    PeerPort,
    LocalHost,
    LocalPort,
    // Generic
    Extensions,
    User,
    Temp,
    Invalid,
}

impl TlvType {
    /// The number that stands for this kind on the wire.
    pub open spec fn code(self) -> u32 {
        match self {
            TlvType::Any => 0x0,
            TlvType::Method => 0x10001,
            TlvType::RequestId => 0x10002,
            TlvType::Exception => 0x40000003,
            TlvType::Result => 0x20004,
            TlvType::String => 0x1000A,
            TlvType::Uint => 0x2000B,
            TlvType::Bool => 0x8000C,
            TlvType::Length => 0x20019,
            TlvType::Data => 0x4001A,
            TlvType::Flags => 0x2001B,
            TlvType::ChannelId => 0x20032,
            TlvType::ChannelType => 0x10033,
            TlvType::ChanneData => 0x40034,
            TlvType::ChannelClass => 0x20035,
            TlvType::ChannelParentId => 0x20036,
            TlvType::SeekWhence => 0x20046,
            TlvType::SeekOffset => 0x20047,
            TlvType::SeekPos => 0x20048,
            TlvType::ExceptionCode => 0x2012C,
            TlvType::ExceptionString => 0x1012D,
            TlvType::LibraryPath => 0x10190,
            TlvType::TargetPath => 0x10191,
            TlvType::MigratePid => 0x20192,
            TlvType::MigratePayloadLength => 0x20193,
            TlvType::MigratePayload => 0x10194,
            TlvType::MigrateArch => 0x20195,
            TlvType::MigrateTechnique => 0x20196,
            TlvType::MigrateBaseAddress => 0x20197,
            TlvType::MigrateEntryPoint => 0x20198,
            TlvType::MigrateSocketPath => 0x10199,
            TlvType::MigrateStubLength => 0x2019A,
            TlvType::MigrateStub => 0x1019B,
            TlvType::TransportType => 0x201AE,
            TlvType::TransportUrl => 0x101AF,
            TlvType::TransportUserAgent => 0x101B0,
            TlvType::TransportTimeout => 0x201B1,
            TlvType::TransportSessionExpiration => 0x201B2,
            TlvType::TransportCertificateHash => 0x401B3,
            TlvType::TransportProxyHost => 0x101B4,
            TlvType::TransportProxyUser => 0x101B5,
            TlvType::TransportProxyPass => 0x101B6,
            TlvType::TransportRetryTotal => 0x201B7,
            TlvType::TransportRetryWait => 0x201B8,
            TlvType::TransportHeaders => 0x101B9,
            TlvType::TransportGroup => 0x400001BA,
            TlvType::MachineId => 0x101CC,
            TlvType::Uuid => 0x401CD,
            TlvType::SessionGuid => 0x401CE,
            TlvType::RsaPubKey => 0x10226,
            TlvType::SymetricKeyType => 0x20227,
            TlvType::SymetricKey => 0x40228,
            TlvType::EncryptedSymetricKey => 0x40229,
            TlvType::PivotId => 0x4028A,
            TlvType::PivotStageData => 0x4028B,
            TlvType::PivotStageDataSize => 0x2028C,
            TlvType::PivotNamedPipeName => 0x1028D,
            TlvType::PeerHost => 0x105DC,
            TlvType::PeerPort => 0x205DD,
            TlvType::LocalHost => 0x105DE,
            TlvType::LocalPort => 0x205DF,
            TlvType::Extensions => 0x80004E20,
            TlvType::User => 0x80009C40,
            TlvType::Temp => 0x8000EA60,
            TlvType::Invalid => 0xFFFFFFFF,
        }
    }

    /// Whether some kind has `code` as its number.
    pub open spec fn is_assigned(code: u32) -> bool {
        exists|kind: TlvType| kind.code() == code
    }

    /// The kind that `code` stands for: the one with that number, and
    /// `Invalid` where there is none.
    pub open spec fn from_code(code: u32) -> TlvType {
        if Self::is_assigned(code) {
            choose|kind: TlvType| kind.code() == code
        } else {
            TlvType::Invalid
        }
    }

    /// The four bytes that stand for this kind on the wire.
    pub open spec fn wire(self) -> Seq<u8> {
        le_bytes(self.code())
    }

    /// The meta-type bits of this kind: the upper half of its number.
    pub open spec fn meta_type(self) -> u32 {
        self.code() & 0xffff0000
    }

    /// The lower half of this kind's number: its numeric id, as far as
    /// sixteen bits hold it.
    pub open spec fn low_value(self) -> u32 {
        self.code() & 0x0000ffff
    }

    /// The number that stands for this kind on the wire.
    pub fn to_u32(self) -> (code: u32)
        ensures
            code == self.code(),
    {
        match self {
            TlvType::Any => 0x0,
            TlvType::Method => 0x10001,
            TlvType::RequestId => 0x10002,
            TlvType::Exception => 0x40000003,
            TlvType::Result => 0x20004,
            TlvType::String => 0x1000A,
            TlvType::Uint => 0x2000B,
            TlvType::Bool => 0x8000C,
            TlvType::Length => 0x20019,
            TlvType::Data => 0x4001A,
            TlvType::Flags => 0x2001B,
            TlvType::ChannelId => 0x20032,
            TlvType::ChannelType => 0x10033,
            TlvType::ChanneData => 0x40034,
            TlvType::ChannelClass => 0x20035,
            TlvType::ChannelParentId => 0x20036,
            TlvType::SeekWhence => 0x20046,
            TlvType::SeekOffset => 0x20047,
            TlvType::SeekPos => 0x20048,
            TlvType::ExceptionCode => 0x2012C,
            TlvType::ExceptionString => 0x1012D,
            TlvType::LibraryPath => 0x10190,
            TlvType::TargetPath => 0x10191,
            TlvType::MigratePid => 0x20192,
            TlvType::MigratePayloadLength => 0x20193,
            TlvType::MigratePayload => 0x10194,
            TlvType::MigrateArch => 0x20195,
            TlvType::MigrateTechnique => 0x20196,
            TlvType::MigrateBaseAddress => 0x20197,
            TlvType::MigrateEntryPoint => 0x20198,
            TlvType::MigrateSocketPath => 0x10199,
            TlvType::MigrateStubLength => 0x2019A,
            TlvType::MigrateStub => 0x1019B,
            TlvType::TransportType => 0x201AE,
            TlvType::TransportUrl => 0x101AF,
            TlvType::TransportUserAgent => 0x101B0,
            TlvType::TransportTimeout => 0x201B1,
            TlvType::TransportSessionExpiration => 0x201B2,
            TlvType::TransportCertificateHash => 0x401B3,
            TlvType::TransportProxyHost => 0x101B4,
            TlvType::TransportProxyUser => 0x101B5,
            TlvType::TransportProxyPass => 0x101B6,
            TlvType::TransportRetryTotal => 0x201B7,
            TlvType::TransportRetryWait => 0x201B8,
            TlvType::TransportHeaders => 0x101B9,
            TlvType::TransportGroup => 0x400001BA,
            TlvType::MachineId => 0x101CC,
            TlvType::Uuid => 0x401CD,
            TlvType::SessionGuid => 0x401CE,
            TlvType::RsaPubKey => 0x10226,
            TlvType::SymetricKeyType => 0x20227,
            TlvType::SymetricKey => 0x40228,
            TlvType::EncryptedSymetricKey => 0x40229,
            TlvType::PivotId => 0x4028A,
            TlvType::PivotStageData => 0x4028B,
            TlvType::PivotStageDataSize => 0x2028C,
            TlvType::PivotNamedPipeName => 0x1028D,
            TlvType::PeerHost => 0x105DC,
            TlvType::PeerPort => 0x205DD,
            TlvType::LocalHost => 0x105DE,
            TlvType::LocalPort => 0x205DF,
            TlvType::Extensions => 0x80004E20,
            TlvType::User => 0x80009C40,
            TlvType::Temp => 0x8000EA60,
            TlvType::Invalid => 0xFFFFFFFF,
        }
    }

    /// The meta-type bits of this kind.
    pub fn get_type(&self) -> (meta: u32)
        ensures
            meta == self.meta_type(),
    {
        self.to_u32() & 0xffff0000
    }

    /// The lower sixteen bits of this kind's number.
    pub fn get_value(&self) -> (value: u32)
        ensures
            value == self.low_value(),
    {
        self.to_u32() & 0x0000ffff
    }

    /// Whether the bit that marks a compressed value is set in this kind.
    pub fn is_compressed(&self) -> (set: bool)
        ensures
            set == (self.code() & META_TYPE_COMPRESSED != 0),
    {
        self.to_u32() & META_TYPE_COMPRESSED != 0
    }

    /// The kind that `val` stands for. Every number stands for one: those
    /// that no kind has stand for `Invalid`.
    pub fn from_u32(val: u32) -> (kind: Self)
        ensures
            kind == Self::from_code(val),
            Self::is_assigned(val) ==> kind.code() == val,
            !Self::is_assigned(val) ==> kind == TlvType::Invalid,
    {
        let kind = match val {
            0x0 => TlvType::Any,
            0x10001 => TlvType::Method,
            0x10002 => TlvType::RequestId,
            0x40000003 => TlvType::Exception,
            0x20004 => TlvType::Result,
            0x1000A => TlvType::String,
            0x2000B => TlvType::Uint,
            0x8000C => TlvType::Bool,
            0x20019 => TlvType::Length,
            0x4001A => TlvType::Data,
            0x2001B => TlvType::Flags,
            0x20032 => TlvType::ChannelId,
            0x10033 => TlvType::ChannelType,
            0x40034 => TlvType::ChanneData,
            0x20035 => TlvType::ChannelClass,
            0x20036 => TlvType::ChannelParentId,
            0x20046 => TlvType::SeekWhence,
            0x20047 => TlvType::SeekOffset,
            0x20048 => TlvType::SeekPos,
            0x2012C => TlvType::ExceptionCode,
            0x1012D => TlvType::ExceptionString,
            0x10190 => TlvType::LibraryPath,
            0x10191 => TlvType::TargetPath,
            0x20192 => TlvType::MigratePid,
            0x20193 => TlvType::MigratePayloadLength,
            0x10194 => TlvType::MigratePayload,
            0x20195 => TlvType::MigrateArch,
            0x20196 => TlvType::MigrateTechnique,
            0x20197 => TlvType::MigrateBaseAddress,
            0x20198 => TlvType::MigrateEntryPoint,
            0x10199 => TlvType::MigrateSocketPath,
            0x2019A => TlvType::MigrateStubLength,
            0x1019B => TlvType::MigrateStub,
            0x201AE => TlvType::TransportType,
            0x101AF => TlvType::TransportUrl,
            0x101B0 => TlvType::TransportUserAgent,
            0x201B1 => TlvType::TransportTimeout,
            0x201B2 => TlvType::TransportSessionExpiration,
            0x401B3 => TlvType::TransportCertificateHash,
            0x101B4 => TlvType::TransportProxyHost,
            0x101B5 => TlvType::TransportProxyUser,
            0x101B6 => TlvType::TransportProxyPass,
            0x201B7 => TlvType::TransportRetryTotal,
            0x201B8 => TlvType::TransportRetryWait,
            0x101B9 => TlvType::TransportHeaders,
            0x400001BA => TlvType::TransportGroup,
            0x101CC => TlvType::MachineId,
            0x401CD => TlvType::Uuid,
            0x401CE => TlvType::SessionGuid,
            0x10226 => TlvType::RsaPubKey,
            0x20227 => TlvType::SymetricKeyType,
            0x40228 => TlvType::SymetricKey,
            0x40229 => TlvType::EncryptedSymetricKey,
            0x4028A => TlvType::PivotId,
            0x4028B => TlvType::PivotStageData,
            0x2028C => TlvType::PivotStageDataSize,
            0x1028D => TlvType::PivotNamedPipeName,
            0x105DC => TlvType::PeerHost,
            0x205DD => TlvType::PeerPort,
            0x105DE => TlvType::LocalHost,
            0x205DF => TlvType::LocalPort,
            0x80004E20 => TlvType::Extensions,
            0x80009C40 => TlvType::User,
            0x8000EA60 => TlvType::Temp,
            _ => TlvType::Invalid,
        };
        proof {
            if kind.code() == val {
                Self::lemma_decode_encode(kind);
            }
        }
        kind
    }

    /// Reads a kind from the first four bytes of `val`.
    pub fn decode(val: &[u8]) -> (r: Result<Self, DecodeError>)
        ensures
            val@.len() < TLV_TYPE_SIZE <==> r == Err::<Self, DecodeError>(
                DecodeError::TruncatedInput,
            ),
            val@.len() >= TLV_TYPE_SIZE <==> r == Ok::<Self, DecodeError>(
                Self::from_code(le_value(val@) as u32),
            ),
    {
        match slice_to_u32_ntoh(val) {
            Ok(code) => Ok(Self::from_u32(code)),
            Err(e) => Err(e),
        }
    }

    /// Writes this kind as its four bytes.
    pub fn encode(self) -> (bytes: Vec<u8>)
        ensures
            bytes@ == self.wire(),
    {
        u32_to_vec_hton(self.to_u32())
    }

    /// No two kinds share a number.
    pub proof fn lemma_code_injective(a: Self, b: Self)
        requires
            a.code() == b.code(),
        ensures
            a == b,
    {
    }

    /// Turning a kind into its number and the number back gives the kind.
    pub proof fn lemma_decode_encode(kind: Self)
        ensures
            Self::is_assigned(kind.code()),
            Self::from_code(kind.code()) == kind,
    {
        let back = Self::from_code(kind.code());
        Self::lemma_code_injective(back, kind);
    }

    /// Turning a number that some kind has into its kind and the kind back
    /// gives the number.
    pub proof fn lemma_encode_decode(code: u32)
        requires
            Self::is_assigned(code),
        ensures
            Self::from_code(code).code() == code,
    {
    }

    /// A number that no kind has stands for `Invalid`.
    pub proof fn lemma_unassigned_is_invalid(code: u32)
        requires
            !Self::is_assigned(code),
        ensures
            Self::from_code(code) == TlvType::Invalid,
    {
    }

    /// Reading the four bytes that a kind was written as gives the kind.
    pub proof fn lemma_wire_round_trip(kind: Self)
        ensures
            kind.wire().len() == 4,
            Self::from_code(le_value(kind.wire()) as u32) == kind,
    {
        lemma_le_value_of_bytes(kind.code());
        Self::lemma_decode_encode(kind);
    }

    /// Writing the kind that four bytes were read as gives the four bytes,
    /// where some kind has their number.
    pub proof fn lemma_bytes_round_trip(s: Seq<u8>)
        requires
            s.len() >= 4,
            Self::is_assigned(le_value(s) as u32),
        ensures
            Self::from_code(le_value(s) as u32).wire() == s.subrange(0, 4),
    {
        lemma_le_bytes_of_value(s);
    }
}

impl From<u32> for TlvType {
    fn from(val: u32) -> (kind: TlvType) {
        TlvType::from_u32(val)
    }
}

impl vstd::std_specs::convert::FromSpecImpl<u32> for TlvType {
    open spec fn obeys_from_spec() -> bool {
        true
    }

    open spec fn from_spec(val: u32) -> TlvType {
        TlvType::from_code(val)
    }
}

/// Bytes that a record header takes on the wire.
pub const TLV_HEADER_SIZE: usize = 8;

/// What a record header holds.
pub ghost struct TlvHeaderView {
    /// Bytes in the record's value, the header not counted.
    pub length: u32,
    /// The kind of the record's value.
    pub kind: TlvType,
}

impl TlvHeaderView {
    /// The eight bytes of the header: the length, then the kind.
    pub open spec fn wire(self) -> Seq<u8> {
        le_bytes(self.length) + self.kind.wire()
    }

    /// The header that the first eight bytes of `s` stand for.
    pub open spec fn parse(s: Seq<u8>) -> TlvHeaderView
        recommends
            s.len() >= TLV_HEADER_SIZE,
    {
        TlvHeaderView {
            length: le_value(s) as u32,
            kind: TlvType::from_code(le_value(s.subrange(4, 8)) as u32),
        }
    }

    /// Reading the eight bytes that a header was written as gives the
    /// header, whatever follows them.
    pub proof fn lemma_parse_wire(self, rest: Seq<u8>)
        ensures
            self.wire().len() == TLV_HEADER_SIZE,
            Self::parse(self.wire() + rest) == self,
    {
        let s = self.wire() + rest;
        lemma_le_value_of_bytes(self.length);
        TlvType::lemma_wire_round_trip(self.kind);
        assert(s.subrange(0, 4) =~= le_bytes(self.length));
        assert(s.subrange(4, 8) =~= self.kind.wire());
        assert(le_bytes(self.length).subrange(0, 4) =~= le_bytes(self.length));
        lemma_value_of_prefix(s, le_bytes(self.length));
    }

    /// Writing the header that eight bytes were read as gives the eight
    /// bytes, where some kind has the number in them.
    pub proof fn lemma_wire_parse(s: Seq<u8>)
        requires
            s.len() >= TLV_HEADER_SIZE,
            TlvType::is_assigned(le_value(s.subrange(4, 8)) as u32),
        ensures
            Self::parse(s).wire() == s.subrange(0, 8),
    {
        lemma_le_bytes_of_value(s);
        TlvType::lemma_bytes_round_trip(s.subrange(4, 8));
        assert(s.subrange(4, 8).subrange(0, 4) =~= s.subrange(4, 8));
        assert(s.subrange(0, 4) + s.subrange(4, 8) =~= s.subrange(0, 8));
    }
}

/// The header of a record: how long its value is and of what kind.
#[derive(Clone, Copy, Debug, PartialEq, Eq, Hash)]
pub struct TlvHeader {
    length: u32,
    type_: TlvType,
}

impl View for TlvHeader {
    type V = TlvHeaderView;

    closed spec fn view(&self) -> TlvHeaderView {
        TlvHeaderView { length: self.length, kind: self.type_ }
    }
}

impl TlvHeader {
    /// A header of kind `Any` that declares eight bytes.
    pub fn new() -> (header: Self)
        ensures
            header@ == (TlvHeaderView { length: 8, kind: TlvType::Any }),
    {
        TlvHeader { length: 8, type_: TlvType::Any }
    }

    /// The length that this header declares.
    pub fn length(&self) -> (length: u32)
        ensures
            length == self@.length,
    {
        self.length
    }

    /// This header with `length` as its declared length.
    pub fn set_length(self, length: u32) -> (header: Self)
        ensures
            header@ == (TlvHeaderView { length, ..self@ }),
    {
        let mut header = self;
        header.set_length_ref(length);
        header
    }

    /// Makes `length` the declared length.
    pub fn set_length_ref(&mut self, length: u32)
        ensures
            final(self)@ == (TlvHeaderView { length, ..old(self)@ }),
    {
        self.length = length;
    }

    /// The kind that this header declares.
    pub fn get_type(&self) -> (kind: TlvType)
        ensures
            kind == self@.kind,
    {
        self.type_
    }

    /// The kind that this header declares, to be changed in place.
    pub fn get_mut_type(&mut self) -> (kind: &mut TlvType)
        ensures
            *kind == old(self)@.kind,
            final(self)@ == (TlvHeaderView { kind: *final(kind), ..old(self)@ }),
    {
        &mut self.type_
    }

    /// This header with `ty` as its kind.
    pub fn set_type(self, ty: TlvType) -> (header: Self)
        ensures
            header@ == (TlvHeaderView { kind: ty, ..self@ }),
    {
        let mut header = self;
        header.set_type_ref(ty);
        header
    }

    /// Makes `ty` the kind.
    pub fn set_type_ref(&mut self, ty: TlvType)
        ensures
            final(self)@ == (TlvHeaderView { kind: ty, ..old(self)@ }),
    {
        self.type_ = ty;
    }

    /// Reads a header from the first eight bytes of `val`.
    pub fn decode(val: &[u8]) -> (r: Result<Self, DecodeError>)
        ensures
            val@.len() < TLV_HEADER_SIZE <==> r == Err::<Self, DecodeError>(
                DecodeError::TruncatedInput,
            ),
            val@.len() >= TLV_HEADER_SIZE <==> r is Ok,
            r is Ok ==> r.unwrap()@ == TlvHeaderView::parse(val@),
    {
        if val.len() < TLV_HEADER_SIZE {
            return Err(DecodeError::TruncatedInput);
        }
        let length = match slice_to_u32_ntoh(val) {
            Ok(length) => length,
            Err(e) => return Err(e),
        };
        let type_ = match TlvType::decode(slice_subrange(val, 4, 8)) {
            Ok(type_) => type_,
            Err(e) => return Err(e),
        };
        Ok(TlvHeader { length, type_ })
    }

    /// Writes this header as its eight bytes.
    pub fn encode(self) -> (bytes: Vec<u8>)
        ensures
            bytes@ == self@.wire(),
    {
        let mut vec: Vec<u8> = u32_to_vec_hton(self.length);
        let mut ty: Vec<u8> = self.type_.encode();
        vec.append(&mut ty);
        vec
    }
}

/// What a record holds.
pub ghost struct TlvView {
    pub header: TlvHeaderView,
    /// The bytes of the value.
    pub buffer: Seq<u8>,
}

impl TlvView {
    /// Whether the header declares as many bytes as the value has.
    pub open spec fn wf(self) -> bool {
        self.header.length == self.buffer.len()
    }

    /// Whether the length of the value fits the header's length field.
    pub open spec fn fits(self) -> bool {
        self.buffer.len() <= u32::MAX
    }

    /// The bytes of the record: the length of the value, the kind, then the
    /// value as it is. The length that the header holds is not written.
    pub open spec fn wire(self) -> Seq<u8> {
        le_bytes(self.buffer.len() as u32) + self.header.kind.wire() + self.buffer
    }

    /// The record that opens `s`, with the bytes that follow it.
    pub open spec fn parse_one(s: Seq<u8>) -> Result<(TlvView, Seq<u8>), DecodeError> {
        if s.len() < TLV_HEADER_SIZE {
            Err(DecodeError::TruncatedInput)
        } else {
            let header = TlvHeaderView::parse(s);
            let end = TLV_HEADER_SIZE + header.length;
            if header.length > MAX_DECLARED_LENGTH {
                Err(DecodeError::OversizedDeclaredLength)
            } else if s.len() < end {
                Err(DecodeError::TruncatedValue)
            } else {
                Ok(
                    (
                        TlvView { header, buffer: s.subrange(TLV_HEADER_SIZE as int, end) },
                        s.subrange(end, s.len() as int),
                    ),
                )
            }
        }
    }

    /// The records that `s` is made of, in their order.
    pub open spec fn parse_list(s: Seq<u8>) -> Result<Seq<TlvView>, DecodeError>
        decreases s.len(),
    {
        if s.len() == 0 {
            Ok(Seq::empty())
        } else if s.len() < TLV_HEADER_SIZE {
            Err(DecodeError::TrailingGarbage)
        } else {
            match Self::parse_one(s) {
                Err(e) => Err(e),
                Ok((first, rest)) => Self::after(seq![first], Self::parse_list(rest)),
            }
        }
    }

    /// The records `done` followed by those of `more`, or the error of `more`.
    pub open spec fn after(done: Seq<TlvView>, more: Result<Seq<TlvView>, DecodeError>) -> Result<
        Seq<TlvView>,
        DecodeError,
    > {
        match more {
            Ok(tlvs) => Ok(done + tlvs),
            Err(e) => Err(e),
        }
    }

    /// The bytes of the records of `tlvs`, one after another.
    pub open spec fn wire_list(tlvs: Seq<TlvView>) -> Seq<u8>
        decreases tlvs.len(),
    {
        if tlvs.len() == 0 {
            Seq::empty()
        } else {
            tlvs[0].wire() + Self::wire_list(tlvs.subrange(1, tlvs.len() as int))
        }
    }

    /// The bytes of a list with one more record at its end are the bytes
    /// of the list followed by those of the record.
    pub proof fn lemma_wire_list_push(tlvs: Seq<TlvView>, last: TlvView)
        ensures
            Self::wire_list(tlvs.push(last)) == Self::wire_list(tlvs) + last.wire(),
        decreases tlvs.len(),
    {
        let all = tlvs.push(last);
        if tlvs.len() == 0 {
            assert(all.subrange(1, all.len() as int) =~= Seq::<TlvView>::empty());
            assert(Self::wire_list(all.subrange(1, all.len() as int)) =~= Seq::<u8>::empty());
            assert(Self::wire_list(all) =~= last.wire());
            assert(Self::wire_list(tlvs) + last.wire() =~= last.wire());
        } else {
            let tail = tlvs.subrange(1, tlvs.len() as int);
            Self::lemma_wire_list_push(tail, last);
            assert(all.subrange(1, all.len() as int) =~= tail.push(last));
            assert(tlvs[0].wire() + (Self::wire_list(tail) + last.wire()) =~= (tlvs[0].wire()
                + Self::wire_list(tail)) + last.wire());
        }
    }

    /// Reading the bytes that a record was written as gives the record and
    /// what follows it, where its header declares the length of its value
    /// and that length is within the limit.
    pub proof fn lemma_parse_one_wire(self, rest: Seq<u8>)
        requires
            self.wf(),
            self.header.length <= MAX_DECLARED_LENGTH,
        ensures
            Self::parse_one(self.wire() + rest) == Ok::<(TlvView, Seq<u8>), DecodeError>(
                (self, rest),
            ),
    {
        let s = self.wire() + rest;
        self.header.lemma_parse_wire(self.buffer + rest);
        assert(self.wire() =~= self.header.wire() + self.buffer);
        assert(s =~= self.header.wire() + (self.buffer + rest));
        let end = TLV_HEADER_SIZE + self.header.length;
        assert(s.subrange(TLV_HEADER_SIZE as int, end) =~= self.buffer);
        assert(s.subrange(end, s.len() as int) =~= rest);
    }

    /// The bytes of a list hold each of its records whole: a header and
    /// the value.
    pub proof fn lemma_wire_list_holds(tlvs: Seq<TlvView>, i: int)
        requires
            0 <= i < tlvs.len(),
        ensures
            Self::wire_list(tlvs).len() >= TLV_HEADER_SIZE + tlvs[i].buffer.len(),
        decreases tlvs.len(),
    {
        let tail = tlvs.subrange(1, tlvs.len() as int);
        lemma_le_value_of_bytes(tlvs[0].buffer.len() as u32);
        TlvType::lemma_wire_round_trip(tlvs[0].header.kind);
        if i > 0 {
            Self::lemma_wire_list_holds(tail, i - 1);
            assert(tail[i - 1] == tlvs[i]);
        }
    }

    /// Reading the bytes that a list of records was written as gives the
    /// same records in the same order, where each header declares the
    /// length of its value and that length is within the limit.
    pub proof fn lemma_parse_list_wire_list(tlvs: Seq<TlvView>)
        requires
            forall|i: int| 0 <= i < tlvs.len() ==> (#[trigger] tlvs[i]).wf(),
            forall|i: int|
                0 <= i < tlvs.len() ==> (#[trigger] tlvs[i]).header.length <= MAX_DECLARED_LENGTH,
        ensures
            Self::parse_list(Self::wire_list(tlvs)) == Ok::<Seq<TlvView>, DecodeError>(tlvs),
        decreases tlvs.len(),
    {
        if tlvs.len() == 0 {
            assert(tlvs =~= Seq::<TlvView>::empty());
        } else {
            let first = tlvs[0];
            let tail = tlvs.subrange(1, tlvs.len() as int);
            let rest = Self::wire_list(tail);
            assert forall|i: int| 0 <= i < tail.len() implies (#[trigger] tail[i]).wf()
                && tail[i].header.length <= MAX_DECLARED_LENGTH by {
                assert(tail[i] == tlvs[i + 1]);
            }
            Self::lemma_parse_list_wire_list(tail);
            first.lemma_parse_one_wire(rest);
            first.header.lemma_parse_wire(first.buffer + rest);
            assert(seq![first] + tail =~= tlvs);
        }
    }
}

/// What each record of `tlvs` holds.
pub open spec fn tlv_views(tlvs: Seq<Tlv>) -> Seq<TlvView> {
    Seq::new(tlvs.len(), |i: int| tlvs[i]@)
}

/// A record: a header and the bytes of a value.
#[derive(Clone, Debug, PartialEq, Eq, Hash)]
pub struct Tlv {
    header: TlvHeader,
    buffer: Vec<u8>,
}

impl View for Tlv {
    type V = TlvView;

    closed spec fn view(&self) -> TlvView {
        TlvView { header: self.header@, buffer: self.buffer@ }
    }
}

impl Tlv {
    /// The header of this record.
    pub fn header(&self) -> (header: &TlvHeader)
        ensures
            header@ == self@.header,
    {
        &self.header
    }

    /// The header of this record, to be changed in place.
    pub fn mut_header(&mut self) -> (header: &mut TlvHeader)
        ensures
            header@ == old(self)@.header,
            final(self)@ == (TlvView { header: final(header)@, ..old(self)@ }),
    {
        &mut self.header
    }

    /// This record with `header` in place of its header. The value stays.
    pub fn set_header(self, header: TlvHeader) -> (tlv: Self)
        ensures
            tlv@ == (TlvView { header: header@, ..self@ }),
    {
        let mut tlv = self;
        tlv.set_header_ref(header);
        tlv
    }

    /// Puts `header` in place of the header. The value stays.
    pub fn set_header_ref(&mut self, header: TlvHeader)
        ensures
            final(self)@ == (TlvView { header: header@, ..old(self)@ }),
    {
        self.header = header;
    }

    /// The bytes of this record's value.
    pub fn buffer(&self) -> (buffer: &Vec<u8>)
        ensures
            buffer@ == self@.buffer,
    {
        &self.buffer
    }

    /// The bytes of this record's value, to be changed in place.
    pub fn mut_buffer(&mut self) -> (buffer: &mut Vec<u8>)
        ensures
            buffer@ == old(self)@.buffer,
            final(self)@ == (TlvView { buffer: final(buffer)@, ..old(self)@ }),
    {
        &mut self.buffer
    }

    /// This record with `buf` as its value. The header stays.
    pub fn set_buffer(self, buf: Vec<u8>) -> (tlv: Self)
        ensures
            tlv@ == (TlvView { buffer: buf@, ..self@ }),
    {
        let mut tlv = self;
        tlv.set_buffer_ref(buf);
        tlv
    }

    /// Makes `buf` the value. The header stays.
    pub fn set_buffer_ref(&mut self, buf: Vec<u8>)
        ensures
            final(self)@ == (TlvView { buffer: buf@, ..old(self)@ }),
    {
        self.buffer = buf;
    }

    /// Reads the record that opens `bytes` and hands it out with the bytes
    /// that follow it.
    pub fn decode_one<'a>(bytes: &'a [u8]) -> (r: Result<(Tlv, &'a [u8]), DecodeError>)
        ensures
            match TlvView::parse_one(bytes@) {
                Ok((tlv, rest)) => r is Ok && r.unwrap().0@ == tlv && r.unwrap().1@ == rest,
                Err(e) => r is Err && r.unwrap_err() == e,
            },
            r is Ok ==> r.unwrap().0@.wf(),
            bytes@.len() < TLV_HEADER_SIZE ==> r is Err && r.unwrap_err()
                == DecodeError::TruncatedInput,
    {
        let header = match TlvHeader::decode(bytes) {
            Ok(header) => header,
            Err(e) => return Err(e),
        };
        if header.length() > MAX_DECLARED_LENGTH {
            return Err(DecodeError::OversizedDeclaredLength);
        }
        let length = header.length() as usize;
        if bytes.len() - TLV_HEADER_SIZE < length {
            return Err(DecodeError::TruncatedValue);
        }
        let end = TLV_HEADER_SIZE + length;
        let buffer: Vec<u8> = slice_to_vec(slice_subrange(bytes, TLV_HEADER_SIZE, end));
        let rest = slice_subrange(bytes, end, bytes.len());
        Ok((Tlv { header, buffer }, rest))
    }

    /// Reads the records that `slice` is made of, in their order.
    pub fn slice_to_tlv_vec(slice: &[u8]) -> (r: Result<Vec<Tlv>, DecodeError>)
        ensures
            match TlvView::parse_list(slice@) {
                Ok(tlvs) => r is Ok && tlv_views(r.unwrap()@) == tlvs,
                Err(e) => r is Err && r.unwrap_err() == e,
            },
            r is Ok ==> forall|i: int| 0 <= i < r.unwrap()@.len() ==> (#[trigger] r.unwrap()@[i])@.wf(),
    {
        let mut vec: Vec<Tlv> = Vec::with_capacity(slice.len() / TLV_HEADER_SIZE);
        let mut rest: &[u8] = slice;
        assert(tlv_views(vec@) + Seq::<TlvView>::empty() =~= Seq::<TlvView>::empty());
        while rest.len() > 0
            invariant
                TlvView::parse_list(slice@) == TlvView::after(
                    tlv_views(vec@),
                    TlvView::parse_list(rest@),
                ),
                forall|i: int| 0 <= i < vec@.len() ==> (#[trigger] vec@[i])@.wf(),
            decreases rest@.len(),
        {
            if rest.len() < TLV_HEADER_SIZE {
                return Err(DecodeError::TrailingGarbage);
            }
            let ghost done = tlv_views(vec@);
            match Tlv::decode_one(rest) {
                Err(e) => {
                    return Err(e);
                },
                Ok((tlv, tail)) => {
                    proof {
                        let more = TlvView::parse_list(tail@);
                        if more is Ok {
                            assert(done + (seq![tlv@] + more.unwrap()) =~= done.push(tlv@)
                                + more.unwrap());
                        }
                        assert(tlv_views(vec@.push(tlv)) =~= done.push(tlv@));
                    }
                    vec.push(tlv);
                    rest = tail;
                },
            }
        }
        assert(tlv_views(vec@) + Seq::<TlvView>::empty() =~= tlv_views(vec@));
        Ok(vec)
    }

    /// Writes this record: the length of its value, its kind, then its
    /// value as it is. The length that the header holds is not written, so
    /// the bytes always declare the value that follows them.
    pub fn encode_one(&self) -> (bytes: Vec<u8>)
        requires
            self@.buffer.len() <= u32::MAX,
        ensures
            bytes@ == le_bytes(self@.buffer.len() as u32) + self@.header.kind.wire()
                + self@.buffer,
            bytes@ == self@.wire(),
    {
        let mut tlv: Vec<u8> = u32_to_vec_hton(self.buffer.len() as u32);
        let mut ty: Vec<u8> = self.header.get_type().encode();
        tlv.append(&mut ty);
        tlv.extend_from_slice(self.buffer.as_slice());
        assert(tlv@ =~= self@.wire());
        tlv
    }
}

} // verus!
