//! The names that most users of the codec need.

pub use crate::error::DecodeError;
pub use crate::packet::DecompressedBuffer;
pub use crate::packet::GuidBytes;
pub use crate::packet::Packet;
pub use crate::packet::PacketHeader;
pub use crate::packet::XorKey;
pub use crate::packet::GUID_SIZE;
pub use crate::packet::NULL_PACKET_SIZE;
pub use crate::packet::PACKET_HEADER_SIZE;
pub use crate::packet::XOR_KEY_SIZE;
pub use crate::tlv::Tlv;
pub use crate::tlv::TlvHeader;
pub use crate::tlv::TlvPacketType;
pub use crate::tlv::TlvType;
pub use crate::tlv::MAX_DECLARED_LENGTH;
pub use crate::tlv::TLV_HEADER_SIZE;
pub use crate::tlv::TLV_PACKET_TYPE_SIZE;
pub use crate::tlv::TLV_TYPE_SIZE;
