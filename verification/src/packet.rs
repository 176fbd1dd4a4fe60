use vstd::prelude::*;
use vstd::slice::slice_subrange;
use crate::error::DecodeError;
use crate::tlv::{tlv_views, Tlv, TlvPacketType, TlvView, MAX_DECLARED_LENGTH, TLV_HEADER_SIZE};
use crate::utils::{
    le_bytes, le_value, lemma_le_bytes_of_value, lemma_le_value_of_bytes, slice_to_u32_ntoh,
    u32_to_vec_hton,
};

verus! {

pub const XOR_KEY_SIZE: usize = 4;

/// The key that a peer obscures a packet's bytes with.
pub type XorKey = [u8; XOR_KEY_SIZE];

pub const GUID_SIZE: usize = 16;

/// The identifier of a session.
pub type GuidBytes = [u8; GUID_SIZE];

/// Bytes that a packet header takes on the wire.
pub const PACKET_HEADER_SIZE: usize = XOR_KEY_SIZE + GUID_SIZE + 12;

/// What a packet header holds.
pub ghost struct PacketHeaderView {
    /// The four bytes of the key.
    pub key: Seq<u8>,
    /// The sixteen bytes of the session identifier.
    pub session_guid: Seq<u8>,
    pub encryption_flags: u32,
    /// Bytes in the whole packet, this header counted.
    pub length: u32,
    pub kind: TlvPacketType,
}

impl PacketHeaderView {
    /// Whether the key and the session identifier have their sizes.
    pub open spec fn wf(self) -> bool {
        self.key.len() == XOR_KEY_SIZE && self.session_guid.len() == GUID_SIZE
    }

    /// The bytes of the header: key, session identifier, flags, length, kind.
    pub open spec fn wire(self) -> Seq<u8> {
        self.key + self.session_guid + le_bytes(self.encryption_flags) + le_bytes(self.length)
            + self.kind.wire()
    }

    /// The header that the first thirty-two bytes of `s` stand for.
    pub open spec fn parse(s: Seq<u8>) -> PacketHeaderView
        recommends
            s.len() >= PACKET_HEADER_SIZE,
    {
        PacketHeaderView {
            key: s.subrange(0, 4),
            session_guid: s.subrange(4, 20),
            encryption_flags: le_value(s.subrange(20, 24)) as u32,
            length: le_value(s.subrange(24, 28)) as u32,
            kind: TlvPacketType::from_code(le_value(s.subrange(28, 32)) as u32),
        }
    }

    /// Reading the bytes that a header was written as gives the header,
    /// whatever follows them.
    pub proof fn lemma_parse_wire(self, rest: Seq<u8>)
        requires
            self.wf(),
        ensures
            self.wire().len() == PACKET_HEADER_SIZE,
            Self::parse(self.wire() + rest) == self,
    {
        let s = self.wire() + rest;
        lemma_le_value_of_bytes(self.encryption_flags);
        lemma_le_value_of_bytes(self.length);
        TlvPacketType::lemma_wire_round_trip(self.kind);
        assert(s.subrange(0, 4) =~= self.key);
        assert(s.subrange(4, 20) =~= self.session_guid);
        assert(s.subrange(20, 24) =~= le_bytes(self.encryption_flags));
        assert(s.subrange(24, 28) =~= le_bytes(self.length));
        assert(s.subrange(28, 32) =~= self.kind.wire());
    }

    /// Writing the header that thirty-two bytes were read as gives the
    /// thirty-two bytes, where some kind has the number in the last four.
    pub proof fn lemma_wire_parse(s: Seq<u8>)
        requires
            s.len() >= PACKET_HEADER_SIZE,
            TlvPacketType::is_assigned(le_value(s.subrange(28, 32)) as u32),
        ensures
            Self::parse(s).wf(),
            Self::parse(s).wire() == s.subrange(0, 32),
            s.len() == PACKET_HEADER_SIZE ==> Self::parse(s).wire() == s,
    {
        lemma_le_bytes_of_value(s.subrange(20, 24));
        lemma_le_bytes_of_value(s.subrange(24, 28));
        TlvPacketType::lemma_bytes_round_trip(s.subrange(28, 32));
        assert(s.subrange(20, 24).subrange(0, 4) =~= s.subrange(20, 24));
        assert(s.subrange(24, 28).subrange(0, 4) =~= s.subrange(24, 28));
        assert(s.subrange(28, 32).subrange(0, 4) =~= s.subrange(28, 32));
        assert(s.subrange(0, 4) + s.subrange(4, 20) + s.subrange(20, 24) + s.subrange(24, 28)
            + s.subrange(28, 32) =~= s.subrange(0, 32));
        if s.len() == PACKET_HEADER_SIZE {
            assert(s.subrange(0, 32) =~= s);
        }
    }
}

/// The header of a packet.
#[derive(Clone, Copy, Debug, PartialEq, Eq, Hash)]
pub struct PacketHeader {
    key: XorKey,
    session_guid: GuidBytes,
    encryption_flags: u32,
    length: u32,
    type_: TlvPacketType,
}

impl View for PacketHeader {
    type V = PacketHeaderView;

    closed spec fn view(&self) -> PacketHeaderView {
        PacketHeaderView {
            key: self.key@,
            session_guid: self.session_guid@,
            encryption_flags: self.encryption_flags,
            length: self.length,
            kind: self.type_,
        }
    }
}

impl PacketHeader {
    /// The header of a fresh packet: a request of header size, with key,
    /// session identifier and flags all zero.
    pub fn new() -> (header: PacketHeader)
        ensures
            header@ == (PacketHeaderView {
                key: Seq::new(XOR_KEY_SIZE as nat, |i: int| 0u8),
                session_guid: Seq::new(GUID_SIZE as nat, |i: int| 0u8),
                encryption_flags: 0,
                length: PACKET_HEADER_SIZE as u32,
                kind: TlvPacketType::Request,
            }),
    {
        let header = PacketHeader {
            key: [0x00; XOR_KEY_SIZE],
            session_guid: [0x00; GUID_SIZE],
            encryption_flags: 0,
            length: PACKET_HEADER_SIZE as u32,
            type_: TlvPacketType::Request,
        };
        assert(header.key@ =~= Seq::new(XOR_KEY_SIZE as nat, |i: int| 0u8));
        assert(header.session_guid@ =~= Seq::new(GUID_SIZE as nat, |i: int| 0u8));
        header
    }

    /// The key and the session identifier of every header have their sizes.
    pub proof fn lemma_wf(self)
        ensures
            self@.wf(),
    {
    }

    /// The key of this header.
    pub fn key(&self) -> (key: &XorKey)
        ensures
            key@ == self@.key,
    {
        &self.key
    }

    /// The key of this header, to be changed in place.
    pub fn mut_key(&mut self) -> (key: &mut XorKey)
        ensures
            key@ == old(self)@.key,
            final(self)@ == (PacketHeaderView { key: final(key)@, ..old(self)@ }),
    {
        &mut self.key
    }

    /// This header with `key` as its key.
    pub fn set_key(self, key: XorKey) -> (header: Self)
        ensures
            header@ == (PacketHeaderView { key: key@, ..self@ }),
    {
        let mut header = self;
        header.key = key;
        header
    }

    /// Makes `key` the key.
    pub fn set_key_ref(&mut self, key: XorKey)
        ensures
            final(self)@ == (PacketHeaderView { key: key@, ..old(self)@ }),
    {
        self.key = key;
    }

    /// The session identifier of this header.
    pub fn guid(&self) -> (guid: &GuidBytes)
        ensures
            guid@ == self@.session_guid,
    {
        &self.session_guid
    }

    /// The session identifier of this header, to be changed in place.
    pub fn mut_guid(&mut self) -> (guid: &mut GuidBytes)
        ensures
            guid@ == old(self)@.session_guid,
            final(self)@ == (PacketHeaderView { session_guid: final(guid)@, ..old(self)@ }),
    {
        &mut self.session_guid
    }

    /// This header with `guid` as its session identifier.
    pub fn set_guid(self, guid: GuidBytes) -> (header: Self)
        ensures
            header@ == (PacketHeaderView { session_guid: guid@, ..self@ }),
    {
        let mut header = self;
        header.session_guid = guid;
        header
    }

    /// Makes `guid` the session identifier.
    pub fn set_guid_ref(&mut self, guid: GuidBytes)
        ensures
            final(self)@ == (PacketHeaderView { session_guid: guid@, ..old(self)@ }),
    {
        self.session_guid = guid;
    }

    /// The encryption flags of this header.
    pub fn enc_flags(&self) -> (flags: u32)
        ensures
            flags == self@.encryption_flags,
    {
        self.encryption_flags
    }

    /// This header with `flags` as its encryption flags.
    pub fn set_enc_flags(self, flags: u32) -> (header: Self)
        ensures
            header@ == (PacketHeaderView { encryption_flags: flags, ..self@ }),
    {
        let mut header = self;
        header.encryption_flags = flags;
        header
    }

    /// Makes `flags` the encryption flags.
    pub fn set_enc_flags_ref(&mut self, flags: u32)
        ensures
            final(self)@ == (PacketHeaderView { encryption_flags: flags, ..old(self)@ }),
    {
        self.encryption_flags = flags;
    }

    /// The length that this header declares for the whole packet.
    pub fn length(&self) -> (length: u32)
        ensures
            length == self@.length,
    {
        self.length
    }

    /// This header with `length` as its declared length.
    pub fn set_length(self, length: u32) -> (header: Self)
        ensures
            header@ == (PacketHeaderView { length, ..self@ }),
    {
        let mut header = self;
        header.set_length_ref(length);
        header
    }

    /// Makes `length` the declared length.
    pub fn set_length_ref(&mut self, length: u32)
        ensures
            final(self)@ == (PacketHeaderView { length, ..old(self)@ }),
    {
        self.length = length;
    }

    /// The kind of the packet.
    pub fn get_type(&self) -> (kind: &TlvPacketType)
        ensures
            *kind == self@.kind,
    {
        &self.type_
    }

    /// The kind of the packet, to be changed in place.
    pub fn get_mut_type(&mut self) -> (kind: &mut TlvPacketType)
        ensures
            *kind == old(self)@.kind,
            final(self)@ == (PacketHeaderView { kind: *final(kind), ..old(self)@ }),
    {
        &mut self.type_
    }

    /// This header with `ty` as the packet's kind.
    pub fn set_type(self, ty: TlvPacketType) -> (header: Self)
        ensures
            header@ == (PacketHeaderView { kind: ty, ..self@ }),
    {
        let mut header = self;
        header.type_ = ty;
        header
    }

    /// Makes `ty` the packet's kind.
    pub fn set_type_ref(&mut self, ty: TlvPacketType)
        ensures
            final(self)@ == (PacketHeaderView { kind: ty, ..old(self)@ }),
    {
        self.type_ = ty;
    }

    /// Reads a header from the first thirty-two bytes of `val`.
    pub fn decode(val: &[u8]) -> (r: Result<Self, DecodeError>)
        ensures
            val@.len() < PACKET_HEADER_SIZE <==> r == Err::<Self, DecodeError>(
                DecodeError::TruncatedInput,
            ),
            val@.len() >= PACKET_HEADER_SIZE <==> r is Ok,
            r is Ok ==> r.unwrap()@ == PacketHeaderView::parse(val@),
    {
        if val.len() < PACKET_HEADER_SIZE {
            return Err(DecodeError::TruncatedInput);
        }
        let key: XorKey = [val[0], val[1], val[2], val[3]];
        let guid: GuidBytes = [
            val[4],
            val[5],
            val[6],
            val[7],
            val[8],
            val[9],
            val[10],
            val[11],
            val[12],
            val[13],
            val[14],
            val[15],
            val[16],
            val[17],
            val[18],
            val[19],
        ];
        let flags = match slice_to_u32_ntoh(slice_subrange(val, 20, 24)) {
            Ok(flags) => flags,
            Err(e) => return Err(e),
        };
        let length = match slice_to_u32_ntoh(slice_subrange(val, 24, 28)) {
            Ok(length) => length,
            Err(e) => return Err(e),
        };
        let type_ = match TlvPacketType::decode(slice_subrange(val, 28, 32)) {
            Ok(type_) => type_,
            Err(e) => return Err(e),
        };
        assert(key@ =~= val@.subrange(0, 4));
        assert(guid@ =~= val@.subrange(4, 20));
        Ok(PacketHeader { key, session_guid: guid, encryption_flags: flags, length, type_ })
    }

    /// Writes this header as its thirty-two bytes.
    pub fn encode(self) -> (bytes: Vec<u8>)
        ensures
            bytes@ == self@.wire(),
    {
        let mut header: Vec<u8> = Vec::with_capacity(PACKET_HEADER_SIZE);
        header.extend_from_slice(self.key.as_slice());
        header.extend_from_slice(self.session_guid.as_slice());
        header.append(&mut u32_to_vec_hton(self.encryption_flags));
        header.append(&mut u32_to_vec_hton(self.length));
        header.append(&mut self.type_.encode());
        assert(header@ =~= self@.wire());
        header
    }
}

pub const NULL_PACKET_SIZE: usize = PACKET_HEADER_SIZE + 5;

/// What a packet holds.
pub ghost struct PacketView {
    pub header: PacketHeaderView,
    /// The records, in their order; `None` where the packet has no list.
    pub payload: Option<Seq<TlvView>>,
    pub decompressed_buffers: Option<Seq<DecompressedBuffer>>,
    /// Whether the packet was put together here, not read from bytes.
    pub local: bool,
}

impl PacketView {
    /// The records of the packet; none where it has no list.
    pub open spec fn tlvs(self) -> Seq<TlvView> {
        match self.payload {
            Some(tlvs) => tlvs,
            None => Seq::empty(),
        }
    }

    /// The sum of the lengths that the headers of `tlvs` declare.
    pub open spec fn declared_sum(tlvs: Seq<TlvView>) -> nat
        decreases tlvs.len(),
    {
        if tlvs.len() == 0 {
            0
        } else {
            Self::declared_sum(tlvs.drop_last()) + tlvs.last().header.length as nat
        }
    }

    /// Whether the header's length is that of the packet on the wire and
    /// each record's header declares the length of its value.
    pub open spec fn wf(self) -> bool {
        &&& self.header.wf()
        &&& self.header.length == self.wire().len()
        &&& forall|i: int| 0 <= i < self.tlvs().len() ==> (#[trigger] self.tlvs()[i]).wf()
    }

    /// The bytes of the packet: the header, then each record in order.
    pub open spec fn wire(self) -> Seq<u8> {
        self.header.wire() + TlvView::wire_list(self.tlvs())
    }

    /// The packet that `s` stands for. The header's length says where the
    /// packet ends; a header that declares only itself gives no list.
    pub open spec fn parse(s: Seq<u8>) -> Result<PacketView, DecodeError> {
        if s.len() < PACKET_HEADER_SIZE {
            Err(DecodeError::TruncatedInput)
        } else {
            let header = PacketHeaderView::parse(s);
            if header.length > MAX_DECLARED_LENGTH {
                Err(DecodeError::OversizedDeclaredLength)
            } else if header.length < PACKET_HEADER_SIZE {
                Err(DecodeError::TruncatedInput)
            } else if header.length == PACKET_HEADER_SIZE {
                Ok(PacketView { header, payload: None, decompressed_buffers: None, local: false })
            } else if s.len() < header.length {
                Err(DecodeError::TruncatedValue)
            } else {
                match TlvView::parse_list(
                    s.subrange(PACKET_HEADER_SIZE as int, header.length as int),
                ) {
                    Ok(tlvs) => Ok(
                        PacketView {
                            header,
                            payload: Some(tlvs),
                            decompressed_buffers: None,
                            local: false,
                        },
                    ),
                    Err(e) => Err(e),
                }
            }
        }
    }

    /// Reading the bytes that a packet was written as gives the packet,
    /// where its header's length is that of those bytes and within the
    /// limit, each record's header declares the length of its value, and
    /// the packet is one that reading can give: not local, without
    /// decompressed values, and with no list where it has no record.
    pub proof fn lemma_parse_wire(self)
        requires
            self.wf(),
            self.header.length <= MAX_DECLARED_LENGTH,
            self.payload is Some ==> self.payload.unwrap().len() > 0,
            self.decompressed_buffers is None,
            !self.local,
        ensures
            Self::parse(self.wire()) == Ok::<PacketView, DecodeError>(self),
    {
        let tlvs = self.tlvs();
        let body = TlvView::wire_list(tlvs);
        let s = self.wire();
        self.header.lemma_parse_wire(body);
        if tlvs.len() == 0 {
            assert(body =~= Seq::<u8>::empty());
        } else {
            TlvView::lemma_wire_list_holds(tlvs, 0);
            assert forall|i: int| 0 <= i < tlvs.len() implies (#[trigger] tlvs[i]).header.length
                <= MAX_DECLARED_LENGTH by {
                TlvView::lemma_wire_list_holds(tlvs, i);
            }
            TlvView::lemma_parse_list_wire_list(tlvs);
            assert(s.subrange(PACKET_HEADER_SIZE as int, self.header.length as int) =~= body);
        }
    }
}

/// A packet: a header and a list of records.
#[derive(Clone, Debug, PartialEq, Eq, Hash)]
pub struct Packet {
    header: PacketHeader,
    payload: Option<Vec<Tlv>>,
    decompressed_buffers: Option<Vec<DecompressedBuffer>>,
    local: bool,
}

impl View for Packet {
    type V = PacketView;

    closed spec fn view(&self) -> PacketView {
        PacketView {
            header: self.header@,
            payload: match self.payload {
                Some(tlvs) => Some(tlv_views(tlvs@)),
                None => None,
            },
            decompressed_buffers: match self.decompressed_buffers {
                Some(bufs) => Some(bufs@),
                None => None,
            },
            local: self.local,
        }
    }
}

impl Packet {
    /// A local packet with a fresh header and no list of records.
    pub fn new() -> (packet: Packet)
        ensures
            packet@.payload is None,
            packet@.decompressed_buffers is None,
            packet@.local,
            packet@.header == (PacketHeaderView {
                key: Seq::new(XOR_KEY_SIZE as nat, |i: int| 0u8),
                session_guid: Seq::new(GUID_SIZE as nat, |i: int| 0u8),
                encryption_flags: 0,
                length: PACKET_HEADER_SIZE as u32,
                kind: TlvPacketType::Request,
            }),
    {
        Packet { header: PacketHeader::new(), payload: None, decompressed_buffers: None, local: true }
    }

    /// The header of this packet.
    pub fn header(&self) -> (header: &PacketHeader)
        ensures
            header@ == self@.header,
    {
        &self.header
    }

    /// The header of this packet, to be changed in place.
    pub fn mut_header(&mut self) -> (header: &mut PacketHeader)
        ensures
            header@ == old(self)@.header,
            final(self)@ == (PacketView { header: final(header)@, ..old(self)@ }),
    {
        &mut self.header
    }

    /// This packet with `header` in place of its header.
    pub fn set_header(self, header: PacketHeader) -> (packet: Self)
        ensures
            packet@ == (PacketView { header: header@, ..self@ }),
    {
        let mut packet = self;
        packet.set_header_ref(header);
        packet
    }

    /// Puts `header` in place of the header.
    pub fn set_header_ref(&mut self, header: PacketHeader)
        ensures
            final(self)@ == (PacketView { header: header@, ..old(self)@ }),
    {
        self.header = header;
    }

    /// The records of this packet, if it has a list.
    pub fn payload(&self) -> (payload: &Option<Vec<Tlv>>)
        ensures
            payload is Some <==> self@.payload is Some,
            payload is Some ==> tlv_views(payload.unwrap()@) == self@.payload.unwrap(),
    {
        &self.payload
    }

    /// This packet with `payload` as its list of records. The header's
    /// length stays as it was.
    pub fn set_payload(self, payload: Vec<Tlv>) -> (packet: Self)
        ensures
            packet@ == (PacketView { payload: Some(tlv_views(payload@)), ..self@ }),
    {
        let mut packet = self;
        packet.set_payload_ref(payload);
        packet
    }

    /// Makes `payload` the list of records. The header's length stays as it
    /// was.
    pub fn set_payload_ref(&mut self, payload: Vec<Tlv>)
        ensures
            final(self)@ == (PacketView { payload: Some(tlv_views(payload@)), ..old(self)@ }),
    {
        self.payload = Some(payload);
    }

    /// The sum of the lengths that the record headers declare. The headers
    /// themselves are not counted.
    pub fn payload_length(&self) -> (sum: u32)
        requires
            PacketView::declared_sum(self@.tlvs()) <= u32::MAX,
        ensures
            sum == PacketView::declared_sum(self@.tlvs()),
    {
        match &self.payload {
            None => 0,
            Some(p) => {
                let ghost all = tlv_views(p@);
                let mut sum: u32 = 0;
                let mut i: usize = 0;
                while i < p.len()
                    invariant
                        i <= p@.len(),
                        all == tlv_views(p@),
                        PacketView::declared_sum(all) <= u32::MAX,
                        sum == PacketView::declared_sum(all.take(i as int)),
                    decreases p@.len() - i,
                {
                    proof {
                        assert(all.take(i + 1).drop_last() =~= all.take(i as int));
                        Self::lemma_declared_sum_prefix(all, i + 1);
                    }
                    sum += p[i].header().length();
                    i += 1;
                }
                assert(all.take(i as int) =~= all);
                sum
            },
        }
    }

    proof fn lemma_declared_sum_prefix(tlvs: Seq<TlvView>, n: int)
        requires
            0 <= n <= tlvs.len(),
        ensures
            PacketView::declared_sum(tlvs.take(n)) <= PacketView::declared_sum(tlvs),
        decreases tlvs.len(),
    {
        if n < tlvs.len() {
            Self::lemma_declared_sum_prefix(tlvs.drop_last(), n);
            assert(tlvs.drop_last().take(n) =~= tlvs.take(n));
        } else {
            assert(tlvs.take(n) =~= tlvs);
        }
    }

    /// The decompressed values kept with this packet, if any.
    pub fn decompressed_buffers(&self) -> (bufs: &Option<Vec<DecompressedBuffer>>)
        ensures
            bufs is Some <==> self@.decompressed_buffers is Some,
            bufs is Some ==> bufs.unwrap()@ == self@.decompressed_buffers.unwrap(),
    {
        &self.decompressed_buffers
    }

    /// This packet with `buf` as its decompressed values.
    pub fn set_decompressed_buffers(self, buf: Vec<DecompressedBuffer>) -> (packet: Self)
        ensures
            packet@ == (PacketView { decompressed_buffers: Some(buf@), ..self@ }),
    {
        let mut packet = self;
        packet.set_decompressed_buffers_ref(buf);
        packet
    }

    /// Makes `buf` the decompressed values.
    pub fn set_decompressed_buffers_ref(&mut self, buf: Vec<DecompressedBuffer>)
        ensures
            final(self)@ == (PacketView { decompressed_buffers: Some(buf@), ..old(self)@ }),
    {
        self.decompressed_buffers = Some(buf);
    }

    /// Whether this packet was put together here, not read from bytes.
    pub fn local(&self) -> (local: bool)
        ensures
            local == self@.local,
    {
        self.local
    }

    /// This packet marked as local or not.
    pub fn set_local(self, local: bool) -> (packet: Self)
        ensures
            packet@ == (PacketView { local, ..self@ }),
    {
        let mut packet = self;
        packet.set_local_ref(local);
        packet
    }

    /// Marks this packet as local or not.
    pub fn set_local_ref(&mut self, local: bool)
        ensures
            final(self)@ == (PacketView { local, ..old(self)@ }),
    {
        self.local = local;
    }

    /// Puts `tlv` behind the records that the packet has. The header's
    /// length stays as it was.
    pub fn add_tlv(self, tlv: Tlv) -> (packet: Self)
        ensures
            packet@ == (PacketView { payload: Some(self@.tlvs().push(tlv@)), ..self@ }),
    {
        let mut packet = self;
        packet.add_tlv_ref(tlv);
        packet
    }

    /// Puts `tlv` behind the records that the packet has. The header's
    /// length stays as it was.
    pub fn add_tlv_ref(&mut self, tlv: Tlv)
        ensures
            final(self)@ == (PacketView {
                payload: Some(old(self)@.tlvs().push(tlv@)),
                ..old(self)@
            }),
    {
        let ghost before = self@.tlvs();
        let mut vec: Vec<Tlv> = match self.payload.take() {
            Some(p) => p,
            None => Vec::with_capacity(5),
        };
        assert(tlv_views(vec@) =~= before);
        assert(tlv_views(vec@.push(tlv)) =~= before.push(tlv@));
        vec.push(tlv);
        self.payload = Some(vec);
    }

    /// A local packet of kind `pkt_type` that holds `tlv` alone. The
    /// header's length is that of a header alone.
    pub fn create(pkt_type: TlvPacketType, tlv: Tlv) -> (packet: Packet)
        ensures
            packet@.payload == Some(seq![tlv@]),
            packet@.decompressed_buffers is None,
            packet@.local,
            packet@.header == (PacketHeaderView {
                key: Seq::new(XOR_KEY_SIZE as nat, |i: int| 0u8),
                session_guid: Seq::new(GUID_SIZE as nat, |i: int| 0u8),
                encryption_flags: 0,
                length: PACKET_HEADER_SIZE as u32,
                kind: pkt_type,
            }),
    {
        let header = PacketHeader::new().set_type(pkt_type);
        let packet = Packet::new().set_header(header).add_tlv(tlv);
        assert(Seq::<TlvView>::empty().push(tlv@) =~= seq![tlv@]);
        packet
    }

    /// Reads a packet from `val`. The result is marked as not local.
    pub fn decode(val: &[u8]) -> (r: Result<Packet, DecodeError>)
        ensures
            match PacketView::parse(val@) {
                Ok(packet) => r is Ok && r.unwrap()@ == packet,
                Err(e) => r is Err && r.unwrap_err() == e,
            },
            val@.len() < PACKET_HEADER_SIZE ==> r is Err && r.unwrap_err()
                == DecodeError::TruncatedInput,
    {
        let header = match PacketHeader::decode(val) {
            Ok(header) => header,
            Err(e) => return Err(e),
        };
        if header.length() > MAX_DECLARED_LENGTH {
            return Err(DecodeError::OversizedDeclaredLength);
        }
        let length = header.length() as usize;
        if length < PACKET_HEADER_SIZE {
            return Err(DecodeError::TruncatedInput);
        }
        let mut payload: Option<Vec<Tlv>> = None;
        if length != PACKET_HEADER_SIZE {
            if val.len() < length {
                return Err(DecodeError::TruncatedValue);
            }
            match Tlv::slice_to_tlv_vec(slice_subrange(val, PACKET_HEADER_SIZE, length)) {
                Ok(tlvs) => {
                    payload = Some(tlvs);
                },
                Err(e) => {
                    return Err(e);
                },
            }
        }
        Ok(Packet { header, payload, decompressed_buffers: None, local: false })
    }

    /// Writes this packet: its header as it is, then each record in order.
    /// The header's length is written as it stands; each record declares
    /// the length of its own value.
    pub fn encode(&self) -> (bytes: Vec<u8>)
        requires
            forall|i: int| 0 <= i < self@.tlvs().len() ==> (#[trigger] self@.tlvs()[i]).fits(),
        ensures
            bytes@ == self@.wire(),
    {
        let mut vec: Vec<u8> = self.header.encode();
        if let Some(pay) = &self.payload {
            let ghost all = tlv_views(pay@);
            assert(self@.tlvs() == all);
            let mut i: usize = 0;
            while i < pay.len()
                invariant
                    i <= pay@.len(),
                    all == tlv_views(pay@),
                    forall|j: int| 0 <= j < all.len() ==> (#[trigger] all[j]).fits(),
                    vec@ == self.header@.wire() + TlvView::wire_list(all.take(i as int)),
                decreases pay@.len() - i,
            {
                assert(all[i as int] == pay@[i as int]@);
                let mut tlv: Vec<u8> = pay[i].encode_one();
                proof {
                    TlvView::lemma_wire_list_push(all.take(i as int), all[i as int]);
                    assert(all.take(i as int).push(all[i as int]) =~= all.take(i + 1));
                    assert((self.header@.wire() + TlvView::wire_list(all.take(i as int)))
                        + all[i as int].wire() =~= self.header@.wire() + (TlvView::wire_list(
                        all.take(i as int),
                    ) + all[i as int].wire()));
                }
                vec.append(&mut tlv);
                i += 1;
            }
            assert(all.take(i as int) =~= all);
        } else {
            assert(TlvView::wire_list(Seq::empty()) =~= Seq::<u8>::empty());
            assert(vec@ =~= self.header@.wire() + Seq::<u8>::empty());
        }
        vec
    }
}

/// A value of a record after it was decompressed.
#[derive(Clone, Debug, PartialEq, Eq, Hash)]
pub struct DecompressedBuffer {
    buffer: Vec<u8>,
    length: u32,
}

#[derive(Clone, Copy, Debug, PartialEq, Eq, Hash)]
pub struct PacketRequestCompletion {
}

#[derive(Clone, Debug, PartialEq, Eq, Hash)]
pub struct PacketCompletionRoutineEntry {
    request_id: String,
    handler: PacketRequestCompletion,
}

} // verus!
