//! Wire format of the connection handshake: peer capabilities, the
//! connection request body, the handshake reply, and the TCP framing around
//! them, together with the decisions both peers take on what they receive.
use vstd::prelude::*;
use vstd::utf8::*;

use bytes::{Bytes, BytesMut};

use crate::byte_buffer::{
    be16, bytes_as_slice, bytes_contents, bytes_copy_from_slice, bytes_get, bytes_len,
    bytes_mut_as_slice, bytes_mut_contents, bytes_mut_extend_from_slice, bytes_mut_freeze,
    bytes_mut_put_u16, bytes_mut_put_u8, bytes_mut_with_capacity, bytes_split_off, bytes_split_to,
    from_be16,
};

verus! {

broadcast use {encode_utf8_valid_utf8, encode_utf8_decode_utf8};

/// Capability tag that announces absolute-pointer support.
pub const CAPABILITY_TAG_ABSOLUTE_POINTER: u8 = 0x80;
/// Most capability tags one peer may advertise.
pub const MAX_CAPABILITY_TAGS: usize = 16;
/// Most bytes of UTF-8 a requester name may take.
pub const MAX_REQUESTER_NAME_BYTES: usize = 512;
/// Size of the big-endian requester-name length.
pub const REQUESTER_NAME_LENGTH_SIZE: usize = 2;
/// Size of the protocol major and minor versions.
pub const PROTOCOL_VERSION_SIZE: usize = 4;
/// Size of the capability header: screen count and tag count.
pub const CAPABILITY_HEADER_SIZE: usize = 2;
/// Size of the reply status.
pub const RESPONSE_SIZE: usize = 1;
/// Size of the endpoint identity a TCP request carries.
pub const TCP_ENDPOINT_IDENTITY_SIZE: usize = 16;
/// Size of the TCP request magic `RBTC\x02`.
pub const TCP_REQUEST_MAGIC_SIZE: usize = 5;

/// The TCP handshake preface that precedes the endpoint identity.
pub open spec fn tcp_request_magic() -> Seq<u8> {
    seq![0x52u8, 0x42u8, 0x54u8, 0x43u8, 0x02u8]
}

/// An encoder profile a peer supports, identified by its capability tag.
/// Every tag but the absolute-pointer tag names an encoder profile.
#[derive(Debug, Clone, Copy, PartialEq, Eq)]
pub struct EncoderProfileTag(pub u8);

pub open spec fn is_encoder_profile_tag(tag: u8) -> bool {
    tag != CAPABILITY_TAG_ABSOLUTE_POINTER
}

impl EncoderProfileTag {
    /// The profile a capability tag names, if it names one.
    pub fn try_from_u8(tag: u8) -> (r: Option<Self>)
        ensures
            r == (if is_encoder_profile_tag(tag) {
                Some(EncoderProfileTag(tag))
            } else {
                None
            }),
    {
        if tag != CAPABILITY_TAG_ABSOLUTE_POINTER {
            Some(EncoderProfileTag(tag))
        } else {
            None
        }
    }

    pub fn as_u8(&self) -> (tag: u8)
        ensures
            tag == self.0,
    {
        self.0
    }
}

/// What a peer can do: how many screens it handles, its encoder profiles, and whether it
/// accepts absolute pointer input.
#[derive(Debug, Clone, PartialEq, Eq)]
pub struct PeerCapabilities {
    pub max_screens: u8,
    pub encoder_profiles: Vec<EncoderProfileTag>,
    pub absolute_pointer: bool,
}

/// Mathematical value of `PeerCapabilities`: profiles are their tags.
pub struct PeerCapabilitiesView {
    pub max_screens: u8,
    pub encoder_profiles: Seq<u8>,
    pub absolute_pointer: bool,
}

impl View for PeerCapabilities {
    type V = PeerCapabilitiesView;

    open spec fn view(&self) -> PeerCapabilitiesView {
        PeerCapabilitiesView {
            max_screens: self.max_screens,
            encoder_profiles: self.encoder_profiles@.map_values(|p: EncoderProfileTag| p.0),
            absolute_pointer: self.absolute_pointer,
        }
    }
}

/// A connection request: the requester's protocol version, name and capabilities.
#[derive(Debug, Clone, PartialEq, Eq)]
pub struct ConnectionRequest {
    pub protocol_major: u16,
    pub protocol_minor: u16,
    pub requester_name: String,
    pub capabilities: PeerCapabilities,
}

pub struct ConnectionRequestView {
    pub protocol_major: u16,
    pub protocol_minor: u16,
    pub requester_name: Seq<char>,
    pub capabilities: PeerCapabilitiesView,
}

impl View for ConnectionRequest {
    type V = ConnectionRequestView;

    open spec fn view(&self) -> ConnectionRequestView {
        ConnectionRequestView {
            protocol_major: self.protocol_major,
            protocol_minor: self.protocol_minor,
            requester_name: self.requester_name@,
            capabilities: self.capabilities@,
        }
    }
}

/// Status byte of a handshake reply.
#[derive(Debug, Clone, Copy, PartialEq, Eq)]
pub enum ConnectionResponse {
    Accepted,
    Rejected,
    SelfConnection,
    ProtocolMismatch,
}

pub open spec fn spec_response_status(r: ConnectionResponse) -> u8 {
    match r {
        ConnectionResponse::Accepted => 0,
        ConnectionResponse::Rejected => 1,
        ConnectionResponse::SelfConnection => 2,
        ConnectionResponse::ProtocolMismatch => 3,
    }
}

pub open spec fn spec_response_from_status(status: u8) -> Option<ConnectionResponse> {
    if status == 0 {
        Some(ConnectionResponse::Accepted)
    } else if status == 1 {
        Some(ConnectionResponse::Rejected)
    } else if status == 2 {
        Some(ConnectionResponse::SelfConnection)
    } else if status == 3 {
        Some(ConnectionResponse::ProtocolMismatch)
    } else {
        None
    }
}

impl ConnectionResponse {
    pub fn as_u8(self) -> (status: u8)
        ensures
            status == spec_response_status(self),
    {
        match self {
            ConnectionResponse::Accepted => 0,
            ConnectionResponse::Rejected => 1,
            ConnectionResponse::SelfConnection => 2,
            ConnectionResponse::ProtocolMismatch => 3,
        }
    }

    pub fn try_from_u8(status: u8) -> (r: Option<Self>)
        ensures
            r == spec_response_from_status(status),
    {
        if status == 0 {
            Some(ConnectionResponse::Accepted)
        } else if status == 1 {
            Some(ConnectionResponse::Rejected)
        } else if status == 2 {
            Some(ConnectionResponse::SelfConnection)
        } else if status == 3 {
            Some(ConnectionResponse::ProtocolMismatch)
        } else {
            None
        }
    }
}

/// The host's answer to a connection request.
#[derive(Debug, Clone, PartialEq, Eq)]
pub enum ConnectionHandshakeReply {
    Accepted { host_capabilities: PeerCapabilities },
    Rejected,
    SelfConnection,
    ProtocolMismatch,
}

pub enum ConnectionHandshakeReplyView {
    Accepted(PeerCapabilitiesView),
    Rejected,
    SelfConnection,
    ProtocolMismatch,
}

impl View for ConnectionHandshakeReply {
    type V = ConnectionHandshakeReplyView;

    open spec fn view(&self) -> ConnectionHandshakeReplyView {
        match self {
            ConnectionHandshakeReply::Accepted { host_capabilities } => {
                ConnectionHandshakeReplyView::Accepted(host_capabilities@)
            },
            ConnectionHandshakeReply::Rejected => ConnectionHandshakeReplyView::Rejected,
            ConnectionHandshakeReply::SelfConnection => ConnectionHandshakeReplyView::SelfConnection,
            ConnectionHandshakeReply::ProtocolMismatch => {
                ConnectionHandshakeReplyView::ProtocolMismatch
            },
        }
    }
}

pub open spec fn spec_reply_status(r: ConnectionHandshakeReplyView) -> ConnectionResponse {
    match r {
        ConnectionHandshakeReplyView::Accepted(_) => ConnectionResponse::Accepted,
        ConnectionHandshakeReplyView::Rejected => ConnectionResponse::Rejected,
        ConnectionHandshakeReplyView::SelfConnection => ConnectionResponse::SelfConnection,
        ConnectionHandshakeReplyView::ProtocolMismatch => ConnectionResponse::ProtocolMismatch,
    }
}

impl ConnectionHandshakeReply {
    pub fn status(&self) -> (s: ConnectionResponse)
        ensures
            s == spec_reply_status(self@),
    {
        match self {
            ConnectionHandshakeReply::Accepted { .. } => ConnectionResponse::Accepted,
            ConnectionHandshakeReply::Rejected => ConnectionResponse::Rejected,
            ConnectionHandshakeReply::SelfConnection => ConnectionResponse::SelfConnection,
            ConnectionHandshakeReply::ProtocolMismatch => ConnectionResponse::ProtocolMismatch,
        }
    }
}

/// Why a handshake message could not be encoded or decoded.
#[derive(Debug, Clone, Copy, PartialEq, Eq)]
pub enum HandshakeCodecError {
    /// More than `MAX_CAPABILITY_TAGS` capability tags to encode.
    TooManyCapabilityTags,
    /// The capability header holds fewer than two bytes.
    CapabilityHeaderTooShort { len: usize },
    /// The header advertises more than `MAX_CAPABILITY_TAGS` tags.
    CapabilityTagCountExceeded { count: usize },
    /// Fewer capability tags follow than the header advertises.
    CapabilityTagsTruncated,
    /// The requester name takes more than `MAX_REQUESTER_NAME_BYTES` bytes.
    RequesterNameTooLong { len: usize },
    /// The request body is shorter than its fixed fields.
    RequestBodyTooShort { len: usize },
    /// The request ends inside the requester-name length.
    RequesterNameLengthTruncated,
    /// The requester-name length exceeds `MAX_REQUESTER_NAME_BYTES`.
    RequesterNameLengthExceeded { len: usize },
    /// The requester-name length differs from the number of bytes that remain.
    RequesterNameLengthMismatch { declared: usize, remaining: usize },
    /// The requester name is not UTF-8.
    RequesterNameNotUtf8,
    /// The reply holds no status byte.
    ResponseEmpty,
    /// The reply status byte names no reply.
    UnknownResponseStatus { status: u8 },
    /// Bytes follow the capabilities of an accepted reply.
    TrailingResponseBytes { count: usize },
    /// The TCP request does not start with the protocol magic.
    InvalidTcpPreface,
}

// ---------------------------------------------------------------------------
// Mathematical model of the wire format.
// ---------------------------------------------------------------------------

/// The profile tags among `tags`, in order: every tag but the absolute-pointer tag.
pub open spec fn spec_profile_tags(tags: Seq<u8>) -> Seq<u8>
    decreases tags.len(),
{
    if tags.len() == 0 {
        Seq::empty()
    } else if is_encoder_profile_tag(tags.last()) {
        spec_profile_tags(tags.drop_last()).push(tags.last())
    } else {
        spec_profile_tags(tags.drop_last())
    }
}

/// The capability tags of `c` in wire order: the profiles, then the absolute-pointer tag.
pub open spec fn spec_capability_tags(c: PeerCapabilitiesView) -> Seq<u8> {
    c.encoder_profiles + if c.absolute_pointer {
        seq![CAPABILITY_TAG_ABSOLUTE_POINTER]
    } else {
        Seq::<u8>::empty()
    }
}

pub open spec fn spec_encode_capabilities(c: PeerCapabilitiesView) -> Result<
    Seq<u8>,
    HandshakeCodecError,
> {
    let tags = spec_capability_tags(c);
    if tags.len() > MAX_CAPABILITY_TAGS {
        Err(HandshakeCodecError::TooManyCapabilityTags)
    } else {
        Ok(seq![c.max_screens, tags.len() as u8] + tags)
    }
}

/// Decodes a capability block at the start of `s`; also returns the bytes after it.
pub open spec fn spec_decode_capabilities(s: Seq<u8>) -> Result<
    (PeerCapabilitiesView, Seq<u8>),
    HandshakeCodecError,
> {
    if s.len() < CAPABILITY_HEADER_SIZE {
        Err(HandshakeCodecError::CapabilityHeaderTooShort { len: s.len() as usize })
    } else if s[1] > MAX_CAPABILITY_TAGS {
        Err(HandshakeCodecError::CapabilityTagCountExceeded { count: s[1] as usize })
    } else if s.len() - CAPABILITY_HEADER_SIZE < s[1] {
        Err(HandshakeCodecError::CapabilityTagsTruncated)
    } else {
        let tags = s.subrange(2, 2 + s[1] as int);
        Ok(
            (
                PeerCapabilitiesView {
                    max_screens: s[0],
                    encoder_profiles: spec_profile_tags(tags),
                    absolute_pointer: tags.contains(CAPABILITY_TAG_ABSOLUTE_POINTER),
                },
                s.skip(2 + s[1] as int),
            ),
        )
    }
}

/// The UTF-8 bytes of a name.
pub open spec fn spec_name_bytes(name: Seq<char>) -> Seq<u8> {
    encode_utf8(name)
}

pub open spec fn spec_encode_request(r: ConnectionRequestView) -> Result<
    Seq<u8>,
    HandshakeCodecError,
> {
    let name = spec_name_bytes(r.requester_name);
    if name.len() > MAX_REQUESTER_NAME_BYTES {
        Err(HandshakeCodecError::RequesterNameTooLong { len: name.len() as usize })
    } else {
        match spec_encode_capabilities(r.capabilities) {
            Err(e) => Err(e),
            Ok(caps) => Ok(
                be16(r.protocol_major) + be16(r.protocol_minor) + caps + be16(name.len() as u16)
                    + name,
            ),
        }
    }
}

pub open spec fn spec_decode_request(s: Seq<u8>) -> Result<ConnectionRequestView, HandshakeCodecError> {
    if s.len() < PROTOCOL_VERSION_SIZE + CAPABILITY_HEADER_SIZE + REQUESTER_NAME_LENGTH_SIZE {
        Err(HandshakeCodecError::RequestBodyTooShort { len: s.len() as usize })
    } else {
        match spec_decode_capabilities(s.skip(4)) {
            Err(e) => Err(e),
            Ok((caps, rest)) => if rest.len() < REQUESTER_NAME_LENGTH_SIZE {
                Err(HandshakeCodecError::RequesterNameLengthTruncated)
            } else {
                let n = from_be16(rest[0], rest[1]);
                let name = rest.skip(2);
                if n > MAX_REQUESTER_NAME_BYTES {
                    Err(HandshakeCodecError::RequesterNameLengthExceeded { len: n as usize })
                } else if name.len() != n {
                    Err(
                        HandshakeCodecError::RequesterNameLengthMismatch {
                            declared: n as usize,
                            remaining: name.len() as usize,
                        },
                    )
                } else if !valid_utf8(name) {
                    Err(HandshakeCodecError::RequesterNameNotUtf8)
                } else {
                    Ok(
                        ConnectionRequestView {
                            protocol_major: from_be16(s[0], s[1]),
                            protocol_minor: from_be16(s[2], s[3]),
                            requester_name: decode_utf8(name),
                            capabilities: caps,
                        },
                    )
                }
            },
        }
    }
}

pub open spec fn spec_encode_reply(r: ConnectionHandshakeReplyView) -> Result<
    Seq<u8>,
    HandshakeCodecError,
> {
    match r {
        ConnectionHandshakeReplyView::Accepted(caps) => match spec_encode_capabilities(caps) {
            Err(e) => Err(e),
            Ok(c) => Ok(seq![spec_response_status(ConnectionResponse::Accepted)] + c),
        },
        _ => Ok(seq![spec_response_status(spec_reply_status(r))]),
    }
}

pub open spec fn spec_decode_reply(s: Seq<u8>) -> Result<
    ConnectionHandshakeReplyView,
    HandshakeCodecError,
> {
    if s.len() == 0 {
        Err(HandshakeCodecError::ResponseEmpty)
    } else {
        match spec_response_from_status(s[0]) {
            None => Err(HandshakeCodecError::UnknownResponseStatus { status: s[0] }),
            Some(ConnectionResponse::Accepted) => match spec_decode_capabilities(s.skip(1)) {
                Err(e) => Err(e),
                Ok((caps, rest)) => if rest.len() != 0 {
                    Err(HandshakeCodecError::TrailingResponseBytes { count: rest.len() as usize })
                } else {
                    Ok(ConnectionHandshakeReplyView::Accepted(caps))
                },
            },
            Some(ConnectionResponse::Rejected) => Ok(ConnectionHandshakeReplyView::Rejected),
            Some(ConnectionResponse::SelfConnection) => Ok(
                ConnectionHandshakeReplyView::SelfConnection,
            ),
            Some(ConnectionResponse::ProtocolMismatch) => Ok(
                ConnectionHandshakeReplyView::ProtocolMismatch,
            ),
        }
    }
}

/// A capability set that encodes: no profile uses the absolute-pointer tag and at most
/// `MAX_CAPABILITY_TAGS` tags in all.
pub open spec fn spec_capabilities_encodable(c: PeerCapabilitiesView) -> bool {
    &&& forall|i: int| 0 <= i < c.encoder_profiles.len() ==> is_encoder_profile_tag(
        #[trigger] c.encoder_profiles[i],
    )
    &&& spec_capability_tags(c).len() <= MAX_CAPABILITY_TAGS
}

// ---------------------------------------------------------------------------
// Executable codec.
// ---------------------------------------------------------------------------

/// Encodes a capability block: screen count, tag count, profile tags, then the
/// absolute-pointer tag when supported.
pub fn encode_peer_capabilities(capabilities: &PeerCapabilities) -> (r: Result<
    BytesMut,
    HandshakeCodecError,
>)
    ensures
        match r {
            Ok(b) => spec_encode_capabilities(capabilities@) == Ok::<Seq<u8>, HandshakeCodecError>(
                bytes_mut_contents(b),
            ),
            Err(e) => spec_encode_capabilities(capabilities@) == Err::<Seq<u8>, HandshakeCodecError>(e),
        },
{
    let profile_len = capabilities.encoder_profiles.len();
    if profile_len > MAX_CAPABILITY_TAGS {
        return Err(HandshakeCodecError::TooManyCapabilityTags);
    }
    let tag_count: usize = if capabilities.absolute_pointer {
        profile_len + 1
    } else {
        profile_len
    };
    if tag_count > MAX_CAPABILITY_TAGS {
        return Err(HandshakeCodecError::TooManyCapabilityTags);
    }
    let mut body = bytes_mut_with_capacity(CAPABILITY_HEADER_SIZE + tag_count);
    bytes_mut_put_u8(&mut body, capabilities.max_screens);
    bytes_mut_put_u8(&mut body, tag_count as u8);
    let ghost profiles = capabilities@.encoder_profiles;
    let mut i: usize = 0;
    while i < profile_len
        invariant
            profile_len == capabilities.encoder_profiles.len(),
            profile_len <= MAX_CAPABILITY_TAGS,
            profiles == capabilities@.encoder_profiles,
            i <= profile_len,
            bytes_mut_contents(body) == seq![capabilities.max_screens, tag_count as u8]
                + profiles.take(i as int),
        decreases profile_len - i,
    {
        bytes_mut_put_u8(&mut body, capabilities.encoder_profiles[i].as_u8());
        proof {
            assert(profiles.take(i + 1) =~= profiles.take(i as int).push(profiles[i as int]));
        }
        i = i + 1;
    }
    if capabilities.absolute_pointer {
        bytes_mut_put_u8(&mut body, CAPABILITY_TAG_ABSOLUTE_POINTER);
    }
    proof {
        assert(profiles.take(profile_len as int) =~= profiles);
        assert(bytes_mut_contents(body) =~= seq![capabilities.max_screens, tag_count as u8]
            + spec_capability_tags(capabilities@));
    }
    Ok(body)
}

/// Decodes the capability block at the start of `body`; also returns the bytes after it.
pub fn decode_peer_capabilities(body: Bytes) -> (r: Result<
    (PeerCapabilities, Bytes),
    HandshakeCodecError,
>)
    ensures
        match r {
            Ok((caps, rest)) => spec_decode_capabilities(bytes_contents(body)) == Ok::<
                (PeerCapabilitiesView, Seq<u8>),
                HandshakeCodecError,
            >((caps@, bytes_contents(rest))),
            Err(e) => spec_decode_capabilities(bytes_contents(body)) == Err::<
                (PeerCapabilitiesView, Seq<u8>),
                HandshakeCodecError,
            >(e),
        },
{
    let ghost s = bytes_contents(body);
    let mut body = body;
    let len = bytes_len(&body);
    if len < CAPABILITY_HEADER_SIZE {
        return Err(HandshakeCodecError::CapabilityHeaderTooShort { len });
    }
    let max_screens = bytes_get(&body, 0);
    let profile_count = bytes_get(&body, 1) as usize;
    let mut body = bytes_split_off(&mut body, CAPABILITY_HEADER_SIZE);
    if profile_count > MAX_CAPABILITY_TAGS {
        return Err(HandshakeCodecError::CapabilityTagCountExceeded { count: profile_count });
    }
    if bytes_len(&body) < profile_count {
        return Err(HandshakeCodecError::CapabilityTagsTruncated);
    }
    let tags_bytes = bytes_split_to(&mut body, profile_count);
    let tags = bytes_as_slice(&tags_bytes);
    let ghost tag_seq = s.subrange(2, 2 + profile_count as int);
    assert(tags@ =~= tag_seq);
    let mut encoder_profiles: Vec<EncoderProfileTag> = Vec::new();
    let mut absolute_pointer = false;
    let mut i: usize = 0;
    while i < profile_count
        invariant
            tags@ == tag_seq,
            tag_seq.len() == profile_count,
            i <= profile_count,
            encoder_profiles@.map_values(|p: EncoderProfileTag| p.0) == spec_profile_tags(
                tag_seq.take(i as int),
            ),
            absolute_pointer == tag_seq.take(i as int).contains(CAPABILITY_TAG_ABSOLUTE_POINTER),
        decreases profile_count - i,
    {
        let tag = tags[i];
        let ghost before = encoder_profiles@;
        proof {
            assert(tag_seq.take(i + 1).drop_last() =~= tag_seq.take(i as int));
            assert(tag_seq.take(i + 1).last() == tag);
        }
        if tag == CAPABILITY_TAG_ABSOLUTE_POINTER {
            absolute_pointer = true;
        } else {
            match EncoderProfileTag::try_from_u8(tag) {
                Some(profile) => {
                    encoder_profiles.push(profile);
                    proof {
                        assert(encoder_profiles@ == before.push(profile));
                        assert(encoder_profiles@.map_values(|p: EncoderProfileTag| p.0) =~= before.map_values(
                            |p: EncoderProfileTag| p.0,
                        ).push(tag));
                    }
                },
                None => {},
            }
        }
        proof {
            let prefix = tag_seq.take(i as int);
            let next = tag_seq.take(i + 1);
            assert(next =~= prefix.push(tag));
            if tag == CAPABILITY_TAG_ABSOLUTE_POINTER {
                assert(next[i as int] == tag);
            } else {
                if prefix.contains(CAPABILITY_TAG_ABSOLUTE_POINTER) {
                    let j = choose|j: int|
                        0 <= j < prefix.len() && prefix[j] == CAPABILITY_TAG_ABSOLUTE_POINTER;
                    assert(next[j] == CAPABILITY_TAG_ABSOLUTE_POINTER);
                }
                if next.contains(CAPABILITY_TAG_ABSOLUTE_POINTER) {
                    let j = choose|j: int|
                        0 <= j < next.len() && next[j] == CAPABILITY_TAG_ABSOLUTE_POINTER;
                    assert(prefix[j] == CAPABILITY_TAG_ABSOLUTE_POINTER);
                }
            }
        }
        i = i + 1;
    }
    proof {
        assert(tag_seq.take(profile_count as int) =~= tag_seq);
        assert(bytes_contents(body) =~= s.skip(2 + profile_count as int));
    }
    Ok((PeerCapabilities { max_screens, encoder_profiles, absolute_pointer }, body))
}

/// `String::from_utf8`: the string the bytes encode, when they are UTF-8.
#[verifier::external_body]
fn string_from_utf8(bytes: Vec<u8>) -> (r: Option<String>)
    ensures
        r is Some <==> valid_utf8(bytes@),
        r matches Some(s) ==> s@ == decode_utf8(bytes@),
{
    String::from_utf8(bytes).ok()
}

/// The big-endian 16-bit integer at `i` in `b`.
fn read_be16(b: &Bytes, i: usize) -> (n: u16)
    requires
        i < 4,
        i + 1 < bytes_contents(*b).len(),
    ensures
        n == from_be16(bytes_contents(*b)[i as int], bytes_contents(*b)[i + 1]),
{
    let hi = bytes_get(b, i);
    let lo = bytes_get(b, i + 1);
    hi as u16 * 256 + lo as u16
}

/// A copy of the bytes of a slice.
fn copy_bytes(s: &[u8]) -> (v: Vec<u8>)
    ensures
        v@ == s@,
{
    let mut v: Vec<u8> = Vec::new();
    let mut i: usize = 0;
    while i < s.len()
        invariant
            i <= s@.len(),
            v@ == s@.take(i as int),
        decreases s@.len() - i,
    {
        v.push(s[i]);
        proof {
            assert(s@.take(i + 1) =~= s@.take(i as int).push(s@[i as int]));
        }
        i = i + 1;
    }
    proof {
        assert(s@.take(s@.len() as int) =~= s@);
    }
    v
}

/// Encodes a connection request body: protocol major and minor, capabilities, then the
/// requester name prefixed with its length, all integers big-endian.
pub fn encode_connection_request_body(request: &ConnectionRequest) -> (r: Result<
    Bytes,
    HandshakeCodecError,
>)
    ensures
        match r {
            Ok(b) => spec_encode_request(request@) == Ok::<Seq<u8>, HandshakeCodecError>(
                bytes_contents(b),
            ),
            Err(e) => spec_encode_request(request@) == Err::<Seq<u8>, HandshakeCodecError>(e),
        },
{
    let name = request.requester_name.as_str().as_bytes();
    let name_len = name.len();
    if name_len > MAX_REQUESTER_NAME_BYTES {
        return Err(HandshakeCodecError::RequesterNameTooLong { len: name_len });
    }
    let caps = match encode_peer_capabilities(&request.capabilities) {
        Ok(caps) => caps,
        Err(e) => {
            return Err(e);
        },
    };
    let caps_slice = bytes_mut_as_slice(&caps);
    let mut body = bytes_mut_with_capacity(
        PROTOCOL_VERSION_SIZE + caps_slice.len() + REQUESTER_NAME_LENGTH_SIZE + name_len,
    );
    bytes_mut_put_u16(&mut body, request.protocol_major);
    bytes_mut_put_u16(&mut body, request.protocol_minor);
    bytes_mut_extend_from_slice(&mut body, caps_slice);
    bytes_mut_put_u16(&mut body, name_len as u16);
    bytes_mut_extend_from_slice(&mut body, name);
    Ok(bytes_mut_freeze(body))
}

/// Decodes a connection request body.
pub fn decode_connection_request_body(body: Bytes) -> (r: Result<
    ConnectionRequest,
    HandshakeCodecError,
>)
    ensures
        match r {
            Ok(req) => spec_decode_request(bytes_contents(body)) == Ok::<
                ConnectionRequestView,
                HandshakeCodecError,
            >(req@),
            Err(e) => spec_decode_request(bytes_contents(body)) == Err::<
                ConnectionRequestView,
                HandshakeCodecError,
            >(e),
        },
{
    let ghost s = bytes_contents(body);
    let mut body = body;
    let len = bytes_len(&body);
    if len < PROTOCOL_VERSION_SIZE + CAPABILITY_HEADER_SIZE + REQUESTER_NAME_LENGTH_SIZE {
        return Err(HandshakeCodecError::RequestBodyTooShort { len });
    }
    let protocol_major = read_be16(&body, 0);
    let protocol_minor = read_be16(&body, 2);
    let rest = bytes_split_off(&mut body, PROTOCOL_VERSION_SIZE);
    let (capabilities, mut rest) = match decode_peer_capabilities(rest) {
        Ok(decoded) => decoded,
        Err(e) => {
            return Err(e);
        },
    };
    if bytes_len(&rest) < REQUESTER_NAME_LENGTH_SIZE {
        return Err(HandshakeCodecError::RequesterNameLengthTruncated);
    }
    let requester_name_length = read_be16(&rest, 0) as usize;
    let name = bytes_split_off(&mut rest, REQUESTER_NAME_LENGTH_SIZE);
    if requester_name_length > MAX_REQUESTER_NAME_BYTES {
        return Err(HandshakeCodecError::RequesterNameLengthExceeded { len: requester_name_length });
    }
    let remaining = bytes_len(&name);
    if remaining != requester_name_length {
        return Err(
            HandshakeCodecError::RequesterNameLengthMismatch {
                declared: requester_name_length,
                remaining,
            },
        );
    }
    let name_bytes = copy_bytes(bytes_as_slice(&name));
    let requester_name = match string_from_utf8(name_bytes) {
        Some(name) => name,
        None => {
            return Err(HandshakeCodecError::RequesterNameNotUtf8);
        },
    };
    Ok(ConnectionRequest { protocol_major, protocol_minor, requester_name, capabilities })
}

/// Encodes a handshake reply: the status byte, followed by the host capabilities when
/// the request was accepted.
pub fn encode_connection_reply(reply: &ConnectionHandshakeReply) -> (r: Result<
    Bytes,
    HandshakeCodecError,
>)
    ensures
        match r {
            Ok(b) => spec_encode_reply(reply@) == Ok::<Seq<u8>, HandshakeCodecError>(
                bytes_contents(b),
            ),
            Err(e) => spec_encode_reply(reply@) == Err::<Seq<u8>, HandshakeCodecError>(e),
        },
{
    match reply {
        ConnectionHandshakeReply::Accepted { host_capabilities } => {
            let caps = match encode_peer_capabilities(host_capabilities) {
                Ok(caps) => caps,
                Err(e) => {
                    return Err(e);
                },
            };
            let caps_slice = bytes_mut_as_slice(&caps);
            let mut body = bytes_mut_with_capacity(1 + caps_slice.len());
            bytes_mut_put_u8(&mut body, ConnectionResponse::Accepted.as_u8());
            bytes_mut_extend_from_slice(&mut body, caps_slice);
            Ok(bytes_mut_freeze(body))
        },
        other => {
            let status = [other.status().as_u8()];
            let r = bytes_copy_from_slice(&status);
            assert(bytes_contents(r) =~= seq![spec_response_status(spec_reply_status(reply@))]);
            Ok(r)
        },
    }
}

/// Decodes a handshake reply. Only an accepted reply carries capabilities and must end
/// with them.
pub fn decode_connection_reply(body: Bytes) -> (r: Result<
    ConnectionHandshakeReply,
    HandshakeCodecError,
>)
    ensures
        match r {
            Ok(reply) => spec_decode_reply(bytes_contents(body)) == Ok::<
                ConnectionHandshakeReplyView,
                HandshakeCodecError,
            >(reply@),
            Err(e) => spec_decode_reply(bytes_contents(body)) == Err::<
                ConnectionHandshakeReplyView,
                HandshakeCodecError,
            >(e),
        },
{
    let mut body = body;
    if bytes_len(&body) == 0 {
        return Err(HandshakeCodecError::ResponseEmpty);
    }
    let status_byte = bytes_get(&body, 0);
    let status = match ConnectionResponse::try_from_u8(status_byte) {
        Some(status) => status,
        None => {
            return Err(HandshakeCodecError::UnknownResponseStatus { status: status_byte });
        },
    };
    let rest = bytes_split_off(&mut body, RESPONSE_SIZE);
    match status {
        ConnectionResponse::Accepted => {
            let (host_capabilities, rest) = match decode_peer_capabilities(rest) {
                Ok(decoded) => decoded,
                Err(e) => {
                    return Err(e);
                },
            };
            let trailing = bytes_len(&rest);
            if trailing != 0 {
                return Err(HandshakeCodecError::TrailingResponseBytes { count: trailing });
            }
            Ok(ConnectionHandshakeReply::Accepted { host_capabilities })
        },
        ConnectionResponse::Rejected => Ok(ConnectionHandshakeReply::Rejected),
        ConnectionResponse::SelfConnection => Ok(ConnectionHandshakeReply::SelfConnection),
        ConnectionResponse::ProtocolMismatch => Ok(ConnectionHandshakeReply::ProtocolMismatch),
    }
}

// ---------------------------------------------------------------------------
// Laws of the wire format.
// ---------------------------------------------------------------------------

proof fn lemma_be16_roundtrip(n: u16)
    ensures
        from_be16(be16(n)[0], be16(n)[1]) == n,
        be16(n).len() == 2,
{
    assert((n / 256) * 256 + n % 256 == n);
}

proof fn lemma_profile_tags_identity(profiles: Seq<u8>)
    requires
        forall|i: int| 0 <= i < profiles.len() ==> is_encoder_profile_tag(#[trigger] profiles[i]),
    ensures
        spec_profile_tags(profiles) == profiles,
    decreases profiles.len(),
{
    if profiles.len() == 0 {
        assert(profiles =~= Seq::<u8>::empty());
    } else {
        let prefix = profiles.drop_last();
        assert forall|i: int| 0 <= i < prefix.len() implies is_encoder_profile_tag(
            #[trigger] prefix[i],
        ) by {
            assert(prefix[i] == profiles[i]);
        }
        lemma_profile_tags_identity(prefix);
        assert(is_encoder_profile_tag(profiles[profiles.len() - 1]));
        assert(prefix.push(profiles.last()) =~= profiles);
    }
}

proof fn lemma_capability_tags_decode(c: PeerCapabilitiesView)
    requires
        spec_capabilities_encodable(c),
    ensures
        spec_profile_tags(spec_capability_tags(c)) == c.encoder_profiles,
        spec_capability_tags(c).contains(CAPABILITY_TAG_ABSOLUTE_POINTER) == c.absolute_pointer,
{
    let tags = spec_capability_tags(c);
    lemma_profile_tags_identity(c.encoder_profiles);
    if c.absolute_pointer {
        assert(tags.drop_last() =~= c.encoder_profiles);
        assert(tags.last() == CAPABILITY_TAG_ABSOLUTE_POINTER);
        assert(tags[tags.len() - 1] == CAPABILITY_TAG_ABSOLUTE_POINTER);
    } else {
        assert(tags =~= c.encoder_profiles);
        if tags.contains(CAPABILITY_TAG_ABSOLUTE_POINTER) {
            let j = choose|j: int| 0 <= j < tags.len() && tags[j] == CAPABILITY_TAG_ABSOLUTE_POINTER;
            assert(is_encoder_profile_tag(c.encoder_profiles[j]));
        }
    }
}

/// Decoding an encoded capability block gives back the capabilities and leaves whatever
/// followed the block untouched.
pub proof fn capabilities_decode_inverts_encode(c: PeerCapabilitiesView, rest: Seq<u8>)
    requires
        spec_capabilities_encodable(c),
    ensures
        spec_encode_capabilities(c) is Ok,
        spec_encode_capabilities(c)->Ok_0.len() == 2 + spec_capability_tags(c).len(),
        spec_decode_capabilities(spec_encode_capabilities(c)->Ok_0 + rest) == Ok::<
            (PeerCapabilitiesView, Seq<u8>),
            HandshakeCodecError,
        >((c, rest)),
{
    let tags = spec_capability_tags(c);
    let encoded = spec_encode_capabilities(c)->Ok_0;
    let s = encoded + rest;
    lemma_capability_tags_decode(c);
    assert(s[0] == c.max_screens);
    assert(s[1] == tags.len() as u8);
    assert(s.subrange(2, 2 + tags.len() as int) =~= tags);
    assert(s.skip(2 + tags.len() as int) =~= rest);
    let decoded = spec_decode_capabilities(s)->Ok_0;
    assert(decoded.0.encoder_profiles =~= c.encoder_profiles);
}

/// Capabilities with more tags than a block can carry are refused by the encoder.
pub proof fn too_many_capability_tags_are_refused(c: PeerCapabilitiesView)
    requires
        spec_capability_tags(c).len() > MAX_CAPABILITY_TAGS,
    ensures
        spec_encode_capabilities(c) == Err::<Seq<u8>, HandshakeCodecError>(
            HandshakeCodecError::TooManyCapabilityTags,
        ),
{
}

/// Decoding an encoded connection request gives back the request: every request whose
/// capabilities encode and whose name takes at most `MAX_REQUESTER_NAME_BYTES` bytes
/// survives the trip over the wire unchanged.
pub proof fn request_decode_inverts_encode(r: ConnectionRequestView)
    requires
        spec_capabilities_encodable(r.capabilities),
        spec_name_bytes(r.requester_name).len() <= MAX_REQUESTER_NAME_BYTES,
    ensures
        spec_encode_request(r) is Ok,
        spec_decode_request(spec_encode_request(r)->Ok_0) == Ok::<
            ConnectionRequestView,
            HandshakeCodecError,
        >(r),
{
    let name = spec_name_bytes(r.requester_name);
    let n = name.len() as u16;
    capabilities_decode_inverts_encode(r.capabilities, be16(n) + name);
    let caps = spec_encode_capabilities(r.capabilities)->Ok_0;
    let s = be16(r.protocol_major) + be16(r.protocol_minor) + caps + be16(n) + name;
    assert(spec_encode_request(r)->Ok_0 == s);
    lemma_be16_roundtrip(r.protocol_major);
    lemma_be16_roundtrip(r.protocol_minor);
    lemma_be16_roundtrip(n);
    assert(s.skip(4) =~= caps + (be16(n) + name));
    let rest = be16(n) + name;
    assert(rest.skip(2) =~= name);
    assert(rest[0] == be16(n)[0] && rest[1] == be16(n)[1]);
    assert(s[0] == be16(r.protocol_major)[0] && s[1] == be16(r.protocol_major)[1]);
    assert(s[2] == be16(r.protocol_minor)[0] && s[3] == be16(r.protocol_minor)[1]);
    let decoded = spec_decode_request(s)->Ok_0;
    assert(decoded.requester_name =~= r.requester_name);
    assert(decoded.capabilities.encoder_profiles =~= r.capabilities.encoder_profiles);
}

/// Decoding an encoded handshake reply gives back the reply.
pub proof fn reply_decode_inverts_encode(r: ConnectionHandshakeReplyView)
    requires
        r matches ConnectionHandshakeReplyView::Accepted(caps) ==> spec_capabilities_encodable(caps),
    ensures
        spec_encode_reply(r) is Ok,
        spec_decode_reply(spec_encode_reply(r)->Ok_0) == Ok::<
            ConnectionHandshakeReplyView,
            HandshakeCodecError,
        >(r),
{
    match r {
        ConnectionHandshakeReplyView::Accepted(caps) => {
            capabilities_decode_inverts_encode(caps, Seq::<u8>::empty());
            let c = spec_encode_capabilities(caps)->Ok_0;
            let s = seq![0u8] + c;
            assert(s.skip(1) =~= c + Seq::<u8>::empty());
            let decoded = spec_decode_reply(s);
            assert(decoded == Ok::<ConnectionHandshakeReplyView, HandshakeCodecError>(
                ConnectionHandshakeReplyView::Accepted(caps),
            ));
        },
        _ => {},
    }
}

// ---------------------------------------------------------------------------
// TCP framing and the decisions taken on a handshake.
// ---------------------------------------------------------------------------

/// A TCP connection request: magic, the requester's endpoint identity, then the body.
pub open spec fn spec_encode_tcp_request(identity: Seq<u8>, r: ConnectionRequestView) -> Result<
    Seq<u8>,
    HandshakeCodecError,
> {
    match spec_encode_request(r) {
        Err(e) => Err(e),
        Ok(body) => Ok(tcp_request_magic() + identity + body),
    }
}

pub open spec fn spec_tcp_request_preface(preface: Seq<u8>) -> Result<Seq<u8>, HandshakeCodecError> {
    if preface.take(TCP_REQUEST_MAGIC_SIZE as int) == tcp_request_magic() {
        Ok(preface.subrange(TCP_REQUEST_MAGIC_SIZE as int, preface.len() as int))
    } else {
        Err(HandshakeCodecError::InvalidTcpPreface)
    }
}

pub open spec fn spec_tcp_request_tag_count(fixed: Seq<u8>) -> Result<usize, HandshakeCodecError> {
    if fixed[5] > MAX_CAPABILITY_TAGS {
        Err(HandshakeCodecError::CapabilityTagCountExceeded { count: fixed[5] as usize })
    } else {
        Ok(fixed[5] as usize)
    }
}

pub open spec fn spec_tcp_requester_name_length(tail: Seq<u8>, tag_count: usize) -> Result<
    usize,
    HandshakeCodecError,
> {
    let n = from_be16(tail[tag_count as int], tail[tag_count + 1]);
    if n > MAX_REQUESTER_NAME_BYTES {
        Err(HandshakeCodecError::RequesterNameLengthExceeded { len: n as usize })
    } else {
        Ok(n as usize)
    }
}

pub open spec fn spec_capability_tag_count(header: Seq<u8>) -> Result<usize, HandshakeCodecError> {
    if header[1] > MAX_CAPABILITY_TAGS {
        Err(HandshakeCodecError::CapabilityTagCountExceeded { count: header[1] as usize })
    } else {
        Ok(header[1] as usize)
    }
}

/// Encodes a TCP connection request message.
pub fn encode_tcp_request_message(
    endpoint_identity: &[u8; TCP_ENDPOINT_IDENTITY_SIZE],
    request: &ConnectionRequest,
) -> (r: Result<Bytes, HandshakeCodecError>)
    ensures
        match r {
            Ok(b) => spec_encode_tcp_request(endpoint_identity@, request@) == Ok::<
                Seq<u8>,
                HandshakeCodecError,
            >(bytes_contents(b)),
            Err(e) => spec_encode_tcp_request(endpoint_identity@, request@) == Err::<
                Seq<u8>,
                HandshakeCodecError,
            >(e),
        },
{
    let body = match encode_connection_request_body(request) {
        Ok(body) => body,
        Err(e) => {
            return Err(e);
        },
    };
    let body_slice = bytes_as_slice(&body);
    let magic: [u8; TCP_REQUEST_MAGIC_SIZE] = [0x52, 0x42, 0x54, 0x43, 0x02];
    assert(magic@ =~= tcp_request_magic());
    let mut message = bytes_mut_with_capacity(
        TCP_REQUEST_MAGIC_SIZE + TCP_ENDPOINT_IDENTITY_SIZE + body_slice.len(),
    );
    bytes_mut_extend_from_slice(&mut message, magic.as_slice());
    bytes_mut_extend_from_slice(&mut message, endpoint_identity.as_slice());
    bytes_mut_extend_from_slice(&mut message, body_slice);
    Ok(bytes_mut_freeze(message))
}

/// Checks the magic of a TCP request preface and returns the requester's endpoint identity.
pub fn parse_tcp_request_preface(preface: &[u8]) -> (r: Result<
    [u8; TCP_ENDPOINT_IDENTITY_SIZE],
    HandshakeCodecError,
>)
    requires
        preface@.len() == TCP_REQUEST_MAGIC_SIZE + TCP_ENDPOINT_IDENTITY_SIZE,
    ensures
        match r {
            Ok(id) => spec_tcp_request_preface(preface@) == Ok::<Seq<u8>, HandshakeCodecError>(
                id@,
            ),
            Err(e) => spec_tcp_request_preface(preface@) == Err::<Seq<u8>, HandshakeCodecError>(e),
        },
{
    if !(preface[0] == 0x52 && preface[1] == 0x42 && preface[2] == 0x54 && preface[3] == 0x43
        && preface[4] == 0x02) {
        proof {
            if preface@.take(5) == tcp_request_magic() {
                assert(preface@.take(5)[0] == 0x52);
                assert(preface@.take(5)[1] == 0x42);
                assert(preface@.take(5)[2] == 0x54);
                assert(preface@.take(5)[3] == 0x43);
                assert(preface@.take(5)[4] == 0x02);
            }
        }
        return Err(HandshakeCodecError::InvalidTcpPreface);
    }
    assert(preface@.take(5) =~= tcp_request_magic());
    let mut identity = [0u8; TCP_ENDPOINT_IDENTITY_SIZE];
    let mut i: usize = 0;
    while i < TCP_ENDPOINT_IDENTITY_SIZE
        invariant
            preface@.len() == 21,
            i <= 16,
            forall|j: int| 0 <= j < i ==> identity@[j] == preface@[j + 5],
        decreases 16 - i,
    {
        identity[i] = preface[i + TCP_REQUEST_MAGIC_SIZE];
        i = i + 1;
    }
    assert(identity@ =~= preface@.subrange(5, 21));
    Ok(identity)
}

/// The number of capability tags a TCP request advertises, read from the six bytes of
/// protocol versions and capability header that follow the preface.
pub fn tcp_request_tag_count(fixed: &[u8]) -> (r: Result<usize, HandshakeCodecError>)
    requires
        fixed@.len() == PROTOCOL_VERSION_SIZE + CAPABILITY_HEADER_SIZE,
    ensures
        r == spec_tcp_request_tag_count(fixed@),
{
    let count = fixed[5] as usize;
    if count > MAX_CAPABILITY_TAGS {
        return Err(HandshakeCodecError::CapabilityTagCountExceeded { count });
    }
    Ok(count)
}

/// The requester-name length of a TCP request, read after its `tag_count` capability tags.
pub fn tcp_requester_name_length(profiles_and_name_len: &[u8], tag_count: usize) -> (r: Result<
    usize,
    HandshakeCodecError,
>)
    requires
        tag_count <= MAX_CAPABILITY_TAGS,
        profiles_and_name_len@.len() == tag_count + REQUESTER_NAME_LENGTH_SIZE,
    ensures
        r == spec_tcp_requester_name_length(profiles_and_name_len@, tag_count),
{
    let hi = profiles_and_name_len[tag_count];
    let lo = profiles_and_name_len[tag_count + 1];
    let n = (hi as u16 * 256 + lo as u16) as usize;
    if n > MAX_REQUESTER_NAME_BYTES {
        return Err(HandshakeCodecError::RequesterNameLengthExceeded { len: n });
    }
    Ok(n)
}

/// Reassembles and decodes the body of a TCP request from the pieces read off the stream.
pub fn decode_tcp_request_body(
    fixed: &[u8],
    profiles_and_name_len: &[u8],
    requester_name: &[u8],
) -> (r: Result<ConnectionRequest, HandshakeCodecError>)
    requires
        fixed@.len() + profiles_and_name_len@.len() + requester_name@.len() <= isize::MAX,
    ensures
        match r {
            Ok(req) => spec_decode_request(fixed@ + profiles_and_name_len@ + requester_name@)
                == Ok::<ConnectionRequestView, HandshakeCodecError>(req@),
            Err(e) => spec_decode_request(fixed@ + profiles_and_name_len@ + requester_name@)
                == Err::<ConnectionRequestView, HandshakeCodecError>(e),
        },
{
    let mut body = bytes_mut_with_capacity(
        fixed.len() + profiles_and_name_len.len() + requester_name.len(),
    );
    bytes_mut_extend_from_slice(&mut body, fixed);
    bytes_mut_extend_from_slice(&mut body, profiles_and_name_len);
    bytes_mut_extend_from_slice(&mut body, requester_name);
    decode_connection_request_body(bytes_mut_freeze(body))
}

/// The reply status a TCP response starts with.
pub fn tcp_response_status(status: u8) -> (r: Result<ConnectionResponse, HandshakeCodecError>)
    ensures
        r == (match spec_response_from_status(status) {
            Some(s) => Ok::<ConnectionResponse, HandshakeCodecError>(s),
            None => Err(HandshakeCodecError::UnknownResponseStatus { status }),
        }),
{
    match ConnectionResponse::try_from_u8(status) {
        Some(s) => Ok(s),
        None => Err(HandshakeCodecError::UnknownResponseStatus { status }),
    }
}

/// The number of capability tags a two-byte capability header advertises.
pub fn capability_tag_count(header: &[u8]) -> (r: Result<usize, HandshakeCodecError>)
    requires
        header@.len() == CAPABILITY_HEADER_SIZE,
    ensures
        r == spec_capability_tag_count(header@),
{
    let count = header[1] as usize;
    if count > MAX_CAPABILITY_TAGS {
        return Err(HandshakeCodecError::CapabilityTagCountExceeded { count });
    }
    Ok(count)
}

/// Decodes an accepted TCP reply from its capability header and tags.
pub fn decode_tcp_accepted_reply(header: &[u8], tags: &[u8]) -> (r: Result<
    ConnectionHandshakeReply,
    HandshakeCodecError,
>)
    requires
        header@.len() + tags@.len() + 1 <= isize::MAX,
    ensures
        match r {
            Ok(reply) => spec_decode_reply(seq![0u8] + header@ + tags@) == Ok::<
                ConnectionHandshakeReplyView,
                HandshakeCodecError,
            >(reply@),
            Err(e) => spec_decode_reply(seq![0u8] + header@ + tags@) == Err::<
                ConnectionHandshakeReplyView,
                HandshakeCodecError,
            >(e),
        },
{
    let mut body = bytes_mut_with_capacity(1 + header.len() + tags.len());
    bytes_mut_put_u8(&mut body, ConnectionResponse::Accepted.as_u8());
    bytes_mut_extend_from_slice(&mut body, header);
    bytes_mut_extend_from_slice(&mut body, tags);
    proof {
        assert(bytes_mut_contents(body) =~= seq![0u8] + header@ + tags@);
    }
    decode_connection_reply(bytes_mut_freeze(body))
}

impl ConnectionRequest {
    /// A request is compatible when it speaks the local protocol major version.
    pub fn is_protocol_compatible(&self, local_protocol_major: u16) -> (b: bool)
        ensures
            b == (self.protocol_major == local_protocol_major),
    {
        self.protocol_major == local_protocol_major
    }
}

/// What the host does with a connection request it received.
#[derive(Debug, Clone, Copy, PartialEq, Eq)]
pub enum RequestDisposition {
    /// The request came from this very endpoint: answer `SelfConnection` and close.
    RejectSelfConnection,
    /// The request speaks another protocol major version: answer `ProtocolMismatch` and close.
    RejectProtocolMismatch,
    /// The request waits for the user's approval.
    AwaitApproval,
}

/// Decides on a TCP request: a request from this endpoint is refused first, then one of
/// another protocol major version; every other request waits for approval.
pub fn tcp_request_disposition(
    peer_identity: &[u8; TCP_ENDPOINT_IDENTITY_SIZE],
    endpoint_identity: &[u8; TCP_ENDPOINT_IDENTITY_SIZE],
    request: &ConnectionRequest,
    local_protocol_major: u16,
) -> (d: RequestDisposition)
    ensures
        d == (if peer_identity@ == endpoint_identity@ {
            RequestDisposition::RejectSelfConnection
        } else if request.protocol_major != local_protocol_major {
            RequestDisposition::RejectProtocolMismatch
        } else {
            RequestDisposition::AwaitApproval
        }),
{
    let mut same = true;
    let mut i: usize = 0;
    while i < TCP_ENDPOINT_IDENTITY_SIZE
        invariant
            i <= 16,
            same == (forall|j: int| 0 <= j < i ==> peer_identity@[j] == endpoint_identity@[j]),
        decreases 16 - i,
    {
        if peer_identity[i] != endpoint_identity[i] {
            same = false;
        }
        i = i + 1;
    }
    if same {
        assert(peer_identity@ =~= endpoint_identity@);
        return RequestDisposition::RejectSelfConnection;
    }
    if !request.is_protocol_compatible(local_protocol_major) {
        return RequestDisposition::RejectProtocolMismatch;
    }
    RequestDisposition::AwaitApproval
}

/// Decides on a QUIC request, whose self-connections the QUIC endpoint already refused.
pub fn quic_request_disposition(request: &ConnectionRequest, local_protocol_major: u16) -> (d:
    RequestDisposition)
    ensures
        d == (if request.protocol_major != local_protocol_major {
            RequestDisposition::RejectProtocolMismatch
        } else {
            RequestDisposition::AwaitApproval
        }),
{
    if !request.is_protocol_compatible(local_protocol_major) {
        return RequestDisposition::RejectProtocolMismatch;
    }
    RequestDisposition::AwaitApproval
}

impl RequestDisposition {
    /// The reply the host sends without asking the user, if any.
    pub fn immediate_reply(self) -> (r: Option<ConnectionHandshakeReply>)
        ensures
            r == (match self {
                RequestDisposition::RejectSelfConnection => Some(
                    ConnectionHandshakeReply::SelfConnection,
                ),
                RequestDisposition::RejectProtocolMismatch => Some(
                    ConnectionHandshakeReply::ProtocolMismatch,
                ),
                RequestDisposition::AwaitApproval => None,
            }),
    {
        match self {
            RequestDisposition::RejectSelfConnection => Some(
                ConnectionHandshakeReply::SelfConnection,
            ),
            RequestDisposition::RejectProtocolMismatch => Some(
                ConnectionHandshakeReply::ProtocolMismatch,
            ),
            RequestDisposition::AwaitApproval => None,
        }
    }
}

/// How a requester's handshake ended.
#[derive(Debug, Clone, PartialEq, Eq)]
pub enum HandshakeOutcome {
    /// The host accepted; the transport can be opened.
    Accepted { host_capabilities: PeerCapabilities },
    Rejected,
    SelfConnection,
    /// The host speaks another protocol; the versions reported are the requester's own.
    ProtocolMismatch { peer_major: u16, peer_minor: u16 },
}

/// Maps the host's reply to the requester's outcome.
pub fn handshake_outcome(
    reply: ConnectionHandshakeReply,
    request_major: u16,
    request_minor: u16,
) -> (o: HandshakeOutcome)
    ensures
        match reply {
            ConnectionHandshakeReply::Accepted { host_capabilities } => o
                == HandshakeOutcome::Accepted { host_capabilities },
            ConnectionHandshakeReply::Rejected => o == HandshakeOutcome::Rejected,
            ConnectionHandshakeReply::SelfConnection => o == HandshakeOutcome::SelfConnection,
            ConnectionHandshakeReply::ProtocolMismatch => o == HandshakeOutcome::ProtocolMismatch {
                peer_major: request_major,
                peer_minor: request_minor,
            },
        },
{
    match reply {
        ConnectionHandshakeReply::Accepted { host_capabilities } => HandshakeOutcome::Accepted {
            host_capabilities,
        },
        ConnectionHandshakeReply::Rejected => HandshakeOutcome::Rejected,
        ConnectionHandshakeReply::SelfConnection => HandshakeOutcome::SelfConnection,
        ConnectionHandshakeReply::ProtocolMismatch => HandshakeOutcome::ProtocolMismatch {
            peer_major: request_major,
            peer_minor: request_minor,
        },
    }
}

/// Reading an encoded TCP request the way the host does (preface, fixed header, tags and
/// name length, then the name) finds the requester's identity, consumes exactly the
/// message, and decodes the request that was sent.
#[verifier::rlimit(40)]
pub proof fn tcp_request_staged_read_recovers_request(identity: Seq<u8>, r: ConnectionRequestView)
    requires
        identity.len() == TCP_ENDPOINT_IDENTITY_SIZE,
        spec_capabilities_encodable(r.capabilities),
        spec_name_bytes(r.requester_name).len() <= MAX_REQUESTER_NAME_BYTES,
    ensures
        spec_encode_tcp_request(identity, r) is Ok,
        spec_tcp_request_preface(spec_encode_tcp_request(identity, r)->Ok_0.take(21)) == Ok::<
            Seq<u8>,
            HandshakeCodecError,
        >(identity),
        spec_tcp_request_tag_count(spec_encode_tcp_request(identity, r)->Ok_0.subrange(21, 27))
            == Ok::<usize, HandshakeCodecError>(spec_capability_tags(r.capabilities).len() as usize),
        spec_tcp_requester_name_length(
            spec_encode_tcp_request(identity, r)->Ok_0.subrange(
                27,
                29 + spec_capability_tags(r.capabilities).len() as int,
            ),
            spec_capability_tags(r.capabilities).len() as usize,
        ) == Ok::<usize, HandshakeCodecError>(spec_name_bytes(r.requester_name).len() as usize),
        spec_encode_tcp_request(identity, r)->Ok_0.len() == 29 + spec_capability_tags(
            r.capabilities,
        ).len() + spec_name_bytes(r.requester_name).len(),
        spec_decode_request(
            spec_encode_tcp_request(identity, r)->Ok_0.subrange(21, 27)
                + spec_encode_tcp_request(identity, r)->Ok_0.subrange(
                27,
                29 + spec_capability_tags(r.capabilities).len() as int,
            ) + spec_encode_tcp_request(identity, r)->Ok_0.subrange(
                29 + spec_capability_tags(r.capabilities).len() as int,
                spec_encode_tcp_request(identity, r)->Ok_0.len() as int,
            ),
        ) == Ok::<ConnectionRequestView, HandshakeCodecError>(r),
{
    request_decode_inverts_encode(r);
    let body = spec_encode_request(r)->Ok_0;
    let m = tcp_request_magic() + identity + body;
    let c: int = spec_capability_tags(r.capabilities).len() as int;
    let name = spec_name_bytes(r.requester_name);
    let n = name.len() as u16;
    let caps = spec_encode_capabilities(r.capabilities)->Ok_0;
    assert(body == be16(r.protocol_major) + be16(r.protocol_minor) + caps + be16(n) + name);
    lemma_be16_roundtrip(n);
    assert(m.take(21).take(5) =~= tcp_request_magic());
    assert(m.take(21).subrange(5, 21) =~= identity);
    assert(m.subrange(21, 27)[5] == caps[1]);
    assert(caps[1] == c as u8);
    let tail = m.subrange(27, 29 + c);
    assert(tail[c as int] == be16(n)[0]);
    assert(tail[c + 1] == be16(n)[1]);
    assert(m.subrange(21, 27) + m.subrange(27, 29 + c) + m.subrange(29 + c, m.len() as int)
        =~= body);
}

/// Reading an encoded reply the way the requester does over TCP (status byte, then for an
/// acceptance the capability header and its tags) consumes exactly the reply and decodes it.
pub proof fn tcp_reply_staged_read_recovers_reply(r: ConnectionHandshakeReplyView)
    requires
        r matches ConnectionHandshakeReplyView::Accepted(caps) ==> spec_capabilities_encodable(caps),
    ensures
        spec_encode_reply(r) is Ok,
        spec_response_from_status(spec_encode_reply(r)->Ok_0[0]) == Some(spec_reply_status(r)),
        r matches ConnectionHandshakeReplyView::Accepted(caps) ==> {
            let m = spec_encode_reply(r)->Ok_0;
            let c: int = spec_capability_tags(caps).len() as int;
            &&& spec_capability_tag_count(m.subrange(1, 3)) == Ok::<usize, HandshakeCodecError>(
                c as usize,
            )
            &&& m.len() == 3 + c
            &&& spec_decode_reply(seq![0u8] + m.subrange(1, 3) + m.subrange(3, 3 + c)) == Ok::<
                ConnectionHandshakeReplyView,
                HandshakeCodecError,
            >(r)
        },
        !(r is Accepted) ==> spec_encode_reply(r)->Ok_0.len() == 1,
{
    reply_decode_inverts_encode(r);
    match r {
        ConnectionHandshakeReplyView::Accepted(caps) => {
            let m = spec_encode_reply(r)->Ok_0;
            let c: int = spec_capability_tags(caps).len() as int;
            assert(m.subrange(1, 3)[1] == c as u8);
            assert(seq![0u8] + m.subrange(1, 3) + m.subrange(3, 3 + c) =~= m);
        },
        _ => {},
    }
}

} // verus!
