//! The message bus data model: addresses, attributes, payloads and messages,
//! as plain values.

use vstd::prelude::*;

verus! {

/// A 128-bit identifier, held as two 64-bit halves.
#[derive(Clone, Copy, Debug, PartialEq, Eq)]
pub struct Uuid {
    pub msb: u64,
    pub lsb: u64,
}

/// How a remote authority is designated.
#[derive(Clone, Debug, PartialEq, Eq)]
pub enum Remote {
    Name(String),
    Ip(Vec<u8>),
    Id(Vec<u8>),
}

/// The authority of an address: where the entity lives.
#[derive(Clone, Debug, PartialEq, Eq)]
pub struct UAuthority {
    pub remote: Option<Remote>,
}

/// The software entity of an address.
#[derive(Clone, Debug, PartialEq, Eq)]
pub struct UEntity {
    pub name: String,
    pub id: Option<u32>,
    pub version_major: Option<u32>,
    pub version_minor: Option<u32>,
}

/// The resource of an address: a topic or a method of the entity.
#[derive(Clone, Debug, PartialEq, Eq)]
pub struct UResource {
    pub name: String,
    pub instance: Option<String>,
    pub message: Option<String>,
    pub id: Option<u32>,
}

/// An address on the message bus.
#[derive(Clone, Debug, PartialEq, Eq)]
pub struct UUri {
    pub authority: Option<UAuthority>,
    pub entity: Option<UEntity>,
    pub resource: Option<UResource>,
}

impl Default for UAuthority {
    fn default() -> (authority: UAuthority)
        ensures
            authority.remote is None,
    {
        UAuthority { remote: None }
    }
}

impl Default for UEntity {
    fn default() -> (entity: UEntity)
        ensures
            entity.name@.len() == 0,
            entity.id is None,
            entity.version_major is None,
            entity.version_minor is None,
    {
        UEntity { name: String::new(), id: None, version_major: None, version_minor: None }
    }
}

impl Default for UResource {
    fn default() -> (resource: UResource)
        ensures
            resource.name@.len() == 0,
            resource.instance is None,
            resource.message is None,
            resource.id is None,
    {
        UResource { name: String::new(), instance: None, message: None, id: None }
    }
}

impl Default for UUri {
    fn default() -> (uri: UUri)
        ensures
            uri.authority is None,
            uri.entity is None,
            uri.resource is None,
    {
        UUri { authority: None, entity: None, resource: None }
    }
}

impl UUri {
    /// Whether the address names the wildcard authority: a remote authority
    /// designated by the one-character name `*`.
    pub open spec fn has_wildcard_authority(&self) -> bool {
        &&& self.authority matches Some(authority)
        &&& authority.remote matches Some(Remote::Name(name))
        &&& name@ == seq!['*']
    }

    /// Whether the address names the wildcard authority.
    pub fn is_wildcard_authority(&self) -> (wildcard: bool)
        ensures
            wildcard == self.has_wildcard_authority(),
    {
        match &self.authority {
            Some(authority) => match &authority.remote {
                Some(Remote::Name(name)) => {
                    let chars = crate::text::chars_of(name.as_str());
                    let wildcard = chars.len() == 1 && chars[0] == '*';
                    assert(wildcard == (name@ =~= seq!['*']));
                    wildcard
                },
                _ => false,
            },
            None => false,
        }
    }
}

/// The kind of a message.
#[derive(Clone, Copy, Debug, PartialEq, Eq)]
pub enum UMessageType {
    Unspecified,
    Publish,
    Request,
    Response,
}

impl UMessageType {
    /// The kind that the wire code `code` stands for, if any.
    pub open spec fn of_code(code: i32) -> Option<UMessageType> {
        if code == 0 {
            Some(UMessageType::Unspecified)
        } else if code == 1 {
            Some(UMessageType::Publish)
        } else if code == 2 {
            Some(UMessageType::Request)
        } else if code == 3 {
            Some(UMessageType::Response)
        } else {
            None
        }
    }

    /// The kind that the wire code `code` stands for, if any.
    pub fn from_code(code: i32) -> (kind: Option<UMessageType>)
        ensures
            kind == Self::of_code(code),
    {
        if code == 0 {
            Some(UMessageType::Unspecified)
        } else if code == 1 {
            Some(UMessageType::Publish)
        } else if code == 2 {
            Some(UMessageType::Request)
        } else if code == 3 {
            Some(UMessageType::Response)
        } else {
            None
        }
    }
}

/// The payload format code that stands for "not specified".
pub const UPAYLOAD_FORMAT_UNSPECIFIED: i32 = 0;

/// The metadata of a message.
#[derive(Clone, Debug, PartialEq, Eq)]
pub struct UAttributes {
    /// The identifier of the message.
    pub id: Option<Uuid>,
    /// The wire code of the kind of message.
    pub message_type: i32,
    /// Where the message is meant to go.
    pub sink: Option<UUri>,
    pub priority: i32,
    pub ttl: Option<i32>,
    pub permission_level: Option<i32>,
    pub commstatus: Option<i32>,
    /// For a response, the identifier of the request that it answers; for a
    /// request that asks for an answer, the identifier to answer under.
    pub reqid: Option<Uuid>,
    pub token: Option<String>,
}

impl Default for UAttributes {
    fn default() -> (attributes: UAttributes)
        ensures
            attributes.id is None,
            attributes.message_type == 0,
            attributes.sink is None,
            attributes.priority == 0,
            attributes.ttl is None,
            attributes.permission_level is None,
            attributes.commstatus is None,
            attributes.reqid is None,
            attributes.token is None,
    {
        UAttributes {
            id: None,
            message_type: 0,
            sink: None,
            priority: 0,
            ttl: None,
            permission_level: None,
            commstatus: None,
            reqid: None,
            token: None,
        }
    }
}

/// The body of a payload: the bytes themselves, or a reference to bytes
/// that live elsewhere.
#[derive(Clone, Debug, PartialEq, Eq)]
pub enum Data {
    Value(Vec<u8>),
    Reference(u64),
}

/// A message body with its format code.
#[derive(Clone, Debug, PartialEq, Eq)]
pub struct UPayload {
    pub length: Option<i32>,
    pub format: i32,
    pub data: Option<Data>,
}

impl UPayload {
    /// Whether the payload carries its bytes itself.
    pub open spec fn is_value(&self) -> bool {
        self.data matches Some(Data::Value(_))
    }

    /// The bytes that the payload carries, where it carries them itself.
    pub open spec fn value_bytes(&self) -> Seq<u8>
        recommends
            self.is_value(),
    {
        match self.data {
            Some(Data::Value(bytes)) => bytes@,
            _ => Seq::empty(),
        }
    }

    /// A payload that carries `bytes` in the format `format`. Its length
    /// field is zero whatever the number of bytes.
    pub fn received(format: i32, bytes: Vec<u8>) -> (payload: UPayload)
        ensures
            payload.length == Some(0i32),
            payload.format == format,
            payload.data == Some(Data::Value(bytes)),
    {
        UPayload { length: Some(0), format, data: Some(Data::Value(bytes)) }
    }

    /// The payload of a message that came without a body: no data, format
    /// not specified.
    pub fn absent() -> (payload: UPayload)
        ensures
            payload.length == Some(0i32),
            payload.format == UPAYLOAD_FORMAT_UNSPECIFIED,
            payload.data is None,
    {
        UPayload { length: Some(0), format: UPAYLOAD_FORMAT_UNSPECIFIED, data: None }
    }
}

/// The unit handed to listeners: where it came from, its metadata, its body.
#[derive(Clone, Debug, PartialEq, Eq)]
pub struct UMessage {
    pub source: Option<UUri>,
    pub attributes: Option<UAttributes>,
    pub payload: Option<UPayload>,
}

} // verus!
