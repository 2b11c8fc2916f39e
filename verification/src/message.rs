//! A CAN message: an identifier paired with its protocol data unit.

use vstd::prelude::*;

use crate::conversion::{CanError, Conversion};
use crate::identifier::{Id, IsProtocol};
use crate::payload::{Data, IsDataUnit, Name, Pdu};
use crate::protocol::j1939::identifier::J1939;

verus! {

/// A CAN message with its identifier ([`Id`]) and protocol data unit
/// ([`Pdu`]); immutable once constructed.
#[derive(Debug, Clone, Copy, PartialEq, Eq, PartialOrd, Ord)]
pub struct Message<P: IsProtocol, U: IsDataUnit> {
    pub id: Id<P>,
    pub pdu: Pdu<U>,
}

impl Message<J1939, Data> {
    /// Constructs a message from its parts: a 29-bit J1939 identifier and a
    /// generic 8-byte payload.
    pub fn from_parts(id: Id<J1939>, pdu: Pdu<Data>) -> (r: Self)
        ensures
            r.id == id,
            r.pdu == pdu,
    {
        Self { id, pdu }
    }

    /// Destructures the message into its identifier and payload.
    pub fn into_parts(self) -> (r: (Id<J1939>, Pdu<Data>))
        ensures
            r.0 == self.id,
            r.1 == self.pdu,
    {
        (self.id, self.pdu)
    }

    /// Constructs a message from raw bit representations of its parts,
    /// rejecting identifiers above the 29-bit range.  Every 64-bit payload
    /// is valid, so the payload part never fails.
    pub fn try_from_bits(hex_id: u32, hex_pdu: u64) -> (r: Result<Self, CanError>)
        ensures
            r == (match Id::<J1939>::try_from_bits_spec(hex_id) {
                Ok(id) => match Pdu::<Data>::try_from_bits_spec(hex_pdu) {
                    Ok(pdu) => Ok((Message { id, pdu })),
                    Err(e) => Err(e),
                },
                Err(e) => Err(e),
            }),
    {
        let id = match Id::<J1939>::try_from_bits(hex_id) {
            Ok(id) => id,
            Err(e) => {
                return Err(e);
            },
        };
        let pdu = match Pdu::<Data>::try_from_bits(hex_pdu) {
            Ok(pdu) => pdu,
            Err(e) => {
                return Err(e);
            },
        };

        Ok(Self { id, pdu })
    }

    /// Constructs a message from hexadecimal text representations of its
    /// parts, rejecting malformed text and out-of-range identifiers.
    pub fn try_from_hex(hex_id: &str, hex_pdu: &str) -> (r: Result<Self, CanError>)
        ensures
            r == (match Id::<J1939>::try_from_hex_spec(hex_id@) {
                Ok(id) => match Pdu::<Data>::try_from_hex_spec(hex_pdu@) {
                    Ok(pdu) => Ok((Message { id, pdu })),
                    Err(e) => Err(e),
                },
                Err(e) => Err(e),
            }),
    {
        let id = match Id::<J1939>::try_from_hex(hex_id) {
            Ok(id) => id,
            Err(e) => {
                return Err(e);
            },
        };
        let pdu = match Pdu::<Data>::try_from_hex(hex_pdu) {
            Ok(pdu) => pdu,
            Err(e) => {
                return Err(e);
            },
        };

        Ok(Self { id, pdu })
    }

    /// Constructs a message from raw bit representations of its parts,
    /// without validation.
    pub fn from_bits(hex_id: u32, hex_pdu: u64) -> (r: Self)
        ensures
            r.id == Id::<J1939>::from_bits_spec(hex_id),
            r.pdu == Pdu::<Data>::from_bits_spec(hex_pdu),
    {
        let id = Id::<J1939>::from_bits(hex_id);
        let pdu = Pdu::<Data>::from_bits(hex_pdu);

        Self { id, pdu }
    }

    /// Constructs a message from hexadecimal text representations of its
    /// parts, substituting the zero value for text that does not parse.
    pub fn from_hex(hex_id: &str, hex_pdu: &str) -> (r: Self)
        ensures
            r.id == Id::<J1939>::from_hex_spec(hex_id@),
            r.pdu == Pdu::<Data>::from_hex_spec(hex_pdu@),
    {
        let id = Id::<J1939>::from_hex(hex_id);
        let pdu = Pdu::<Data>::from_hex(hex_pdu);

        Self { id, pdu }
    }

    /// Retrieves the 29-bit J1939 identifier of the message.
    pub fn id(&self) -> (r: Id<J1939>)
        ensures
            r == self.id,
    {
        self.id
    }

    /// Retrieves the payload of the message.
    pub fn pdu(&self) -> (r: Pdu<Data>)
        ensures
            r == self.pdu,
    {
        self.pdu
    }
}

impl Message<J1939, Name> {
    /// Constructs a message from its parts: a 29-bit J1939 identifier and a
    /// NAME payload.
    pub fn from_parts(id: Id<J1939>, pdu: Pdu<Name>) -> (r: Self)
        ensures
            r.id == id,
            r.pdu == pdu,
    {
        Self { id, pdu }
    }

    /// Destructures the message into its identifier and payload.
    pub fn into_parts(self) -> (r: (Id<J1939>, Pdu<Name>))
        ensures
            r.0 == self.id,
            r.1 == self.pdu,
    {
        (self.id, self.pdu)
    }

    /// Constructs a message from raw bit representations of its parts,
    /// rejecting identifiers above the 29-bit range.  Every 64-bit payload
    /// is valid, so the payload part never fails.
    pub fn try_from_bits(hex_id: u32, hex_pdu: u64) -> (r: Result<Self, CanError>)
        ensures
            r == (match Id::<J1939>::try_from_bits_spec(hex_id) {
                Ok(id) => match Pdu::<Name>::try_from_bits_spec(hex_pdu) {
                    Ok(pdu) => Ok((Message { id, pdu })),
                    Err(e) => Err(e),
                },
                Err(e) => Err(e),
            }),
    {
        let id = match Id::<J1939>::try_from_bits(hex_id) {
            Ok(id) => id,
            Err(e) => {
                return Err(e);
            },
        };
        let pdu = match Pdu::<Name>::try_from_bits(hex_pdu) {
            Ok(pdu) => pdu,
            Err(e) => {
                return Err(e);
            },
        };

        Ok(Self { id, pdu })
    }

    /// Constructs a message from hexadecimal text representations of its
    /// parts, rejecting malformed text and out-of-range identifiers.
    pub fn try_from_hex(hex_id: &str, hex_pdu: &str) -> (r: Result<Self, CanError>)
        ensures
            r == (match Id::<J1939>::try_from_hex_spec(hex_id@) {
                Ok(id) => match Pdu::<Name>::try_from_hex_spec(hex_pdu@) {
                    Ok(pdu) => Ok((Message { id, pdu })),
                    Err(e) => Err(e),
                },
                Err(e) => Err(e),
            }),
    {
        let id = match Id::<J1939>::try_from_hex(hex_id) {
            Ok(id) => id,
            Err(e) => {
                return Err(e);
            },
        };
        let pdu = match Pdu::<Name>::try_from_hex(hex_pdu) {
            Ok(pdu) => pdu,
            Err(e) => {
                return Err(e);
            },
        };

        Ok(Self { id, pdu })
    }

    /// Constructs a message from raw bit representations of its parts,
    /// without validation.
    pub fn from_bits(hex_id: u32, hex_pdu: u64) -> (r: Self)
        ensures
            r.id == Id::<J1939>::from_bits_spec(hex_id),
            r.pdu == Pdu::<Name>::from_bits_spec(hex_pdu),
    {
        let id = Id::<J1939>::from_bits(hex_id);
        let pdu = Pdu::<Name>::from_bits(hex_pdu);

        Self { id, pdu }
    }

    /// Constructs a message from hexadecimal text representations of its
    /// parts, substituting the zero value for text that does not parse.
    pub fn from_hex(hex_id: &str, hex_pdu: &str) -> (r: Self)
        ensures
            r.id == Id::<J1939>::from_hex_spec(hex_id@),
            r.pdu == Pdu::<Name>::from_hex_spec(hex_pdu@),
    {
        let id = Id::<J1939>::from_hex(hex_id);
        let pdu = Pdu::<Name>::from_hex(hex_pdu);

        Self { id, pdu }
    }

    /// Retrieves the 29-bit J1939 identifier of the message.
    pub fn id(&self) -> (r: Id<J1939>)
        ensures
            r == self.id,
    {
        self.id
    }

    /// Retrieves the payload of the message.
    pub fn pdu(&self) -> (r: Pdu<Name>)
        ensures
            r == self.pdu,
    {
        self.pdu
    }
}

impl From<Message<J1939, Data>> for Message<J1939, Name> {
    /// Reinterprets the message's payload as a NAME record; the identifier
    /// and the payload bits are unchanged.
    fn from(value: Message<J1939, Data>) -> Self {
        Self { id: value.id, pdu: Pdu(Name(value.pdu.0.0)) }
    }
}

impl vstd::std_specs::convert::FromSpecImpl<Message<J1939, Data>> for Message<J1939, Name> {
    open spec fn obeys_from_spec() -> bool {
        true
    }

    open spec fn from_spec(v: Message<J1939, Data>) -> Self {
        Message { id: v.id, pdu: Pdu(Name(v.pdu.0.0)) }
    }
}

impl From<Message<J1939, Name>> for Message<J1939, Data> {
    /// Reinterprets the message's payload as generic data; the identifier
    /// and the payload bits are unchanged.
    fn from(value: Message<J1939, Name>) -> Self {
        Self { id: value.id, pdu: Pdu(Data(value.pdu.0.0)) }
    }
}

impl vstd::std_specs::convert::FromSpecImpl<Message<J1939, Name>> for Message<J1939, Data> {
    open spec fn obeys_from_spec() -> bool {
        true
    }

    open spec fn from_spec(v: Message<J1939, Name>) -> Self {
        Message { id: v.id, pdu: Pdu(Data(v.pdu.0.0)) }
    }
}

} // verus!
