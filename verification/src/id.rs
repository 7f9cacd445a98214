//! Classification and encoding of 29-bit extended CAN identifiers.
//!
//! A raw 29-bit identifier always classifies into exactly one of three
//! variants; encoding a classified identifier reproduces exactly the bits of
//! that variant's layout.

use vstd::prelude::*;

verus! {

/// A classified 29-bit DroneCAN identifier.
#[derive(Debug, Clone, Copy, PartialEq, Eq, Structural)]
pub enum Id {
    Message {
        /// Message priority.
        priority: u8,
        /// Message type ID.
        type_id: u16,
        /// Source node ID.
        source_node: u8,
    },
    Anonymous {
        /// Message priority.
        priority: u8,
        /// Discriminator value.
        discriminator: u16,
        /// Message type ID (lower bits).
        type_id: u8,
    },
    Service {
        /// Message priority.
        priority: u8,
        /// Service type ID.
        service_type: u8,
        /// Is the message a request?
        request: bool,
        /// Destination node ID.
        destination_node: u8,
        /// Source node ID.
        source_node: u8,
    },
}

/// Classification of a raw value, after masking it to 29 bits: bit 7 set
/// selects `Service`; otherwise a zero source-node field (bits 6-0) selects
/// `Anonymous`, and anything else `Message`.
pub open spec fn classify(raw: u32) -> Id {
    let r = raw & 0x1FFF_FFFF;
    let priority = (r >> 24) as u8;
    let source_node = (r & 0x7F) as u8;
    if r & 0x80 != 0 {
        Id::Service {
            priority,
            service_type: ((r >> 16) & 0xFF) as u8,
            request: r & 0x8000 != 0,
            destination_node: ((r >> 8) & 0x7F) as u8,
            source_node,
        }
    } else if source_node == 0 {
        Id::Anonymous {
            priority,
            discriminator: ((r >> 10) & 0x3FFF) as u16,
            type_id: ((r >> 8) & 0x3) as u8,
        }
    } else {
        Id::Message {
            priority,
            type_id: ((r >> 8) & 0xFFFF) as u16,
            source_node,
        }
    }
}

/// The raw 29-bit value of an identifier: each field masked to its width and
/// placed at its bit position; every bit outside the variant's layout is zero.
pub open spec fn encode(id: Id) -> u32 {
    match id {
        Id::Message { priority, type_id, source_node } => (
            ((priority as u32 & 0x1F) << 24) | ((type_id as u32) << 8) | (source_node as u32 & 0x7F)
        ),
        Id::Anonymous { priority, discriminator, type_id } => (
            ((priority as u32 & 0x1F) << 24) | ((discriminator as u32 & 0x3FFF) << 10)
                | ((type_id as u32 & 0x3) << 8)
        ),
        Id::Service { priority, service_type, request, destination_node, source_node } => (
            ((priority as u32 & 0x1F) << 24) | ((service_type as u32) << 16)
                | (if request { 0x8000u32 } else { 0u32 })
                | ((destination_node as u32 & 0x7F) << 8) | 0x80
                | (source_node as u32 & 0x7F)
        ),
    }
}

/// The priority field, uniform over the three variants.
pub open spec fn priority_of(id: Id) -> u8 {
    match id {
        Id::Message { priority, .. } => priority,
        Id::Anonymous { priority, .. } => priority,
        Id::Service { priority, .. } => priority,
    }
}

#[verifier::external_type_specification]
#[verifier::external_body]
pub struct ExExtendedId(embedded_can::ExtendedId);

/// The raw 29-bit value an `embedded_can::ExtendedId` holds.
pub uninterp spec fn extended_raw(id: embedded_can::ExtendedId) -> u32;

/// Relies on `embedded_can::ExtendedId::MAX.as_raw()`: the largest raw value
/// of a 29-bit extended identifier, `0x1FFF_FFFF`.
#[verifier::external_body]
fn extended_id_max() -> (r: u32)
    ensures
        r == 0x1FFF_FFFFu32,
{
    embedded_can::ExtendedId::MAX.as_raw()
}

/// Relies on `embedded_can::ExtendedId::new`, which returns `Some` exactly
/// for raw values that fit in 29 bits and stores the value as given; under
/// this function's precondition the `unwrap` can therefore not panic.
#[verifier::external_body]
fn extended_id_from_raw(raw: u32) -> (r: embedded_can::ExtendedId)
    requires
        raw <= 0x1FFF_FFFF,
    ensures
        extended_raw(r) == raw,
{
    embedded_can::ExtendedId::new(raw).unwrap()
}

/// Relies on `embedded_can::ExtendedId::as_raw`, which returns the stored
/// raw value.
#[verifier::external_body]
fn extended_id_as_raw(id: &embedded_can::ExtendedId) -> (r: u32)
    ensures
        r == extended_raw(*id),
{
    id.as_raw()
}

/// Classify a generic 29-bit extended identifier of the CAN abstraction.
pub fn from_extended(value: embedded_can::ExtendedId) -> (r: Id)
    ensures
        r == classify(extended_raw(value)),
{
    Id::new(extended_id_as_raw(&value))
}

/// Encode an identifier as a generic 29-bit extended identifier of the CAN
/// abstraction. The round trip back through [`from_extended`] is lossless
/// within the 29-bit space.
pub fn to_extended(id: &Id) -> (r: embedded_can::ExtendedId)
    ensures
        extended_raw(r) == encode(*id),
{
    proof {
        lemma_encode_fits(*id);
    }
    extended_id_from_raw(id.as_raw())
}

/// An encoded identifier always fits in 29 bits: each field is masked to its
/// width and placed within bits 28-0, and every bit outside the variant's
/// layout is zero.
pub proof fn lemma_encode_fits(id: Id)
    ensures
        encode(id) <= 0x1FFF_FFFF,
{
    match id {
        Id::Message { priority, type_id, source_node } => {
            assert(((priority as u32 & 0x1F) << 24) | ((type_id as u32) << 8) | (source_node
                as u32 & 0x7F) <= 0x1FFF_FFFF) by (bit_vector);
        },
        Id::Anonymous { priority, discriminator, type_id } => {
            assert(((priority as u32 & 0x1F) << 24) | ((discriminator as u32 & 0x3FFF) << 10) | ((
            type_id as u32 & 0x3) << 8) <= 0x1FFF_FFFF) by (bit_vector);
        },
        Id::Service { priority, service_type, request, destination_node, source_node } => {
            assert(((priority as u32 & 0x1F) << 24) | ((service_type as u32) << 16) | (if request {
                0x8000u32
            } else {
                0u32
            }) | ((destination_node as u32 & 0x7F) << 8) | 0x80 | (source_node as u32 & 0x7F)
                <= 0x1FFF_FFFF) by (bit_vector);
        },
    }
}

impl Id {
    /// Create a new [`Id`] from a raw identifier value.
    ///
    /// Masked to 29 bits to ensure the id is valid.
    pub fn new(raw: u32) -> (r: Id)
        ensures
            r == classify(raw),
    {
        let raw = raw & extended_id_max();

        let priority = (raw >> 24) as u8;
        let source_node = (raw & 0x7F) as u8;
        let service_not_message = raw & 0x80 != 0;

        if service_not_message {
            Id::Service {
                priority,
                service_type: ((raw >> 16) & 0xFF) as u8,
                request: raw & 0x8000 != 0,
                destination_node: ((raw >> 8) & 0x7F) as u8,
                source_node,
            }
        } else if source_node == 0 {
            Id::Anonymous {
                priority,
                discriminator: ((raw >> 10) & 0x3FFF) as u16,
                type_id: ((raw >> 8) & 0x3) as u8,
            }
        } else {
            Id::Message {
                priority,
                type_id: ((raw >> 8) & 0xFFFF) as u16,
                source_node,
            }
        }
    }

    /// Create a message identifier.
    ///
    /// - `source_node` source node identifier `1..=127`
    /// - `type_id` message type identifier
    /// - `priority` message priority `0..=31`
    pub fn message(source_node: u8, type_id: u16, priority: u8) -> (r: Option<Id>)
        ensures
            priority <= 0x1F && 1 <= source_node <= 0x7F ==> r == Some(
                Id::Message { priority, type_id, source_node },
            ),
            !(priority <= 0x1F && 1 <= source_node <= 0x7F) ==> r is None,
    {
        if priority > 0x1F {
            return None;
        }

        // cannot be an anonymous message
        if source_node == 0 || source_node > 0x7F {
            return None;
        }

        Some(Id::Message { priority, type_id, source_node })
    }

    /// Create an anonymous identifier.
    ///
    /// - `type_id` message type identifier, masked to the two lowest bits
    /// - `discriminator` a field which should be filled with random data to
    ///   make anonymous frames unique, valid values `0..=16383`
    /// - `priority` message priority `0..=31`
    pub fn anonymous(type_id: u16, discriminator: u16, priority: u8) -> (r: Option<Id>)
        ensures
            priority <= 0x1F && discriminator <= 0x3FFF ==> r == Some(
                Id::Anonymous { priority, discriminator, type_id: (type_id & 0x3) as u8 },
            ),
            !(priority <= 0x1F && discriminator <= 0x3FFF) ==> r is None,
    {
        if priority > 0x1F {
            return None;
        }

        if discriminator > 0x3FFF {
            return None;
        }

        let type_id = (type_id & 0x3) as u8;

        Some(Id::Anonymous { priority, discriminator, type_id })
    }

    /// Create a service identifier.
    ///
    /// - `source_node` source node identifier `1..=127`
    /// - `destination_node` destination node identifier `0..=127`
    /// - `service_type` data type identifier of the encoded service request or
    ///   response
    /// - `request` request `true` or response `false`
    /// - `priority` message priority `0..=31`
    pub fn service(
        source_node: u8,
        destination_node: u8,
        service_type: u8,
        request: bool,
        priority: u8,
    ) -> (r: Option<Id>)
        ensures
            priority <= 0x1F && 1 <= source_node <= 0x7F && destination_node <= 0x7F ==> r == Some(
                Id::Service { priority, service_type, request, destination_node, source_node },
            ),
            !(priority <= 0x1F && 1 <= source_node <= 0x7F && destination_node <= 0x7F)
                ==> r is None,
    {
        if priority > 0x1F {
            return None;
        }

        if source_node == 0 || source_node > 0x7F || destination_node > 0x7F {
            return None;
        }

        Some(Id::Service { priority, service_type, request, destination_node, source_node })
    }

    /// The raw 29-bit value of this identifier, per the variant's bit layout.
    pub fn as_raw(&self) -> (r: u32)
        ensures
            r == encode(*self),
    {
        match *self {
            Id::Message { priority, type_id, source_node } => (
                ((priority as u32 & 0x1F) << 24) | ((type_id as u32) << 8)
                    | (source_node as u32 & 0x7F)
            ),
            Id::Anonymous { priority, discriminator, type_id } => (
                ((priority as u32 & 0x1F) << 24) | ((discriminator as u32 & 0x3FFF) << 10)
                    | ((type_id as u32 & 0x3) << 8)
            ),
            Id::Service { priority, service_type, request, destination_node, source_node } => (
                ((priority as u32 & 0x1F) << 24) | ((service_type as u32) << 16)
                    | (if request { 0x8000u32 } else { 0u32 })
                    | ((destination_node as u32 & 0x7F) << 8) | 0x80
                    | (source_node as u32 & 0x7F)
            ),
        }
    }

    /// Message priority.
    pub fn priority(&self) -> (r: u8)
        ensures
            r == priority_of(*self),
    {
        match self {
            Id::Message { priority, .. } => *priority,
            Id::Anonymous { priority, .. } => *priority,
            Id::Service { priority, .. } => *priority,
        }
    }
}

/// Classifying a raw value and encoding the result reproduces the raw value
/// exactly, up to the initial masking to 29 bits: the three layouts each cover
/// all 29 bits, with the bits that discriminate the variant fixed by it.
pub proof fn lemma_classify_encode_round_trip(raw: u32)
    ensures
        encode(classify(raw)) == raw & 0x1FFF_FFFF,
{
    let r = raw & 0x1FFF_FFFF;
    if r & 0x80 != 0 {
        let priority = (r >> 24) as u8;
        let service_type = ((r >> 16) & 0xFF) as u8;
        let request = r & 0x8000 != 0;
        let destination_node = ((r >> 8) & 0x7F) as u8;
        let source_node = (r & 0x7F) as u8;
        assert(((priority as u32 & 0x1F) << 24) | ((service_type as u32) << 16) | (if request {
            0x8000u32
        } else {
            0u32
        }) | ((destination_node as u32 & 0x7F) << 8) | 0x80 | (source_node as u32 & 0x7F)
            == r) by (bit_vector)
            requires
                r == raw & 0x1FFF_FFFF,
                r & 0x80 != 0,
                priority == (r >> 24) as u8,
                service_type == ((r >> 16) & 0xFF) as u8,
                request == (r & 0x8000 != 0),
                destination_node == ((r >> 8) & 0x7F) as u8,
                source_node == (r & 0x7F) as u8,
        ;
    } else if (r & 0x7F) as u8 == 0 {
        let priority = (r >> 24) as u8;
        let discriminator = ((r >> 10) & 0x3FFF) as u16;
        let type_id = ((r >> 8) & 0x3) as u8;
        assert(((priority as u32 & 0x1F) << 24) | ((discriminator as u32 & 0x3FFF) << 10) | ((
        type_id as u32 & 0x3) << 8) == r) by (bit_vector)
            requires
                r == raw & 0x1FFF_FFFF,
                r & 0x80 == 0,
                (r & 0x7F) as u8 == 0,
                priority == (r >> 24) as u8,
                discriminator == ((r >> 10) & 0x3FFF) as u16,
                type_id == ((r >> 8) & 0x3) as u8,
        ;
    } else {
        let priority = (r >> 24) as u8;
        let type_id = ((r >> 8) & 0xFFFF) as u16;
        let source_node = (r & 0x7F) as u8;
        assert(((priority as u32 & 0x1F) << 24) | ((type_id as u32) << 8) | (source_node as u32
            & 0x7F) == r) by (bit_vector)
            requires
                r == raw & 0x1FFF_FFFF,
                r & 0x80 == 0,
                (r & 0x7F) as u8 != 0,
                priority == (r >> 24) as u8,
                type_id == ((r >> 8) & 0xFFFF) as u16,
                source_node == (r & 0x7F) as u8,
        ;
    }
}

} // verus!
