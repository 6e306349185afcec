use vstd::prelude::*;

verus! {

/// The tag of a protocol message.
#[derive(Clone, Copy, Debug, PartialEq, Eq, Structural)]
pub enum PacketKind {
    ImageRequest,
    Image,
    Acknowledge,
    Unknown,
}

/// What a packet holds, as mathematical values.
pub ghost struct PacketModel {
    pub kind: PacketKind,
    pub sequence: u64,
    pub width: u32,
    pub height: u32,
    pub payload: Option<Seq<u8>>,
}

impl PacketModel {
    /// A payload is carried by `Image` packets and by no others.
    pub open spec fn wf(self) -> bool {
        self.payload is Some <==> self.kind == PacketKind::Image
    }
}

/// One protocol message. Built only through the constructors below (or by
/// decoding), so that a payload is present exactly on `Image` packets.
#[derive(Debug)]
pub struct Packet {
    kind: PacketKind,
    sequence: u64,
    width: u32,
    height: u32,
    payload: Option<Vec<u8>>,
}

impl View for Packet {
    type V = PacketModel;

    closed spec fn view(&self) -> PacketModel {
        PacketModel {
            kind: self.kind,
            sequence: self.sequence,
            width: self.width,
            height: self.height,
            // The type invariant rules out an `Image` packet without a
            // payload; the view reads the payload by the kind alone.
            payload: if self.kind == PacketKind::Image {
                match self.payload {
                    Some(p) => Some(p@),
                    None => Some(Seq::empty()),
                }
            } else {
                None
            },
        }
    }
}

impl Packet {
    #[verifier::type_invariant]
    spec fn payload_rule(self) -> bool {
        self.payload is Some <==> self.kind == PacketKind::Image
    }

    /// A request for one frame.
    pub fn image_request() -> (r: Packet)
        ensures
            r@ == (PacketModel {
                kind: PacketKind::ImageRequest,
                sequence: 0,
                width: 0,
                height: 0,
                payload: None,
            }),
            r@.wf(),
    {
        Packet { kind: PacketKind::ImageRequest, sequence: 0, width: 0, height: 0, payload: None }
    }

    /// A frame of `width` by `height` pixels carrying `payload`.
    pub fn image(payload: Vec<u8>, width: u32, height: u32) -> (r: Packet)
        ensures
            r@ == (PacketModel {
                kind: PacketKind::Image,
                sequence: 0,
                width,
                height,
                payload: Some(payload@),
            }),
            r@.wf(),
    {
        Packet { kind: PacketKind::Image, sequence: 0, width, height, payload: Some(payload) }
    }

    /// The generic reply to anything that is not serviced with a frame.
    pub fn acknowledge() -> (r: Packet)
        ensures
            r@ == (PacketModel {
                kind: PacketKind::Acknowledge,
                sequence: 0,
                width: 0,
                height: 0,
                payload: None,
            }),
            r@.wf(),
    {
        Packet { kind: PacketKind::Acknowledge, sequence: 0, width: 0, height: 0, payload: None }
    }

    /// A packet of a kind that this protocol does not service.
    pub fn unknown() -> (r: Packet)
        ensures
            r@ == (PacketModel {
                kind: PacketKind::Unknown,
                sequence: 0,
                width: 0,
                height: 0,
                payload: None,
            }),
            r@.wf(),
    {
        Packet { kind: PacketKind::Unknown, sequence: 0, width: 0, height: 0, payload: None }
    }

    /// Builds a packet from its parts; `None` where the parts break the rule
    /// that a payload is present exactly on `Image` packets.
    pub fn from_parts(
        kind: PacketKind,
        sequence: u64,
        width: u32,
        height: u32,
        payload: Option<Vec<u8>>,
    ) -> (r: Option<Packet>)
        ensures
            r is Some <==> (payload is Some <==> kind == PacketKind::Image),
            r matches Some(p) ==> p@ == (PacketModel {
                kind,
                sequence,
                width,
                height,
                payload: match payload {
                    Some(v) => Some(v@),
                    None => None,
                },
            }),
            r matches Some(p) ==> p@.wf(),
    {
        let is_image = match kind {
            PacketKind::Image => true,
            _ => false,
        };
        if payload.is_some() == is_image {
            Some(Packet { kind, sequence, width, height, payload })
        } else {
            None
        }
    }

    /// Every packet value keeps the payload rule: it carries a payload
    /// exactly when it is an `Image` packet.
    pub proof fn lemma_payload_rule(p: Packet)
        ensures
            p@.wf(),
            p@.payload is Some <==> p@.kind == PacketKind::Image,
    {
    }

    pub fn kind(&self) -> (r: PacketKind)
        ensures
            r == self@.kind,
    {
        self.kind
    }

    pub fn sequence(&self) -> (r: u64)
        ensures
            r == self@.sequence,
    {
        self.sequence
    }

    pub fn width(&self) -> (r: u32)
        ensures
            r == self@.width,
    {
        self.width
    }

    pub fn height(&self) -> (r: u32)
        ensures
            r == self@.height,
    {
        self.height
    }

    pub fn payload(&self) -> (r: Option<&Vec<u8>>)
        ensures
            r matches Some(v) ==> self@.payload == Some(v@),
            r is None ==> self@.payload is None,
    {
        proof {
            use_type_invariant(self);
        }
        self.payload.as_ref()
    }
}

} // verus!
