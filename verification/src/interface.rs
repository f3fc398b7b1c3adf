//! The bus-frame container: a numeric identifier (11-bit standard or 29-bit
//! extended) together with a payload of up to 8 bytes. The rest of the
//! library only consumes and produces values of this type; putting such a
//! frame on a physical bus is a caller's concern.

use vstd::prelude::*;

use crate::error::ChademoError;

verus! {

/// Payload of a CAN data frame: 0 to 8 bytes.
#[derive(Debug, Clone)]
pub struct Data {
    bytes: Vec<u8>,
}

impl View for Data {
    type V = Seq<u8>;

    closed spec fn view(&self) -> Seq<u8> {
        self.bytes@
    }
}

impl Data {
    /// Creates a data payload from a raw byte slice.
    ///
    /// Returns `None` if `data` contains more than 8 bytes (the maximum).
    pub fn new(data: &[u8]) -> (r: Option<Data>)
        ensures
            data@.len() <= 8 ==> (r matches Some(d) && d@ == data@),
            data@.len() > 8 ==> r is None,
    {
        if data.len() > 8 {
            return None;
        }
        let mut bytes: Vec<u8> = Vec::new();
        let mut i: usize = 0;
        while i < data.len()
            invariant
                i <= data@.len(),
                bytes@ == data@.subrange(0, i as int),
            decreases data@.len() - i,
        {
            bytes.push(data[i]);
            i += 1;
        }
        proof {
            assert(bytes@ == data@);
        }
        Some(Data { bytes })
    }

    /// Number of payload bytes.
    pub fn len(&self) -> (r: usize)
        ensures
            r == self@.len(),
    {
        self.bytes.len()
    }

    /// The payload bytes.
    pub fn as_vec(&self) -> (r: &Vec<u8>)
        ensures
            r@ == self@,
    {
        &self.bytes
    }
}

/// The mathematical value of a bus frame: its identifier, the identifier's
/// width, the remote-transmission-request flag and the payload bytes.
pub struct FrameView {
    pub id: u32,
    pub extended: bool,
    pub rtr: bool,
    pub data: Seq<u8>,
}

/// A single bus frame. `extended` distinguishes the 29-bit identifier space
/// from the 11-bit standard one; this protocol only ever uses the latter.
pub struct ChademoCanFrame {
    id: u32,
    extended: bool,
    rtr: bool,
    data: Data,
}

impl View for ChademoCanFrame {
    type V = FrameView;

    closed spec fn view(&self) -> FrameView {
        FrameView { id: self.id, extended: self.extended, rtr: self.rtr, data: self.data@ }
    }
}

impl ChademoCanFrame {
    /// Every frame ever constructed has an in-range identifier and at most
    /// 8 payload bytes.
    #[verifier::type_invariant]
    spec fn frame_inv(&self) -> bool {
        &&& self@.data.len() <= 8
        &&& (if self@.extended {
            self@.id <= 0x1FFF_FFFF
        } else {
            self@.id <= 0x7FF
        })
    }

    /// Creates a data frame with a standard (11-bit) identifier.
    ///
    /// Returns `None` if `id` is out of the 11-bit range or `data` holds
    /// more than 8 bytes.
    pub fn new(id: u16, data: &[u8]) -> (r: Option<ChademoCanFrame>)
        ensures
            (id <= 0x7FF && data@.len() <= 8) <==> r is Some,
            r matches Some(f) ==> f@ == (FrameView {
                id: id as u32,
                extended: false,
                rtr: false,
                data: data@,
            }),
    {
        if id > 0x7FF {
            return None;
        }
        match Data::new(data) {
            Some(payload) => Some(
                ChademoCanFrame { id: id as u32, extended: false, rtr: false, data: payload },
            ),
            None => None,
        }
    }

    /// Creates a data frame with an extended (29-bit) identifier.
    ///
    /// Returns `None` if `id` is out of the 29-bit range or `data` holds
    /// more than 8 bytes.
    pub fn new_extended(id: u32, data: &[u8]) -> (r: Option<ChademoCanFrame>)
        ensures
            (id <= 0x1FFF_FFFF && data@.len() <= 8) <==> r is Some,
            r matches Some(f) ==> f@ == (FrameView {
                id: id,
                extended: true,
                rtr: false,
                data: data@,
            }),
    {
        if id > 0x1FFF_FFFF {
            return None;
        }
        match Data::new(data) {
            Some(payload) => Some(ChademoCanFrame { id, extended: true, rtr: false, data: payload }),
            None => None,
        }
    }

    /// Remote frames carry no data and are never used by this protocol.
    pub fn new_remote(_id: u16, _dlc: usize) -> (r: Option<ChademoCanFrame>)
        ensures
            r is None,
    {
        None
    }

    /// The raw identifier value.
    pub fn id(&self) -> (r: u32)
        ensures
            r == self@.id,
    {
        self.id
    }

    /// True iff the frame uses a 29-bit extended identifier.
    pub fn is_extended(&self) -> (r: bool)
        ensures
            r == self@.extended,
    {
        self.extended
    }

    /// True iff the frame is a remote frame.
    pub fn is_remote_frame(&self) -> (r: bool)
        ensures
            r == self@.rtr,
    {
        self.rtr
    }

    /// The data length code, equal to the payload length.
    pub fn dlc(&self) -> (r: usize)
        ensures
            r == self@.data.len(),
    {
        self.data.len()
    }

    /// The payload bytes.
    pub fn data(&self) -> (r: &Vec<u8>)
        ensures
            r@ == self@.data,
    {
        self.data.as_vec()
    }
}

/// Builds the frame for one outbound message: a standard identifier and the
/// fixed 8-byte payload the codec produced.
pub(crate) fn standard_frame(id: u16, bytes: Vec<u8>) -> (r: ChademoCanFrame)
    requires
        id <= 0x7FF,
        bytes@.len() <= 8,
    ensures
        r@ == (FrameView { id: id as u32, extended: false, rtr: false, data: bytes@ }),
{
    ChademoCanFrame { id: id as u32, extended: false, rtr: false, data: Data { bytes } }
}

/// Reads a frame's identifier back as a raw standard identifier; rejects
/// frames from the extended identifier space, which this protocol never uses.
pub(crate) fn standard_id_to_raw(frame: &ChademoCanFrame) -> (r: Result<u16, ChademoError>)
    ensures
        frame@.extended ==> r == Err::<u16, ChademoError>(ChademoError::DecodeBadIdExt),
        !frame@.extended ==> frame@.id <= 0x7FF && r == Ok::<u16, ChademoError>(frame@.id as u16),
{
    proof {
        use_type_invariant(frame);
    }
    if frame.extended {
        Err(ChademoError::DecodeBadIdExt)
    } else {
        Ok(frame.id as u16)
    }
}

} // verus!
