use vstd::prelude::*;

use crate::formats::util::le_u16;
use vstd::slice::slice_subrange;

verus! {

/// An advertisement framing error: a length prefix that overruns the buffer,
/// or a malformed element body.
#[derive(Debug, Eq, PartialEq, Structural)]
pub struct InvalidPacket;

/// One decoded advertisement element, borrowing its payload from the source
/// buffer.
#[derive(Debug, Eq, PartialEq)]
pub enum Packet<'a> {
    /// A manufacturer specific data element: the little-endian company
    /// identifier and the payload that follows it.
    ManufacturerData(u16, &'a [u8]),
    /// Any other element: its type byte and the payload that follows it.
    Other(u8, &'a [u8]),
}

/// Mathematical model of one decoded advertisement element.
pub ghost enum PacketModel {
    ManufacturerData(u16, Seq<u8>),
    Other(u8, Seq<u8>),
}

impl<'a> View for Packet<'a> {
    type V = PacketModel;

    open spec fn view(&self) -> PacketModel {
        match *self {
            Packet::ManufacturerData(id, payload) => PacketModel::ManufacturerData(id, payload@),
            Packet::Other(typ, payload) => PacketModel::Other(typ, payload@),
        }
    }
}

/// The element encoded by the body of one length-prefixed advertisement
/// element (the bytes after the length prefix).  An empty body, or a
/// manufacturer data marker `0xFF` with fewer than two identifier bytes after
/// it, is malformed.
pub open spec fn spec_packet(body: Seq<u8>) -> Result<PacketModel, InvalidPacket> {
    if body.len() == 0 {
        Err(InvalidPacket)
    } else if body[0] == 0xFF {
        if body.len() >= 3 {
            Ok(PacketModel::ManufacturerData(le_u16(body[1], body[2]), body.skip(3)))
        } else {
            Err(InvalidPacket)
        }
    } else {
        Ok(PacketModel::Other(body[0], body.skip(1)))
    }
}

impl<'a> Packet<'a> {
    /// Decodes the body of one advertisement element.
    pub fn parse(body: &'a [u8]) -> (r: Result<Packet<'a>, InvalidPacket>)
        ensures
            match r {
                Ok(p) => spec_packet(body@) == Ok::<PacketModel, InvalidPacket>(p@),
                Err(e) => spec_packet(body@) == Err::<PacketModel, InvalidPacket>(e),
            },
    {
        if body.len() == 0 {
            Err(InvalidPacket)
        } else if body[0] == 0xFF {
            if body.len() >= 3 {
                let id = body[2] as u16 * 256 + body[1] as u16;
                Ok(Packet::ManufacturerData(id, slice_subrange(body, 3, body.len())))
            } else {
                Err(InvalidPacket)
            }
        } else {
            Ok(Packet::Other(body[0], slice_subrange(body, 1, body.len())))
        }
    }
}

/// Walks the length-prefixed elements of an advertisement buffer.  Each step
/// consumes one length prefix and the element body it announces.  A length
/// prefix that announces more bytes than remain exhausts the walker: the
/// bytes it would cover are discarded, not reinterpreted.
pub struct IterPackets<'a> {
    data: &'a [u8],
}

impl<'a> View for IterPackets<'a> {
    type V = Seq<u8>;

    closed spec fn view(&self) -> Seq<u8> {
        self.data@
    }
}

impl<'a> IterPackets<'a> {
    pub fn new(data: &'a [u8]) -> (r: Self)
        ensures
            r@ == data@,
    {
        Self { data }
    }

    /// Steps to the next advertisement element.  Yields `None` when the
    /// buffer is exhausted.  A length prefix that overruns the remaining
    /// buffer yields one `Err(InvalidPacket)` and leaves the walker
    /// exhausted, so no further items follow it.
    pub fn next(&mut self) -> (r: Option<Result<Packet<'a>, InvalidPacket>>)
        ensures
            ({
                let pre = old(self)@;
                if pre.len() == 0 {
                    final (self)@ == pre && r is None
                } else {
                    let len = pre[0] as int;
                    if len <= pre.len() - 1 {
                        &&& final (self)@ == pre.skip(1 + len)
                        &&& match r {
                            Some(Ok(p)) => spec_packet(pre.subrange(1, 1 + len)) == Ok::<
                                PacketModel,
                                InvalidPacket,
                            >(p@),
                            Some(Err(e)) => spec_packet(pre.subrange(1, 1 + len)) == Err::<
                                PacketModel,
                                InvalidPacket,
                            >(e),
                            None => false,
                        }
                    } else {
                        &&& final (self)@ == Seq::<u8>::empty()
                        &&& r == Some(Err::<Packet<'a>, InvalidPacket>(InvalidPacket))
                    }
                }
            }),
    {
        let data = self.data;
        if data.len() == 0 {
            None
        } else {
            let len = data[0] as usize;
            if len <= data.len() - 1 {
                let body = slice_subrange(data, 1, 1 + len);
                let remaining = slice_subrange(data, 1 + len, data.len());
                self.data = remaining;
                Some(Packet::parse(body))
            } else {
                let remaining = slice_subrange(data, data.len(), data.len());
                self.data = remaining;
                proof {
                    assert(remaining@ =~= Seq::<u8>::empty());
                }
                Some(Err(InvalidPacket))
            }
        }
    }
}

/// The result of scanning a whole advertisement buffer for its manufacturer
/// data element: the identifier and payload of the first such element, `None`
/// where the buffer holds none, and an error where any element of the buffer
/// is malformed or a length prefix overruns the buffer.
pub open spec fn spec_find_manufacturer_data(data: Seq<u8>) -> Result<
    Option<(u16, Seq<u8>)>,
    InvalidPacket,
>
    decreases data.len(),
{
    if data.len() == 0 {
        Ok(None)
    } else {
        let len = data[0] as int;
        if len > data.len() - 1 {
            Err(InvalidPacket)
        } else {
            let body = data.subrange(1, 1 + len);
            let rest = data.subrange(1 + len, data.len() as int);
            match spec_packet(body) {
                Err(e) => Err(e),
                Ok(PacketModel::ManufacturerData(id, payload)) => match spec_find_manufacturer_data(
                    rest,
                ) {
                    Err(e) => Err(e),
                    Ok(_) => Ok(Some((id, payload))),
                },
                Ok(PacketModel::Other(_, _)) => spec_find_manufacturer_data(rest),
            }
        }
    }
}

/// How a manufacturer data element already found combines with the scan of
/// the elements that follow it: a later framing error still poisons the
/// whole scan, while later elements can not displace the first find.
spec fn spec_combine_found(
    found: Option<(u16, Seq<u8>)>,
    rest: Result<Option<(u16, Seq<u8>)>, InvalidPacket>,
) -> Result<Option<(u16, Seq<u8>)>, InvalidPacket> {
    match found {
        Some(f) => match rest {
            Err(e) => Err(e),
            Ok(_) => Ok(Some(f)),
        },
        None => rest,
    }
}

/// Scans an advertisement buffer for its first manufacturer data element,
/// checking the framing of every element of the buffer.
pub fn find_manufacturer_data<'a>(data: &'a [u8]) -> (r: Result<
    Option<(u16, &'a [u8])>,
    InvalidPacket,
>)
    ensures
        match r {
            Ok(Some((id, payload))) => spec_find_manufacturer_data(data@) == Ok::<
                Option<(u16, Seq<u8>)>,
                InvalidPacket,
            >(Some((id, payload@))),
            Ok(None) => spec_find_manufacturer_data(data@) == Ok::<
                Option<(u16, Seq<u8>)>,
                InvalidPacket,
            >(None),
            Err(e) => spec_find_manufacturer_data(data@) == Err::<
                Option<(u16, Seq<u8>)>,
                InvalidPacket,
            >(e),
        },
{
    let mut packets = IterPackets::new(data);
    let mut found: Option<(u16, &'a [u8])> = None;
    loop
        invariant
            spec_combine_found(
                match found {
                    Some((id, payload)) => Some((id, payload@)),
                    None => None,
                },
                spec_find_manufacturer_data(packets@),
            ) == spec_find_manufacturer_data(data@),
        decreases packets@.len(),
    {
        let ghost pre = packets@;
        match packets.next() {
            None => {
                return Ok(found);
            },
            Some(Err(e)) => {
                return Err(e);
            },
            Some(Ok(Packet::ManufacturerData(id, payload))) => {
                proof {
                    assert(packets@ =~= pre.subrange(1 + pre[0] as int, pre.len() as int));
                }
                if found.is_none() {
                    found = Some((id, payload));
                }
            },
            Some(Ok(Packet::Other(_, _))) => {
                proof {
                    assert(packets@ =~= pre.subrange(1 + pre[0] as int, pre.len() as int));
                }
            },
        }
    }
}

} // verus!
