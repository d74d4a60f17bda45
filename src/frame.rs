//! The adapter's fixed USB identity and the framing of outgoing data.
use vstd::prelude::*;

verus! {

/// Vendor id of the WCH bridge chips.
pub const WCH_VENDOR_ID: u16 = 0x1A86;

/// Interface number that carries the JTAG function.
pub const JTAG_INTERFACE: u8 = 4;

/// Bulk OUT endpoint of the JTAG interface.
pub const EP_OUT: u8 = 0x06;

/// Bulk IN endpoint of the JTAG interface.
pub const EP_IN: u8 = 0x86;

/// First byte of a bit-banged data frame.
pub const DATA_FRAME_TAG: u8 = 0xD2;

/// Number of bytes read back after a data frame.
pub const ACK_LEN: usize = 64;

/// Whether a (vendor id, product id) pair names a supported adapter.
pub open spec fn is_adapter_id(vendor_id: u16, product_id: u16) -> bool {
    vendor_id == WCH_VENDOR_ID && (product_id == 0x55DE || product_id == 0x55DD || product_id
        == 0x55E8)
}

/// The frame that carries `payload`: the tag, the length modulo 255 and a
/// zero byte, then the payload itself.
///
/// Known limitation: the length byte wraps for payloads of 255 bytes or
/// more, so such a frame does not carry its true length; the adapter's
/// length field is not documented well enough here to do otherwise.
pub open spec fn data_frame_bytes(payload: Seq<u8>) -> Seq<u8> {
    seq![DATA_FRAME_TAG, (payload.len() % 255) as u8, 0x00u8] + payload
}

/// Whether a USB device with these ids is a supported adapter.
pub fn is_ch34x_device(vendor_id: u16, product_id: u16) -> (r: bool)
    ensures
        r == is_adapter_id(vendor_id, product_id),
{
    vendor_id == WCH_VENDOR_ID && (product_id == 0x55DE || product_id == 0x55DD || product_id
        == 0x55E8)
}

/// The position of the first supported adapter among devices listed by their
/// (vendor id, product id), in the order given.
pub fn first_ch34x(ids: &[(u16, u16)]) -> (r: Option<usize>)
    ensures
        match r {
            Some(i) => {
                &&& i < ids@.len()
                &&& is_adapter_id(ids@[i as int].0, ids@[i as int].1)
                &&& forall|j: int| 0 <= j < i ==> !is_adapter_id(#[trigger] ids@[j].0, ids@[j].1)
            },
            None => forall|j: int|
                0 <= j < ids@.len() ==> !is_adapter_id(#[trigger] ids@[j].0, ids@[j].1),
        },
{
    let mut i: usize = 0;
    while i < ids.len()
        invariant
            i <= ids@.len(),
            forall|j: int| 0 <= j < i ==> !is_adapter_id(#[trigger] ids@[j].0, ids@[j].1),
        decreases ids@.len() - i,
    {
        let (vid, pid) = ids[i];
        if is_ch34x_device(vid, pid) {
            return Some(i);
        }
        i = i + 1;
    }
    None
}

/// The data frame that carries `payload`. Its length byte wraps for
/// payloads of 255 bytes or more (see `data_frame_bytes`).
pub fn data_frame(payload: &[u8]) -> (r: Vec<u8>)
    ensures
        r@ == data_frame_bytes(payload@),
{
    let mut out: Vec<u8> = Vec::new();
    out.push(DATA_FRAME_TAG);
    out.push((payload.len() % 255) as u8);
    out.push(0x00);
    out.extend_from_slice(payload);
    assert(out@ =~= data_frame_bytes(payload@));
    out
}

} // verus!
