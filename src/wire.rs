//! Byte-order helpers shared by the command encoders, and the transfer
//! descriptor handed to a transport.
use vstd::prelude::*;

verus! {

/// `n` zero bytes: the content of every freshly built receive buffer and of
/// the placeholder bytes that query commands clock out.
pub open spec fn zeros(n: nat) -> Seq<u8> {
    Seq::new(n, |_i: int| 0u8)
}

/// Two bytes of `x`, most significant first.
pub open spec fn be16(x: u16) -> Seq<u8> {
    seq![(x / 0x100) as u8, (x % 0x100) as u8]
}

/// The low 24 bits of `x` as three bytes, most significant first; the top
/// byte of `x` is dropped.
pub open spec fn be24(x: u32) -> Seq<u8> {
    seq![((x / 0x1_0000) % 0x100) as u8, ((x / 0x100) % 0x100) as u8, (x % 0x100) as u8]
}

/// Four bytes of `x`, most significant first.
pub open spec fn be32(x: u32) -> Seq<u8> {
    seq![
        (x / 0x100_0000) as u8,
        ((x / 0x1_0000) % 0x100) as u8,
        ((x / 0x100) % 0x100) as u8,
        (x % 0x100) as u8,
    ]
}

/// The 16-bit value whose big-endian bytes are `hi`, `lo`.
pub open spec fn from_be16(hi: u8, lo: u8) -> u16 {
    (hi * 0x100 + lo) as u16
}

pub(crate) fn u16_to_be(x: u16) -> (r: [u8; 2])
    ensures
        r@ == be16(x),
{
    let r = [(x >> 8) as u8, x as u8];
    assert((x >> 8) as u8 == (x / 0x100) as u8 && x as u8 == (x % 0x100) as u8) by (bit_vector);
    assert(r@ =~= be16(x));
    r
}

pub(crate) fn u24_to_be(x: u32) -> (r: [u8; 3])
    ensures
        r@ == be24(x),
{
    let r = [(x >> 16) as u8, (x >> 8) as u8, x as u8];
    assert((x >> 16) as u8 == ((x / 0x1_0000) % 0x100) as u8 && (x >> 8) as u8 == ((x / 0x100)
        % 0x100) as u8 && x as u8 == (x % 0x100) as u8) by (bit_vector);
    assert(r@ =~= be24(x));
    r
}

pub(crate) fn u32_to_be(x: u32) -> (r: [u8; 4])
    ensures
        r@ == be32(x),
{
    let r = [(x >> 24) as u8, (x >> 16) as u8, (x >> 8) as u8, x as u8];
    assert((x >> 24) as u8 == (x / 0x100_0000) as u8 && (x >> 16) as u8 == ((x / 0x1_0000)
        % 0x100) as u8 && (x >> 8) as u8 == ((x / 0x100) % 0x100) as u8 && x as u8 == (x % 0x100)
        as u8) by (bit_vector);
    assert(r@ =~= be32(x));
    r
}

pub(crate) fn u16_from_be(hi: u8, lo: u8) -> (r: u16)
    ensures
        r == from_be16(hi, lo),
{
    let r = (hi as u16) << 8 | (lo as u16);
    assert((hi as u16) << 8 | (lo as u16) == (hi * 0x100 + lo) as u16) by (bit_vector);
    r
}

/// Decoding the two bytes that `be16` writes gives the value back.
pub proof fn lemma_be16_round_trip(x: u16)
    ensures
        from_be16(be16(x)[0], be16(x)[1]) == x,
{
    assert(((x / 0x100) as u8 * 0x100 + (x % 0x100) as u8) as u16 == x) by (bit_vector);
}

/// What a transport needs to clock one command: the transmit buffer, the
/// receive buffer it fills, and how many bytes to exchange.
///
/// Both buffers are borrowed from the command, so the descriptor cannot
/// outlive it, and the command cannot be changed while the descriptor is
/// alive. Only the first `transfer_length` bytes take part in the exchange.
pub struct SpiDescriptor<'a> {
    pub tx_buf: &'a [u8],
    pub rx_buf: &'a mut [u8],
    pub transfer_length: u16,
}

impl<'a> SpiDescriptor<'a> {
    /// Both buffers have the same length, and the exchange fits in them.
    pub open spec fn wf(&self) -> bool {
        &&& self.tx_buf@.len() == self.rx_buf@.len()
        &&& self.transfer_length <= self.tx_buf@.len()
    }
}

/// The descriptor over a command's two buffers for an exchange of
/// `transfer_length` bytes.
pub(crate) fn describe<'a>(tx_buf: &'a [u8], rx_buf: &'a mut [u8], transfer_length: u16) -> (d:
    SpiDescriptor<'a>)
    requires
        old(rx_buf)@.len() == tx_buf@.len(),
        transfer_length <= tx_buf@.len(),
    ensures
        d.wf(),
        d.tx_buf@ == tx_buf@,
        d.rx_buf@ == old(rx_buf)@,
        d.transfer_length == transfer_length,
        final(rx_buf)@ == final(d.rx_buf)@,
    no_unwind
{
    SpiDescriptor { tx_buf, rx_buf, transfer_length }
}

} // verus!
