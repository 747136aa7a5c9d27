//! The command set. Each command owns a transmit buffer, filled at
//! construction as the opcode followed by the encoded parameters, and a
//! receive buffer of the same length, which starts zeroed and is filled by
//! the transport. Query commands decode their reply from the receive buffer.
use vstd::prelude::*;

pub use crate::bitfields::{Irq, OpError, SleepConfig};
pub use crate::params::{
    Bw, Cr, HeaderType, InvertIq, PacketType, RampTime, Sf, StatusChipMode, StatusCommandStatus,
    StdbyConfig, TcxoVoltage,
};
pub use crate::wire::SpiDescriptor;

use crate::registers::Register;
use crate::wire::{
    be16, be24, be32, describe, from_be16, u16_from_be, u16_to_be, u24_to_be, u32_to_be, zeros,
};
use core::marker::PhantomData;

verus! {

/// Puts the device to sleep.
pub struct SetSleep {
    pub tx_buf: [u8; 2],
    pub rx_buf: [u8; 2],
}

impl SetSleep {
    pub const OPCODE: u8 = 0x84;

    pub fn new(sleep_config: SleepConfig) -> (r: SetSleep)
        ensures
            r.tx_buf@ == seq![Self::OPCODE, sleep_config.spec_into_bits()],
            r.tx_buf[0] == Self::OPCODE,
            r.rx_buf@ == zeros(2),
    {
        let tx_buf = [Self::OPCODE, sleep_config.into_bits()];
        let r = SetSleep { tx_buf, rx_buf: [0; 2] };
        assert(r.tx_buf@ =~= seq![Self::OPCODE, sleep_config.spec_into_bits()]);
        assert(r.rx_buf@ =~= zeros(2));
        r
    }

    /// The descriptor of the whole exchange over this command's buffers.
    pub fn descriptor(&mut self) -> (d: SpiDescriptor<'_>)
        ensures
            d.wf(),
            d.tx_buf@ == old(self).tx_buf@,
            d.rx_buf@ == old(self).rx_buf@,
            d.transfer_length == old(self).rx_buf@.len(),
            final(self).tx_buf == old(self).tx_buf,
            final(self).rx_buf@ == final(d.rx_buf)@,
    {
        describe(&self.tx_buf, &mut self.rx_buf, 2)
    }
}

/// Puts the device in standby mode, running on the given clock.
pub struct SetStandby {
    pub tx_buf: [u8; 2],
    pub rx_buf: [u8; 2],
}

impl SetStandby {
    pub const OPCODE: u8 = 0x80;

    pub fn new(stdby_config: StdbyConfig) -> (r: SetStandby)
        ensures
            r.tx_buf@ == seq![Self::OPCODE, stdby_config.bits()],
            r.tx_buf[0] == Self::OPCODE,
            r.rx_buf@ == zeros(2),
    {
        let tx_buf = [Self::OPCODE, stdby_config.bits()];
        let r = SetStandby { tx_buf, rx_buf: [0; 2] };
        assert(r.tx_buf@ =~= seq![Self::OPCODE, stdby_config.bits()]);
        assert(r.rx_buf@ =~= zeros(2));
        r
    }

    /// The descriptor of the whole exchange over this command's buffers.
    pub fn descriptor(&mut self) -> (d: SpiDescriptor<'_>)
        ensures
            d.wf(),
            d.tx_buf@ == old(self).tx_buf@,
            d.rx_buf@ == old(self).rx_buf@,
            d.transfer_length == old(self).rx_buf@.len(),
            final(self).tx_buf == old(self).tx_buf,
            final(self).rx_buf@ == final(d.rx_buf)@,
    {
        describe(&self.tx_buf, &mut self.rx_buf, 2)
    }
}

/// Starts a transmission. The timeout is counted in steps of 15.625 us and
/// travels as 24 bits, most significant first; higher bits are dropped.
pub struct SetTx {
    pub tx_buf: [u8; 4],
    pub rx_buf: [u8; 4],
}

impl SetTx {
    pub const OPCODE: u8 = 0x83;

    pub fn new(timeout: u32) -> (r: SetTx)
        ensures
            r.tx_buf@ == seq![Self::OPCODE] + be24(timeout),
            r.tx_buf[0] == Self::OPCODE,
            r.rx_buf@ == zeros(4),
    {
        let t = u24_to_be(timeout);
        let tx_buf = [Self::OPCODE, t[0], t[1], t[2]];
        let r = SetTx { tx_buf, rx_buf: [0; 4] };
        assert(r.tx_buf@ =~= seq![Self::OPCODE] + be24(timeout));
        assert(r.rx_buf@ =~= zeros(4));
        r
    }

    /// The descriptor of the whole exchange over this command's buffers.
    pub fn descriptor(&mut self) -> (d: SpiDescriptor<'_>)
        ensures
            d.wf(),
            d.tx_buf@ == old(self).tx_buf@,
            d.rx_buf@ == old(self).rx_buf@,
            d.transfer_length == old(self).rx_buf@.len(),
            final(self).tx_buf == old(self).tx_buf,
            final(self).rx_buf@ == final(d.rx_buf)@,
    {
        describe(&self.tx_buf, &mut self.rx_buf, 4)
    }
}

/// Starts a reception. The timeout is counted in steps of 15.625 us and
/// travels as 24 bits, most significant first; higher bits are dropped.
pub struct SetRx {
    pub tx_buf: [u8; 4],
    pub rx_buf: [u8; 4],
}

impl SetRx {
    pub const OPCODE: u8 = 0x82;

    pub fn new(timeout: u32) -> (r: SetRx)
        ensures
            r.tx_buf@ == seq![Self::OPCODE] + be24(timeout),
            r.tx_buf[0] == Self::OPCODE,
            r.rx_buf@ == zeros(4),
    {
        let t = u24_to_be(timeout);
        let tx_buf = [Self::OPCODE, t[0], t[1], t[2]];
        let r = SetRx { tx_buf, rx_buf: [0; 4] };
        assert(r.tx_buf@ =~= seq![Self::OPCODE] + be24(timeout));
        assert(r.rx_buf@ =~= zeros(4));
        r
    }

    /// The descriptor of the whole exchange over this command's buffers.
    pub fn descriptor(&mut self) -> (d: SpiDescriptor<'_>)
        ensures
            d.wf(),
            d.tx_buf@ == old(self).tx_buf@,
            d.rx_buf@ == old(self).rx_buf@,
            d.transfer_length == old(self).rx_buf@.len(),
            final(self).tx_buf == old(self).tx_buf,
            final(self).rx_buf@ == final(d.rx_buf)@,
    {
        describe(&self.tx_buf, &mut self.rx_buf, 4)
    }
}

/// Configures the power amplifier. The device selection byte is fixed to
/// the high-power SX1262 amplifier, and the last byte is fixed to 1.
pub struct SetPaConfig {
    pub tx_buf: [u8; 5],
    pub rx_buf: [u8; 5],
}

impl SetPaConfig {
    pub const OPCODE: u8 = 0x95;

    pub fn new(pa_duty_cycle: u8, hp_max: u8) -> (r: SetPaConfig)
        ensures
            r.tx_buf@ == seq![Self::OPCODE, pa_duty_cycle, hp_max, 0x00, 0x01],
            r.tx_buf[0] == Self::OPCODE,
            r.rx_buf@ == zeros(5),
    {
        let tx_buf = [Self::OPCODE, pa_duty_cycle, hp_max, 0x00, 0x01];
        let r = SetPaConfig { tx_buf, rx_buf: [0; 5] };
        assert(r.tx_buf@ =~= seq![Self::OPCODE, pa_duty_cycle, hp_max, 0x00, 0x01]);
        assert(r.rx_buf@ =~= zeros(5));
        r
    }

    /// The descriptor of the whole exchange over this command's buffers.
    pub fn descriptor(&mut self) -> (d: SpiDescriptor<'_>)
        ensures
            d.wf(),
            d.tx_buf@ == old(self).tx_buf@,
            d.rx_buf@ == old(self).rx_buf@,
            d.transfer_length == old(self).rx_buf@.len(),
            final(self).tx_buf == old(self).tx_buf,
            final(self).rx_buf@ == final(d.rx_buf)@,
    {
        describe(&self.tx_buf, &mut self.rx_buf, 5)
    }
}

/// Writes one register: its address, most significant byte first, then its
/// value.
pub struct WriteRegister {
    pub tx_buf: [u8; 4],
    pub rx_buf: [u8; 4],
}

impl WriteRegister {
    pub const OPCODE: u8 = 0x0D;

    pub fn new<R: Register>(register: R) -> (r: WriteRegister)
        ensures
            r.tx_buf@ == seq![Self::OPCODE] + be16(R::spec_address()) + seq![register.spec_bits()],
            r.tx_buf[0] == Self::OPCODE,
            r.rx_buf@ == zeros(4),
    {
        let a = u16_to_be(R::address());
        let tx_buf = [Self::OPCODE, a[0], a[1], register.bits()];
        let r = WriteRegister { tx_buf, rx_buf: [0; 4] };
        assert(r.tx_buf@ =~= seq![Self::OPCODE] + be16(R::spec_address()) + seq![
            register.spec_bits(),
        ]);
        assert(r.rx_buf@ =~= zeros(4));
        r
    }

    /// The descriptor of the whole exchange over this command's buffers.
    pub fn descriptor(&mut self) -> (d: SpiDescriptor<'_>)
        ensures
            d.wf(),
            d.tx_buf@ == old(self).tx_buf@,
            d.rx_buf@ == old(self).rx_buf@,
            d.transfer_length == old(self).rx_buf@.len(),
            final(self).tx_buf == old(self).tx_buf,
            final(self).rx_buf@ == final(d.rx_buf)@,
    {
        describe(&self.tx_buf, &mut self.rx_buf, 4)
    }
}

/// Reads one register of type `R`. The reply byte is the last one of the
/// receive buffer, after the status byte and a byte of padding.
pub struct ReadRegister<R> {
    pub tx_buf: [u8; 5],
    pub rx_buf: [u8; 5],
    /// Ties the command to the register it reads; holds no data.
    pub register: PhantomData<R>,
}

impl<R: Register> ReadRegister<R> {
    pub const OPCODE: u8 = 0x1D;

    pub fn new() -> (r: ReadRegister<R>)
        ensures
            r.tx_buf@ == seq![Self::OPCODE] + be16(R::spec_address()) + zeros(2),
            r.tx_buf[0] == Self::OPCODE,
            r.rx_buf@ == zeros(5),
    {
        let a = u16_to_be(R::address());
        let r = ReadRegister {
            tx_buf: [Self::OPCODE, a[0], a[1], 0, 0],
            rx_buf: [0; 5],
            register: PhantomData,
        };
        assert(r.tx_buf@ =~= seq![Self::OPCODE] + be16(R::spec_address()) + zeros(2));
        assert(r.rx_buf@ =~= zeros(5));
        r
    }

    /// The descriptor of the whole exchange over this command's buffers.
    pub fn descriptor(&mut self) -> (d: SpiDescriptor<'_>)
        ensures
            d.wf(),
            d.tx_buf@ == old(self).tx_buf@,
            d.rx_buf@ == old(self).rx_buf@,
            d.transfer_length == old(self).rx_buf@.len(),
            d.transfer_length == 5,
            final(self).tx_buf == old(self).tx_buf,
            final(self).rx_buf@ == final(d.rx_buf)@,
    {
        describe(&self.tx_buf, &mut self.rx_buf, 5)
    }

    /// The register value that the reply byte decodes to.
    pub fn register(&self) -> (r: R)
        ensures
            r == R::spec_from_bits(self.rx_buf[4]),
    {
        R::from_bits(self.rx_buf[4])
    }
}

/// Writes `N - 3` consecutive registers, starting at the address of `R`;
/// the device advances the address after each byte.
pub struct WriteRegisters<const N: usize> {
    pub tx_buf: [u8; N],
    pub rx_buf: [u8; N],
}

impl<const N: usize> WriteRegisters<N> {
    pub const OPCODE: u8 = 0x0D;

    pub fn new<R: Register>(values: &[u8]) -> (r: WriteRegisters<N>)
        requires
            values@.len() + 3 == N,
        ensures
            r.tx_buf@ == seq![Self::OPCODE] + be16(R::spec_address()) + values@,
            r.tx_buf[0] == Self::OPCODE,
            r.rx_buf@ == zeros(N as nat),
    {
        let a = u16_to_be(R::address());
        let mut tx_buf = [0u8; N];
        tx_buf[0] = Self::OPCODE;
        tx_buf[1] = a[0];
        tx_buf[2] = a[1];
        let mut i: usize = 0;
        while i < values.len()
            invariant
                values@.len() + 3 == N,
                tx_buf@.len() == N,
                i <= values@.len(),
                tx_buf@[0] == Self::OPCODE,
                tx_buf@[1] == be16(R::spec_address())[0],
                tx_buf@[2] == be16(R::spec_address())[1],
                forall|j: int| 0 <= j < i ==> tx_buf@[j + 3] == values@[j],
            decreases values@.len() - i,
        {
            tx_buf[i + 3] = values[i];
            i += 1;
        }
        assert(tx_buf@ =~= seq![Self::OPCODE] + be16(R::spec_address()) + values@);
        let rx_buf = [0u8; N];
        assert(rx_buf@ =~= zeros(N as nat));
        WriteRegisters { tx_buf, rx_buf }
    }

    /// The descriptor of the whole exchange over this command's buffers.
    pub fn descriptor(&mut self) -> (d: SpiDescriptor<'_>)
        requires
            N <= u16::MAX,
        ensures
            d.wf(),
            d.tx_buf@ == old(self).tx_buf@,
            d.rx_buf@ == old(self).rx_buf@,
            d.transfer_length == old(self).rx_buf@.len(),
            final(self).tx_buf == old(self).tx_buf,
            final(self).rx_buf@ == final(d.rx_buf)@,
    {
        describe(&self.tx_buf, &mut self.rx_buf, N as u16)
    }
}

/// Reads `N - 4` consecutive registers, starting at the address of `R`. The
/// values arrive in the receive buffer after the status byte, the address
/// echo and a byte of padding.
pub struct ReadRegisters<const N: usize> {
    pub tx_buf: [u8; N],
    pub rx_buf: [u8; N],
}

impl<const N: usize> ReadRegisters<N> {
    pub const OPCODE: u8 = 0x1D;

    pub fn new<R: Register>() -> (r: ReadRegisters<N>)
        requires
            4 <= N,
        ensures
            r.tx_buf@ == seq![Self::OPCODE] + be16(R::spec_address()) + zeros((N - 3) as nat),
            r.tx_buf[0] == Self::OPCODE,
            r.rx_buf@ == zeros(N as nat),
    {
        let a = u16_to_be(R::address());
        let mut tx_buf = [0u8; N];
        tx_buf[0] = Self::OPCODE;
        tx_buf[1] = a[0];
        tx_buf[2] = a[1];
        assert(tx_buf@ =~= seq![Self::OPCODE] + be16(R::spec_address()) + zeros((N - 3) as nat));
        let rx_buf = [0u8; N];
        assert(rx_buf@ =~= zeros(N as nat));
        ReadRegisters { tx_buf, rx_buf }
    }

    /// The descriptor of the whole exchange over this command's buffers.
    pub fn descriptor(&mut self) -> (d: SpiDescriptor<'_>)
        requires
            N <= u16::MAX,
        ensures
            d.wf(),
            d.tx_buf@ == old(self).tx_buf@,
            d.rx_buf@ == old(self).rx_buf@,
            d.transfer_length == old(self).rx_buf@.len(),
            final(self).tx_buf == old(self).tx_buf,
            final(self).rx_buf@ == final(d.rx_buf)@,
    {
        describe(&self.tx_buf, &mut self.rx_buf, N as u16)
    }

    /// The register values of the reply, in address order.
    pub fn data(&self) -> (r: &[u8])
        requires
            4 <= N,
        ensures
            r@ == self.rx_buf@.subrange(4, N as int),
    {
        vstd::slice::slice_subrange(&self.rx_buf, 4, N)
    }
}

/// The buffers of a payload transfer and its effective data length, as seen
/// by the contracts.
pub struct PayloadView {
    pub tx: Seq<u8>,
    pub rx: Seq<u8>,
    pub data_length: nat,
}

/// Stores `N - 2` payload bytes in the device's data buffer, starting at an
/// offset. The device advances the offset after each byte and wraps from 255
/// to 0.
///
/// The data length can later be lowered, so that a transfer sends only the
/// first bytes of the payload without rebuilding the buffer.
pub struct WriteBuffer<const N: usize> {
    pub tx_buf: [u8; N],
    pub rx_buf: [u8; N],
    data_length: u16,
}

impl<const N: usize> View for WriteBuffer<N> {
    type V = PayloadView;

    closed spec fn view(&self) -> PayloadView {
        PayloadView { tx: self.tx_buf@, rx: self.rx_buf@, data_length: self.data_length as nat }
    }
}

impl<const N: usize> WriteBuffer<N> {
    pub const OPCODE: u8 = 0x0E;

    /// The data length never exceeds the payload capacity, and a whole
    /// transfer fits in a 16-bit length.
    #[verifier::type_invariant]
    spec fn inv(&self) -> bool {
        self.data_length + 2 <= N <= u16::MAX
    }

    pub fn new<const M: usize>(offset: u8, data: [u8; M]) -> (r: WriteBuffer<N>)
        requires
            N == M + 2,
            N <= u16::MAX,
        ensures
            r@.tx == seq![Self::OPCODE, offset] + data@,
            r@.tx[0] == Self::OPCODE,
            r@.rx == zeros(N as nat),
            r@.data_length == M,
    {
        let mut tx_buf = [0u8; N];
        tx_buf[0] = Self::OPCODE;
        tx_buf[1] = offset;
        let mut i: usize = 0;
        while i < M
            invariant
                N == M + 2,
                i <= M,
                tx_buf@.len() == N,
                tx_buf@[0] == Self::OPCODE,
                tx_buf@[1] == offset,
                forall|j: int| 0 <= j < i ==> tx_buf@[j + 2] == data@[j],
            decreases M - i,
        {
            tx_buf[i + 2] = data[i];
            i += 1;
        }
        assert(tx_buf@ =~= seq![Self::OPCODE, offset] + data@);
        let rx_buf = [0u8; N];
        assert(rx_buf@ =~= zeros(N as nat));
        WriteBuffer { tx_buf, rx_buf, data_length: M as u16 }
    }

    /// The descriptor of an exchange of the opcode, the offset and the first
    /// `data_length` payload bytes.
    pub fn descriptor(&mut self) -> (d: SpiDescriptor<'_>)
        ensures
            d.wf(),
            d.tx_buf@ == old(self)@.tx,
            d.rx_buf@ == old(self)@.rx,
            d.transfer_length == old(self)@.data_length + 2,
            old(self)@.tx.len() == N,
            old(self)@.rx.len() == N,
            old(self)@.data_length + 2 <= N,
            final(self)@ == (PayloadView { rx: final(d.rx_buf)@, ..old(self)@ }),
    {
        proof {
            use_type_invariant(&*self);
        }
        let transfer_length = self.data_length + 2;
        describe(&self.tx_buf, &mut self.rx_buf, transfer_length)
    }

    /// Lowers (or restores) the number of payload bytes that a transfer
    /// sends; the buffers are left as they are.
    pub fn set_data_length(&mut self, data_length: u16)
        requires
            data_length + 2 <= N,
        ensures
            final(self)@ == (PayloadView { data_length: data_length as nat, ..old(self)@ }),
    {
        proof {
            use_type_invariant(&*self);
        }
        self.data_length = data_length;
    }
}

/// Reads payload bytes from the device's data buffer, starting at an offset.
/// Of the `N` bytes exchanged, the first three carry the opcode, the offset
/// and a status byte; the payload arrives in the other `N - 3`. The device
/// advances the offset after each byte and wraps from 255 to 0.
///
/// The data length can later be lowered, so that a transfer reads only the
/// first bytes of the payload.
pub struct ReadBuffer<const N: usize> {
    pub tx_buf: [u8; N],
    pub rx_buf: [u8; N],
    data_length: u16,
}

impl<const N: usize> View for ReadBuffer<N> {
    type V = PayloadView;

    closed spec fn view(&self) -> PayloadView {
        PayloadView { tx: self.tx_buf@, rx: self.rx_buf@, data_length: self.data_length as nat }
    }
}

impl<const N: usize> ReadBuffer<N> {
    pub const OPCODE: u8 = 0x1E;

    /// The data length never exceeds the payload capacity, and a whole
    /// transfer fits in a 16-bit length.
    #[verifier::type_invariant]
    spec fn inv(&self) -> bool {
        self.data_length + 3 <= N <= u16::MAX
    }

    pub fn new(offset: u8) -> (r: ReadBuffer<N>)
        requires
            3 <= N <= u16::MAX,
        ensures
            r@.tx == seq![Self::OPCODE, offset] + zeros((N - 2) as nat),
            r@.tx[0] == Self::OPCODE,
            r@.rx == zeros(N as nat),
            r@.data_length == N - 3,
    {
        let mut tx_buf = [0u8; N];
        tx_buf[0] = Self::OPCODE;
        tx_buf[1] = offset;
        assert(tx_buf@ =~= seq![Self::OPCODE, offset] + zeros((N - 2) as nat));
        let rx_buf = [0u8; N];
        assert(rx_buf@ =~= zeros(N as nat));
        ReadBuffer { tx_buf, rx_buf, data_length: (N - 3) as u16 }
    }

    /// The descriptor of an exchange of the three leading bytes and the
    /// first `data_length` payload bytes.
    pub fn descriptor(&mut self) -> (d: SpiDescriptor<'_>)
        ensures
            d.wf(),
            d.tx_buf@ == old(self)@.tx,
            d.rx_buf@ == old(self)@.rx,
            d.transfer_length == old(self)@.data_length + 3,
            old(self)@.tx.len() == N,
            old(self)@.rx.len() == N,
            old(self)@.data_length + 3 <= N,
            final(self)@ == (PayloadView { rx: final(d.rx_buf)@, ..old(self)@ }),
    {
        proof {
            use_type_invariant(&*self);
        }
        let transfer_length = self.data_length + 3;
        describe(&self.tx_buf, &mut self.rx_buf, transfer_length)
    }

    /// Lowers (or restores) the number of payload bytes that a transfer
    /// reads; the buffers are left as they are.
    pub fn set_data_length(&mut self, data_length: u16)
        requires
            data_length + 3 <= N,
        ensures
            final(self)@ == (PayloadView { data_length: data_length as nat, ..old(self)@ }),
    {
        proof {
            use_type_invariant(&*self);
        }
        self.data_length = data_length;
    }

    /// The payload bytes of the reply, as many as the data length says.
    pub fn data(&self) -> (r: &[u8])
        ensures
            r@ == self@.rx.subrange(3, 3 + self@.data_length as int),
            r@.len() == self@.data_length,
            self@.rx.len() == N,
            self@.data_length + 3 <= N,
    {
        proof {
            use_type_invariant(self);
        }
        vstd::slice::slice_subrange(&self.rx_buf, 3, 3 + self.data_length as usize)
    }
}

/// Selects which interrupts are enabled, and which of them each of the
/// lines DIO1, DIO2 and DIO3 signals. Each mask travels as 16 bits, most
/// significant first.
pub struct SetDioIrqParams {
    pub tx_buf: [u8; 9],
    pub rx_buf: [u8; 9],
}

impl SetDioIrqParams {
    pub const OPCODE: u8 = 0x08;

    pub fn new(
        irq_mask: Irq,
        dio1_mask: Irq,
        dio2_mask: Irq,
        dio3_mask: Irq,
    ) -> (r: SetDioIrqParams)
        ensures
            r.tx_buf@ == seq![Self::OPCODE]
                + be16(irq_mask.spec_into_bits())
                + be16(dio1_mask.spec_into_bits())
                + be16(dio2_mask.spec_into_bits())
                + be16(dio3_mask.spec_into_bits()),
            r.tx_buf[0] == Self::OPCODE,
            r.rx_buf@ == zeros(9),
    {
        let m0 = u16_to_be(irq_mask.into_bits());
        let m1 = u16_to_be(dio1_mask.into_bits());
        let m2 = u16_to_be(dio2_mask.into_bits());
        let m3 = u16_to_be(dio3_mask.into_bits());
        let tx_buf = [Self::OPCODE, m0[0], m0[1], m1[0], m1[1], m2[0], m2[1], m3[0], m3[1]];
        let r = SetDioIrqParams { tx_buf, rx_buf: [0; 9] };
        assert(r.tx_buf@ =~= seq![Self::OPCODE]
            + be16(irq_mask.spec_into_bits())
            + be16(dio1_mask.spec_into_bits())
            + be16(dio2_mask.spec_into_bits())
            + be16(dio3_mask.spec_into_bits()));
        assert(r.rx_buf@ =~= zeros(9));
        r
    }

    /// The descriptor of the whole exchange over this command's buffers.
    pub fn descriptor(&mut self) -> (d: SpiDescriptor<'_>)
        ensures
            d.wf(),
            d.tx_buf@ == old(self).tx_buf@,
            d.rx_buf@ == old(self).rx_buf@,
            d.transfer_length == old(self).rx_buf@.len(),
            final(self).tx_buf == old(self).tx_buf,
            final(self).rx_buf@ == final(d.rx_buf)@,
    {
        describe(&self.tx_buf, &mut self.rx_buf, 9)
    }
}

/// Reads the interrupt flags; they arrive in bytes 2 and 3 of the reply,
/// most significant first.
pub struct GetIrqStatus {
    pub tx_buf: [u8; 4],
    pub rx_buf: [u8; 4],
}

impl GetIrqStatus {
    pub const OPCODE: u8 = 0x12;

    pub fn new() -> (r: GetIrqStatus)
        ensures
            r.tx_buf@ == seq![Self::OPCODE] + zeros(3),
            r.tx_buf[0] == Self::OPCODE,
            r.rx_buf@ == zeros(4),
    {
        let tx_buf = [Self::OPCODE, 0, 0, 0];
        let r = GetIrqStatus { tx_buf, rx_buf: [0; 4] };
        assert(r.tx_buf@ =~= seq![Self::OPCODE] + zeros(3));
        assert(r.rx_buf@ =~= zeros(4));
        r
    }

    /// The descriptor of the whole exchange over this command's buffers.
    pub fn descriptor(&mut self) -> (d: SpiDescriptor<'_>)
        ensures
            d.wf(),
            d.tx_buf@ == old(self).tx_buf@,
            d.rx_buf@ == old(self).rx_buf@,
            d.transfer_length == old(self).rx_buf@.len(),
            final(self).tx_buf == old(self).tx_buf,
            final(self).rx_buf@ == final(d.rx_buf)@,
    {
        describe(&self.tx_buf, &mut self.rx_buf, 4)
    }

    /// The interrupt flags of the reply.
    pub fn irq_status(&self) -> (r: Irq)
        ensures
            r == Irq::spec_from_bits(from_be16(self.rx_buf[2], self.rx_buf[3])),
    {
        Irq::from_bits(u16_from_be(self.rx_buf[2], self.rx_buf[3]))
    }
}

/// Clears the interrupt flags that are set in the parameter.
pub struct ClearIrqStatus {
    pub tx_buf: [u8; 3],
    pub rx_buf: [u8; 3],
}

impl ClearIrqStatus {
    pub const OPCODE: u8 = 0x02;

    pub fn new(clear_irq_param: Irq) -> (r: ClearIrqStatus)
        ensures
            r.tx_buf@ == seq![Self::OPCODE] + be16(clear_irq_param.spec_into_bits()),
            r.tx_buf[0] == Self::OPCODE,
            r.rx_buf@ == zeros(3),
    {
        let m = u16_to_be(clear_irq_param.into_bits());
        let tx_buf = [Self::OPCODE, m[0], m[1]];
        let r = ClearIrqStatus { tx_buf, rx_buf: [0; 3] };
        assert(r.tx_buf@ =~= seq![Self::OPCODE] + be16(clear_irq_param.spec_into_bits()));
        assert(r.rx_buf@ =~= zeros(3));
        r
    }

    /// The descriptor of the whole exchange over this command's buffers.
    pub fn descriptor(&mut self) -> (d: SpiDescriptor<'_>)
        ensures
            d.wf(),
            d.tx_buf@ == old(self).tx_buf@,
            d.rx_buf@ == old(self).rx_buf@,
            d.transfer_length == old(self).rx_buf@.len(),
            final(self).tx_buf == old(self).tx_buf,
            final(self).rx_buf@ == final(d.rx_buf)@,
    {
        describe(&self.tx_buf, &mut self.rx_buf, 3)
    }
}

/// Lets DIO2 drive an external RF switch, or stops it from doing so.
pub struct SetDio2AsRfSwitchCtrl {
    pub tx_buf: [u8; 2],
    pub rx_buf: [u8; 2],
}

impl SetDio2AsRfSwitchCtrl {
    pub const OPCODE: u8 = 0x9D;

    pub fn new(enable: bool) -> (r: SetDio2AsRfSwitchCtrl)
        ensures
            r.tx_buf@ == seq![Self::OPCODE, if enable { 1u8 } else { 0u8 }],
            r.tx_buf[0] == Self::OPCODE,
            r.rx_buf@ == zeros(2),
    {
        let e: u8 = if enable { 1 } else { 0 };
        let tx_buf = [Self::OPCODE, e];
        let r = SetDio2AsRfSwitchCtrl { tx_buf, rx_buf: [0; 2] };
        assert(r.tx_buf@ =~= seq![Self::OPCODE, if enable { 1u8 } else { 0u8 }]);
        assert(r.rx_buf@ =~= zeros(2));
        r
    }

    /// The descriptor of the whole exchange over this command's buffers.
    pub fn descriptor(&mut self) -> (d: SpiDescriptor<'_>)
        ensures
            d.wf(),
            d.tx_buf@ == old(self).tx_buf@,
            d.rx_buf@ == old(self).rx_buf@,
            d.transfer_length == old(self).rx_buf@.len(),
            final(self).tx_buf == old(self).tx_buf,
            final(self).rx_buf@ == final(d.rx_buf)@,
    {
        describe(&self.tx_buf, &mut self.rx_buf, 2)
    }
}

/// Lets DIO3 supply an external TCXO. The delay before the TCXO is taken
/// as stable is counted in steps of 15.625 us and travels as 24 bits, most
/// significant first; higher bits are dropped.
pub struct SetDio3AsTcxoCtrl {
    pub tx_buf: [u8; 5],
    pub rx_buf: [u8; 5],
}

impl SetDio3AsTcxoCtrl {
    pub const OPCODE: u8 = 0x97;

    pub fn new(tcxo_voltage: TcxoVoltage, delay: u32) -> (r: SetDio3AsTcxoCtrl)
        ensures
            r.tx_buf@ == seq![Self::OPCODE, tcxo_voltage.bits()] + be24(delay),
            r.tx_buf[0] == Self::OPCODE,
            r.rx_buf@ == zeros(5),
    {
        let t = u24_to_be(delay);
        let tx_buf = [Self::OPCODE, tcxo_voltage.bits(), t[0], t[1], t[2]];
        let r = SetDio3AsTcxoCtrl { tx_buf, rx_buf: [0; 5] };
        assert(r.tx_buf@ =~= seq![Self::OPCODE, tcxo_voltage.bits()] + be24(delay));
        assert(r.rx_buf@ =~= zeros(5));
        r
    }

    /// The descriptor of the whole exchange over this command's buffers.
    pub fn descriptor(&mut self) -> (d: SpiDescriptor<'_>)
        ensures
            d.wf(),
            d.tx_buf@ == old(self).tx_buf@,
            d.rx_buf@ == old(self).rx_buf@,
            d.transfer_length == old(self).rx_buf@.len(),
            final(self).tx_buf == old(self).tx_buf,
            final(self).rx_buf@ == final(d.rx_buf)@,
    {
        describe(&self.tx_buf, &mut self.rx_buf, 5)
    }
}

/// Sets the carrier frequency, in steps of the synthesizer; the value
/// travels as 32 bits, most significant first.
pub struct SetRfFrequency {
    pub tx_buf: [u8; 5],
    pub rx_buf: [u8; 5],
}

impl SetRfFrequency {
    pub const OPCODE: u8 = 0x86;

    pub fn new(rf_freq: u32) -> (r: SetRfFrequency)
        ensures
            r.tx_buf@ == seq![Self::OPCODE] + be32(rf_freq),
            r.tx_buf[0] == Self::OPCODE,
            r.rx_buf@ == zeros(5),
    {
        let f = u32_to_be(rf_freq);
        let tx_buf = [Self::OPCODE, f[0], f[1], f[2], f[3]];
        let r = SetRfFrequency { tx_buf, rx_buf: [0; 5] };
        assert(r.tx_buf@ =~= seq![Self::OPCODE] + be32(rf_freq));
        assert(r.rx_buf@ =~= zeros(5));
        r
    }

    /// The descriptor of the whole exchange over this command's buffers.
    pub fn descriptor(&mut self) -> (d: SpiDescriptor<'_>)
        ensures
            d.wf(),
            d.tx_buf@ == old(self).tx_buf@,
            d.rx_buf@ == old(self).rx_buf@,
            d.transfer_length == old(self).rx_buf@.len(),
            final(self).tx_buf == old(self).tx_buf,
            final(self).rx_buf@ == final(d.rx_buf)@,
    {
        describe(&self.tx_buf, &mut self.rx_buf, 5)
    }
}

/// Selects the modem and packet engine.
pub struct SetPacketType {
    pub tx_buf: [u8; 2],
    pub rx_buf: [u8; 2],
}

impl SetPacketType {
    pub const OPCODE: u8 = 0x8A;

    pub fn new(packet_type: PacketType) -> (r: SetPacketType)
        ensures
            r.tx_buf@ == seq![Self::OPCODE, packet_type.bits()],
            r.tx_buf[0] == Self::OPCODE,
            r.rx_buf@ == zeros(2),
    {
        let tx_buf = [Self::OPCODE, packet_type.bits()];
        let r = SetPacketType { tx_buf, rx_buf: [0; 2] };
        assert(r.tx_buf@ =~= seq![Self::OPCODE, packet_type.bits()]);
        assert(r.rx_buf@ =~= zeros(2));
        r
    }

    /// The descriptor of the whole exchange over this command's buffers.
    pub fn descriptor(&mut self) -> (d: SpiDescriptor<'_>)
        ensures
            d.wf(),
            d.tx_buf@ == old(self).tx_buf@,
            d.rx_buf@ == old(self).rx_buf@,
            d.transfer_length == old(self).rx_buf@.len(),
            final(self).tx_buf == old(self).tx_buf,
            final(self).rx_buf@ == final(d.rx_buf)@,
    {
        describe(&self.tx_buf, &mut self.rx_buf, 2)
    }
}

/// Reads the selected packet type; it arrives in byte 2 of the reply.
pub struct GetPacketType {
    pub tx_buf: [u8; 3],
    pub rx_buf: [u8; 3],
}

impl GetPacketType {
    pub const OPCODE: u8 = 0x11;

    pub fn new() -> (r: GetPacketType)
        ensures
            r.tx_buf@ == seq![Self::OPCODE] + zeros(2),
            r.tx_buf[0] == Self::OPCODE,
            r.rx_buf@ == zeros(3),
    {
        let tx_buf = [Self::OPCODE, 0, 0];
        let r = GetPacketType { tx_buf, rx_buf: [0; 3] };
        assert(r.tx_buf@ =~= seq![Self::OPCODE] + zeros(2));
        assert(r.rx_buf@ =~= zeros(3));
        r
    }

    /// The descriptor of the whole exchange over this command's buffers.
    pub fn descriptor(&mut self) -> (d: SpiDescriptor<'_>)
        ensures
            d.wf(),
            d.tx_buf@ == old(self).tx_buf@,
            d.rx_buf@ == old(self).rx_buf@,
            d.transfer_length == old(self).rx_buf@.len(),
            final(self).tx_buf == old(self).tx_buf,
            final(self).rx_buf@ == final(d.rx_buf)@,
    {
        describe(&self.tx_buf, &mut self.rx_buf, 3)
    }

    /// The packet type of the reply, from the low two bits of its byte.
    pub fn packet_type(&self) -> (r: PacketType)
        ensures
            r.spec_bits() == self.rx_buf[2] & 0x03,
    {
        PacketType::from(self.rx_buf[2])
    }
}

/// Sets the output power, in dBm, and the power amplifier ramp time.
pub struct SetTxParams {
    pub tx_buf: [u8; 3],
    pub rx_buf: [u8; 3],
}

impl SetTxParams {
    pub const OPCODE: u8 = 0x8E;

    pub fn new(power: u8, ramp_time: RampTime) -> (r: SetTxParams)
        ensures
            r.tx_buf@ == seq![Self::OPCODE, power, ramp_time.bits()],
            r.tx_buf[0] == Self::OPCODE,
            r.rx_buf@ == zeros(3),
    {
        let tx_buf = [Self::OPCODE, power, ramp_time.bits()];
        let r = SetTxParams { tx_buf, rx_buf: [0; 3] };
        assert(r.tx_buf@ =~= seq![Self::OPCODE, power, ramp_time.bits()]);
        assert(r.rx_buf@ =~= zeros(3));
        r
    }

    /// The descriptor of the whole exchange over this command's buffers.
    pub fn descriptor(&mut self) -> (d: SpiDescriptor<'_>)
        ensures
            d.wf(),
            d.tx_buf@ == old(self).tx_buf@,
            d.rx_buf@ == old(self).rx_buf@,
            d.transfer_length == old(self).rx_buf@.len(),
            final(self).tx_buf == old(self).tx_buf,
            final(self).rx_buf@ == final(d.rx_buf)@,
    {
        describe(&self.tx_buf, &mut self.rx_buf, 3)
    }
}

/// Sets the LoRa modulation: spreading factor, bandwidth, coding rate and
/// low data rate optimisation.
pub struct SetModulationParamsLora {
    pub tx_buf: [u8; 5],
    pub rx_buf: [u8; 5],
}

impl SetModulationParamsLora {
    pub const OPCODE: u8 = 0x8B;

    pub fn new(sf: Sf, bw: Bw, cr: Cr, low_data_rate_optimize: bool) -> (r: SetModulationParamsLora)
        ensures
            r.tx_buf@ == seq![
                Self::OPCODE,
                sf.bits(),
                bw.bits(),
                cr.bits(),
                if low_data_rate_optimize { 1u8 } else { 0u8 },
            ],
            r.tx_buf[0] == Self::OPCODE,
            r.rx_buf@ == zeros(5),
    {
        let ldro: u8 = if low_data_rate_optimize { 1 } else { 0 };
        let tx_buf = [Self::OPCODE, sf.bits(), bw.bits(), cr.bits(), ldro];
        let r = SetModulationParamsLora { tx_buf, rx_buf: [0; 5] };
        assert(r.tx_buf@ =~= seq![
            Self::OPCODE,
            sf.bits(),
            bw.bits(),
            cr.bits(),
            if low_data_rate_optimize { 1u8 } else { 0u8 },
            ]);
        assert(r.rx_buf@ =~= zeros(5));
        r
    }

    /// The descriptor of the whole exchange over this command's buffers.
    pub fn descriptor(&mut self) -> (d: SpiDescriptor<'_>)
        ensures
            d.wf(),
            d.tx_buf@ == old(self).tx_buf@,
            d.rx_buf@ == old(self).rx_buf@,
            d.transfer_length == old(self).rx_buf@.len(),
            final(self).tx_buf == old(self).tx_buf,
            final(self).rx_buf@ == final(d.rx_buf)@,
    {
        describe(&self.tx_buf, &mut self.rx_buf, 5)
    }
}

/// Sets the LoRa packet format: preamble length (16 bits, most significant
/// first), header type, payload length, whether a CRC is appended, and IQ
/// polarity.
pub struct SetPacketParams {
    pub tx_buf: [u8; 7],
    pub rx_buf: [u8; 7],
}

impl SetPacketParams {
    pub const OPCODE: u8 = 0x8C;

    pub fn new(
        preamble_length: u16,
        header_type: HeaderType,
        payload_length: u8,
        crc_type: bool,
        invert_iq: InvertIq,
    ) -> (r: SetPacketParams)
        ensures
            r.tx_buf@ == seq![Self::OPCODE] + be16(preamble_length) + seq![
                header_type.bits(),
                payload_length,
                if crc_type { 1u8 } else { 0u8 },
                invert_iq.bits(),
            ],
            r.tx_buf[0] == Self::OPCODE,
            r.rx_buf@ == zeros(7),
    {
        let p = u16_to_be(preamble_length);
        let crc: u8 = if crc_type { 1 } else { 0 };
        let r = SetPacketParams {
            tx_buf: [
                Self::OPCODE,
                p[0],
                p[1],
                header_type.bits(),
                payload_length,
                crc,
                invert_iq.bits(),
            ],
            rx_buf: [0; 7],
        };
        assert(r.tx_buf@ =~= seq![Self::OPCODE] + be16(preamble_length) + seq![
            header_type.bits(),
            payload_length,
            crc,
            invert_iq.bits(),
        ]);
        assert(r.rx_buf@ =~= zeros(7));
        r
    }

    /// The descriptor of the whole exchange over this command's buffers.
    pub fn descriptor(&mut self) -> (d: SpiDescriptor<'_>)
        ensures
            d.wf(),
            d.tx_buf@ == old(self).tx_buf@,
            d.rx_buf@ == old(self).rx_buf@,
            d.transfer_length == old(self).rx_buf@.len(),
            final(self).tx_buf == old(self).tx_buf,
            final(self).rx_buf@ == final(d.rx_buf)@,
    {
        describe(&self.tx_buf, &mut self.rx_buf, 7)
    }
}

/// Sets where transmitted and received payloads start in the device's data
/// buffer.
pub struct SetBufferBaseAddress {
    pub tx_buf: [u8; 3],
    pub rx_buf: [u8; 3],
}

impl SetBufferBaseAddress {
    pub const OPCODE: u8 = 0x8F;

    pub fn new(tx_base_address: u8, rx_base_address: u8) -> (r: SetBufferBaseAddress)
        ensures
            r.tx_buf@ == seq![Self::OPCODE, tx_base_address, rx_base_address],
            r.tx_buf[0] == Self::OPCODE,
            r.rx_buf@ == zeros(3),
    {
        let tx_buf = [Self::OPCODE, tx_base_address, rx_base_address];
        let r = SetBufferBaseAddress { tx_buf, rx_buf: [0; 3] };
        assert(r.tx_buf@ =~= seq![Self::OPCODE, tx_base_address, rx_base_address]);
        assert(r.rx_buf@ =~= zeros(3));
        r
    }

    /// The descriptor of the whole exchange over this command's buffers.
    pub fn descriptor(&mut self) -> (d: SpiDescriptor<'_>)
        ensures
            d.wf(),
            d.tx_buf@ == old(self).tx_buf@,
            d.rx_buf@ == old(self).rx_buf@,
            d.transfer_length == old(self).rx_buf@.len(),
            final(self).tx_buf == old(self).tx_buf,
            final(self).rx_buf@ == final(d.rx_buf)@,
    {
        describe(&self.tx_buf, &mut self.rx_buf, 3)
    }
}

/// Sets the number of symbols the modem waits for to validate a
/// reception.
pub struct SetLoraSymbNumTimeout {
    pub tx_buf: [u8; 2],
    pub rx_buf: [u8; 2],
}

impl SetLoraSymbNumTimeout {
    pub const OPCODE: u8 = 0xA0;

    pub fn new(symb_num: u8) -> (r: SetLoraSymbNumTimeout)
        ensures
            r.tx_buf@ == seq![Self::OPCODE, symb_num],
            r.tx_buf[0] == Self::OPCODE,
            r.rx_buf@ == zeros(2),
    {
        let tx_buf = [Self::OPCODE, symb_num];
        let r = SetLoraSymbNumTimeout { tx_buf, rx_buf: [0; 2] };
        assert(r.tx_buf@ =~= seq![Self::OPCODE, symb_num]);
        assert(r.rx_buf@ =~= zeros(2));
        r
    }

    /// The descriptor of the whole exchange over this command's buffers.
    pub fn descriptor(&mut self) -> (d: SpiDescriptor<'_>)
        ensures
            d.wf(),
            d.tx_buf@ == old(self).tx_buf@,
            d.rx_buf@ == old(self).rx_buf@,
            d.transfer_length == old(self).rx_buf@.len(),
            final(self).tx_buf == old(self).tx_buf,
            final(self).rx_buf@ == final(d.rx_buf)@,
    {
        describe(&self.tx_buf, &mut self.rx_buf, 2)
    }
}

/// Reads the status byte, which arrives in byte 1 of the reply.
pub struct GetStatus {
    pub tx_buf: [u8; 2],
    pub rx_buf: [u8; 2],
}

impl GetStatus {
    pub const OPCODE: u8 = 0xC0;

    pub fn new() -> (r: GetStatus)
        ensures
            r.tx_buf@ == seq![Self::OPCODE] + zeros(1),
            r.tx_buf[0] == Self::OPCODE,
            r.rx_buf@ == zeros(2),
    {
        let tx_buf = [Self::OPCODE, 0];
        let r = GetStatus { tx_buf, rx_buf: [0; 2] };
        assert(r.tx_buf@ =~= seq![Self::OPCODE] + zeros(1));
        assert(r.rx_buf@ =~= zeros(2));
        r
    }

    /// The descriptor of the whole exchange over this command's buffers.
    pub fn descriptor(&mut self) -> (d: SpiDescriptor<'_>)
        ensures
            d.wf(),
            d.tx_buf@ == old(self).tx_buf@,
            d.rx_buf@ == old(self).rx_buf@,
            d.transfer_length == old(self).rx_buf@.len(),
            final(self).tx_buf == old(self).tx_buf,
            final(self).rx_buf@ == final(d.rx_buf)@,
    {
        describe(&self.tx_buf, &mut self.rx_buf, 2)
    }

    /// The operating mode, from bits 6 to 4 of the status byte.
    pub fn chip_mode(&self) -> (r: StatusChipMode)
        ensures
            r.spec_bits() == (self.rx_buf[1] >> 4) & 0x07,
    {
        StatusChipMode::extract(self.rx_buf[1])
    }

    /// The outcome of the last command, from bits 2 and 1 of the status
    /// byte (see `StatusCommandStatus::extract`).
    pub fn command_status(&self) -> (r: StatusCommandStatus)
        ensures
            r.spec_bits() == (self.rx_buf[1] >> 1) & 0x03,
    {
        StatusCommandStatus::extract(self.rx_buf[1])
    }
}

/// Reads the length of the last received payload and where it starts in
/// the data buffer.
pub struct GetRxBufferStatus {
    pub tx_buf: [u8; 4],
    pub rx_buf: [u8; 4],
}

impl GetRxBufferStatus {
    pub const OPCODE: u8 = 0x13;

    pub fn new() -> (r: GetRxBufferStatus)
        ensures
            r.tx_buf@ == seq![Self::OPCODE] + zeros(3),
            r.tx_buf[0] == Self::OPCODE,
            r.rx_buf@ == zeros(4),
    {
        let tx_buf = [Self::OPCODE, 0, 0, 0];
        let r = GetRxBufferStatus { tx_buf, rx_buf: [0; 4] };
        assert(r.tx_buf@ =~= seq![Self::OPCODE] + zeros(3));
        assert(r.rx_buf@ =~= zeros(4));
        r
    }

    /// The descriptor of the whole exchange over this command's buffers.
    pub fn descriptor(&mut self) -> (d: SpiDescriptor<'_>)
        ensures
            d.wf(),
            d.tx_buf@ == old(self).tx_buf@,
            d.rx_buf@ == old(self).rx_buf@,
            d.transfer_length == old(self).rx_buf@.len(),
            final(self).tx_buf == old(self).tx_buf,
            final(self).rx_buf@ == final(d.rx_buf)@,
    {
        describe(&self.tx_buf, &mut self.rx_buf, 4)
    }

    /// The length of the last received payload, byte 2 of the reply.
    pub fn payload_length_rx(&self) -> (r: u8)
        ensures
            r == self.rx_buf[2],
    {
        self.rx_buf[2]
    }

    /// The offset of the last received payload, byte 3 of the reply.
    pub fn rx_start_buffer_pointer(&self) -> (r: u8)
        ensures
            r == self.rx_buf[3],
    {
        self.rx_buf[3]
    }
}

/// A power reading reported as twice its magnitude below 0 dBm: the byte is
/// halved as an unsigned number, then negated.
pub open spec fn negated_half(raw: u8) -> int {
    -(raw / 2)
}

/// The byte read as a two's complement number.
pub open spec fn signed_byte(raw: u8) -> int {
    if raw < 0x80 {
        raw as int
    } else {
        raw - 0x100
    }
}

/// The quotient of `x` by a positive `d`, rounded toward zero.
pub open spec fn div_toward_zero(x: int, d: int) -> int {
    if x >= 0 {
        x / d
    } else {
        -((-x) / d)
    }
}

fn decode_negated_half(raw: u8) -> (r: i8)
    ensures
        r == negated_half(raw),
{
    let half: u8 = raw / 2;
    let h: i8 = half as i8;
    -h
}

/// Reads the signal quality of the last LoRa packet: bytes 2 to 4 of the
/// reply hold the packet RSSI, the SNR and the signal RSSI.
///
/// The two RSSI bytes hold minus twice the value in dBm and are halved as
/// unsigned numbers; the SNR byte holds four times the value in dB as a
/// signed number and is divided as one, rounding toward zero.
pub struct GetPacketStatusLora {
    pub tx_buf: [u8; 5],
    pub rx_buf: [u8; 5],
}

impl GetPacketStatusLora {
    pub const OPCODE: u8 = 0x14;

    pub fn new() -> (r: GetPacketStatusLora)
        ensures
            r.tx_buf@ == seq![Self::OPCODE] + zeros(4),
            r.tx_buf[0] == Self::OPCODE,
            r.rx_buf@ == zeros(5),
    {
        let tx_buf = [Self::OPCODE, 0, 0, 0, 0];
        let r = GetPacketStatusLora { tx_buf, rx_buf: [0; 5] };
        assert(r.tx_buf@ =~= seq![Self::OPCODE] + zeros(4));
        assert(r.rx_buf@ =~= zeros(5));
        r
    }

    /// The descriptor of the whole exchange over this command's buffers.
    pub fn descriptor(&mut self) -> (d: SpiDescriptor<'_>)
        ensures
            d.wf(),
            d.tx_buf@ == old(self).tx_buf@,
            d.rx_buf@ == old(self).rx_buf@,
            d.transfer_length == old(self).rx_buf@.len(),
            final(self).tx_buf == old(self).tx_buf,
            final(self).rx_buf@ == final(d.rx_buf)@,
    {
        describe(&self.tx_buf, &mut self.rx_buf, 5)
    }

    /// Average RSSI of the last packet, in dBm.
    pub fn rssi_pkt(&self) -> (r: i8)
        ensures
            r == negated_half(self.rx_buf[2]),
    {
        decode_negated_half(self.rx_buf[2])
    }

    /// SNR of the last packet, in dB.
    pub fn snr_pkt(&self) -> (r: i8)
        ensures
            r == div_toward_zero(signed_byte(self.rx_buf[3]), 4),
    {
        let raw: u8 = self.rx_buf[3];
        let s: i8 = raw as i8;
        assert(s == signed_byte(raw)) by (bit_vector)
            requires
                s == raw as i8,
        ;
        s / 4
    }

    /// RSSI of the despread LoRa signal of the last packet, in dBm.
    pub fn signal_rssi_pkt(&self) -> (r: i8)
        ensures
            r == negated_half(self.rx_buf[4]),
    {
        decode_negated_half(self.rx_buf[4])
    }
}

/// Reads the packet counters: packets received, packets with a CRC error
/// and packets with a header error, each 16 bits, most significant first.
pub struct GetStatsLora {
    pub tx_buf: [u8; 8],
    pub rx_buf: [u8; 8],
}

impl GetStatsLora {
    pub const OPCODE: u8 = 0x10;

    pub fn new() -> (r: GetStatsLora)
        ensures
            r.tx_buf@ == seq![Self::OPCODE] + zeros(7),
            r.tx_buf[0] == Self::OPCODE,
            r.rx_buf@ == zeros(8),
    {
        let tx_buf = [Self::OPCODE, 0, 0, 0, 0, 0, 0, 0];
        let r = GetStatsLora { tx_buf, rx_buf: [0; 8] };
        assert(r.tx_buf@ =~= seq![Self::OPCODE] + zeros(7));
        assert(r.rx_buf@ =~= zeros(8));
        r
    }

    /// The descriptor of the whole exchange over this command's buffers.
    pub fn descriptor(&mut self) -> (d: SpiDescriptor<'_>)
        ensures
            d.wf(),
            d.tx_buf@ == old(self).tx_buf@,
            d.rx_buf@ == old(self).rx_buf@,
            d.transfer_length == old(self).rx_buf@.len(),
            final(self).tx_buf == old(self).tx_buf,
            final(self).rx_buf@ == final(d.rx_buf)@,
    {
        describe(&self.tx_buf, &mut self.rx_buf, 8)
    }

    /// Packets received, from bytes 2 and 3 of the reply.
    pub fn nb_pkt_received(&self) -> (r: u16)
        ensures
            r == from_be16(self.rx_buf[2], self.rx_buf[3]),
    {
        u16_from_be(self.rx_buf[2], self.rx_buf[3])
    }

    /// Packets with a CRC error, from bytes 4 and 5 of the reply.
    pub fn nb_pkt_crc_error(&self) -> (r: u16)
        ensures
            r == from_be16(self.rx_buf[4], self.rx_buf[5]),
    {
        u16_from_be(self.rx_buf[4], self.rx_buf[5])
    }

    /// Packets with a header error, from bytes 6 and 7 of the reply.
    pub fn nb_pkt_header_err(&self) -> (r: u16)
        ensures
            r == from_be16(self.rx_buf[6], self.rx_buf[7]),
    {
        u16_from_be(self.rx_buf[6], self.rx_buf[7])
    }
}

/// Resets the packet counters.
pub struct ResetStats {
    pub tx_buf: [u8; 7],
    pub rx_buf: [u8; 7],
}

impl ResetStats {
    pub const OPCODE: u8 = 0x00;

    pub fn new() -> (r: ResetStats)
        ensures
            r.tx_buf@ == seq![Self::OPCODE] + zeros(6),
            r.tx_buf[0] == Self::OPCODE,
            r.rx_buf@ == zeros(7),
    {
        let tx_buf = [Self::OPCODE, 0, 0, 0, 0, 0, 0];
        let r = ResetStats { tx_buf, rx_buf: [0; 7] };
        assert(r.tx_buf@ =~= seq![Self::OPCODE] + zeros(6));
        assert(r.rx_buf@ =~= zeros(7));
        r
    }

    /// The descriptor of the whole exchange over this command's buffers.
    pub fn descriptor(&mut self) -> (d: SpiDescriptor<'_>)
        ensures
            d.wf(),
            d.tx_buf@ == old(self).tx_buf@,
            d.rx_buf@ == old(self).rx_buf@,
            d.transfer_length == old(self).rx_buf@.len(),
            final(self).tx_buf == old(self).tx_buf,
            final(self).rx_buf@ == final(d.rx_buf)@,
    {
        describe(&self.tx_buf, &mut self.rx_buf, 7)
    }
}

/// Reads the error flags; they arrive in bytes 2 and 3 of the reply, most
/// significant first.
pub struct GetDeviceErrors {
    pub tx_buf: [u8; 4],
    pub rx_buf: [u8; 4],
}

impl GetDeviceErrors {
    pub const OPCODE: u8 = 0x17;

    pub fn new() -> (r: GetDeviceErrors)
        ensures
            r.tx_buf@ == seq![Self::OPCODE] + zeros(3),
            r.tx_buf[0] == Self::OPCODE,
            r.rx_buf@ == zeros(4),
    {
        let tx_buf = [Self::OPCODE, 0, 0, 0];
        let r = GetDeviceErrors { tx_buf, rx_buf: [0; 4] };
        assert(r.tx_buf@ =~= seq![Self::OPCODE] + zeros(3));
        assert(r.rx_buf@ =~= zeros(4));
        r
    }

    /// The descriptor of the whole exchange over this command's buffers.
    pub fn descriptor(&mut self) -> (d: SpiDescriptor<'_>)
        ensures
            d.wf(),
            d.tx_buf@ == old(self).tx_buf@,
            d.rx_buf@ == old(self).rx_buf@,
            d.transfer_length == old(self).rx_buf@.len(),
            final(self).tx_buf == old(self).tx_buf,
            final(self).rx_buf@ == final(d.rx_buf)@,
    {
        describe(&self.tx_buf, &mut self.rx_buf, 4)
    }

    /// The error flags of the reply.
    pub fn op_error(&self) -> (r: OpError)
        ensures
            r == OpError::spec_from_bits(from_be16(self.rx_buf[2], self.rx_buf[3])),
    {
        OpError::from_bits(u16_from_be(self.rx_buf[2], self.rx_buf[3]))
    }
}

/// Clears the error flags.
pub struct ClearDeviceErrors {
    pub tx_buf: [u8; 3],
    pub rx_buf: [u8; 3],
}

impl ClearDeviceErrors {
    pub const OPCODE: u8 = 0x07;

    pub fn new() -> (r: ClearDeviceErrors)
        ensures
            r.tx_buf@ == seq![Self::OPCODE] + zeros(2),
            r.tx_buf[0] == Self::OPCODE,
            r.rx_buf@ == zeros(3),
    {
        let tx_buf = [Self::OPCODE, 0, 0];
        let r = ClearDeviceErrors { tx_buf, rx_buf: [0; 3] };
        assert(r.tx_buf@ =~= seq![Self::OPCODE] + zeros(2));
        assert(r.rx_buf@ =~= zeros(3));
        r
    }

    /// The descriptor of the whole exchange over this command's buffers.
    pub fn descriptor(&mut self) -> (d: SpiDescriptor<'_>)
        ensures
            d.wf(),
            d.tx_buf@ == old(self).tx_buf@,
            d.rx_buf@ == old(self).rx_buf@,
            d.transfer_length == old(self).rx_buf@.len(),
            final(self).tx_buf == old(self).tx_buf,
            final(self).rx_buf@ == final(d.rx_buf)@,
    {
        describe(&self.tx_buf, &mut self.rx_buf, 3)
    }
}

} // verus!
