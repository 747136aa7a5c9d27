use sx126x_spi_buffers::commands::{ReadRegisters, WriteRegister, WriteRegisters};
use sx126x_spi_buffers::registers::{
    LoraSyncWordMsb, RandomNumberGen0, RxGain, RxGainRetention0, RxGainRetention1, RxGainSetting,
};

#[test]
fn test_write_lora_sync_word() {
    let write_registers: WriteRegisters<5> =
        WriteRegisters::<5>::new::<LoraSyncWordMsb>(&[0x64, 0x54]);
    assert_eq!(write_registers.tx_buf, [0x0D, 0x07, 0x40, 0x64, 0x54]);
}

#[test]
fn test_random_number_gen() {
    let read_registers: ReadRegisters<8> = ReadRegisters::<8>::new::<RandomNumberGen0>();
    assert_eq!(read_registers.tx_buf, [0x1D, 0x08, 0x19, 0, 0, 0, 0, 0]);
}

#[test]
fn test_write_rx_gain() {
    let write_register: WriteRegister = WriteRegister::new(RxGain(RxGainSetting::Boosted));
    assert_eq!(write_register.tx_buf, [0x0D, 0x08, 0xAC, 0x96]);
}

#[test]
fn test_write_rx_gain_retention_0() {
    let write_register: WriteRegister = WriteRegister::new(RxGainRetention0(0x01));
    assert_eq!(write_register.tx_buf, [0x0D, 0x02, 0x9F, 0x01]);
}

#[test]
fn test_write_rx_gain_retention_1_2() {
    let write_registers: WriteRegisters<5> =
        WriteRegisters::<5>::new::<RxGainRetention1>(&[0x08, 0xAC]);
    assert_eq!(write_registers.tx_buf, [0x0D, 0x02, 0xA0, 0x08, 0xAC]);
}
