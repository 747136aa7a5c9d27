use sx126x_spi_buffers::commands::{
    Bw, Cr, HeaderType, InvertIq, Irq, PacketType, RampTime, SetBufferBaseAddress,
    SetDio2AsRfSwitchCtrl, SetDioIrqParams, SetModulationParamsLora, SetPaConfig, SetPacketParams,
    SetPacketType, SetRfFrequency, SetStandby, SetTx, SetTxParams, Sf, StdbyConfig, WriteBuffer,
    WriteRegister,
};
use sx126x_spi_buffers::registers::LoraSyncWordMsb;

#[test]
fn test_set_standby_rc() {
    let set_standby_rc = SetStandby::new(StdbyConfig::StdbyRc);
    assert_eq!(set_standby_rc.tx_buf, [0x80, 0])
}

#[test]
fn test_set_packet_type() {
    let set_packet_type = SetPacketType::new(PacketType::Lora);
    assert_eq!(set_packet_type.tx_buf, [0x8A, 0x01]);
}

#[test]
fn test_set_rf_frequency() {
    let set_rf_frequency = SetRfFrequency::new(455_081_984);
    assert_eq!(set_rf_frequency.tx_buf, [0x86, 0x1B, 0x20, 0, 0]);
}

#[test]
fn test_set_buffer_base_address() {
    let set_buffer_base_address = SetBufferBaseAddress::new(0x00, 0x80);
    assert_eq!(set_buffer_base_address.tx_buf, [0x8F, 0, 0x80]);
}

#[test]
fn test_set_mod_params() {
    let set_modulation_params_lora =
        SetModulationParamsLora::new(Sf::Sf10, Bw::Bw125, Cr::Cr4_5, false);
    assert_eq!(set_modulation_params_lora.tx_buf, [0x8B, 0x0A, 0x04, 0x01, 0]);
}

#[test]
fn test_set_packet_params() {
    let set_packet_params =
        SetPacketParams::new(8, HeaderType::VariableLength, 3, false, InvertIq::Standard);
    assert_eq!(set_packet_params.tx_buf, [0x8C, 0, 8, 0, 3, 0, 0]);
}

#[test]
fn test_set_dio_irq_params() {
    let set_dio_irq_params = SetDioIrqParams::new(
        Irq::new().with_tx_done(true).with_rx_done(true),
        Irq::new().with_tx_done(true).with_rx_done(true),
        Irq::new(),
        Irq::new(),
    );
    assert_eq!(set_dio_irq_params.tx_buf, [0x08, 0, 3, 0, 3, 0, 0, 0, 0]);
}

#[test]
fn test_write_sync_word() {
    let write_sync_word = WriteRegister::new(LoraSyncWordMsb(0x14));
    assert_eq!(write_sync_word.tx_buf, [0x0D, 0x07, 0x40, 0x14]);
}

#[test]
fn test_set_pa_config() {
    let set_pa_config = SetPaConfig::new(0x04, 0x07);
    assert_eq!(set_pa_config.tx_buf, [0x95, 0x04, 0x07, 0x00, 0x01]);
}

#[test]
fn test_set_tx_params() {
    let set_tx_params = SetTxParams::new(22, RampTime::Ramp200U);
    assert_eq!(set_tx_params.tx_buf, [0x8E, 0x16, 4]);
}

#[test]
fn test_set_dio2_rf_switch_ctrl() {
    let set_dio2_rf_switch_ctrl = SetDio2AsRfSwitchCtrl::new(true);
    assert_eq!(set_dio2_rf_switch_ctrl.tx_buf, [0x9D, 1]);
}

#[test]
fn test_write_buffer() {
    let write_buffer: WriteBuffer<5> = WriteBuffer::new(0x00, [0x00, 0x00, 0x00]);
    assert_eq!(write_buffer.tx_buf, [0x0E, 0, 0, 0, 0]);
}

#[test]
fn test_set_tx() {
    let set_tx = SetTx::new(0x00);
    assert_eq!(set_tx.tx_buf, [0x83, 0, 0, 0]);
}
