use sx126x_spi_buffers::bitfields::{Irq, OpError, SleepConfig};
use sx126x_spi_buffers::commands::{
    ClearDeviceErrors, ClearIrqStatus, GetDeviceErrors, GetIrqStatus, GetPacketStatusLora,
    GetPacketType, GetRxBufferStatus, GetStatsLora, GetStatus, ReadBuffer, ReadRegister,
    ReadRegisters, ResetStats, SetDio3AsTcxoCtrl, SetDioIrqParams, SetLoraSymbNumTimeout,
    SetModulationParamsLora, SetPacketParams, SetRfFrequency, SetRx, SetSleep, SetStandby, SetTx,
    WriteBuffer, WriteRegister, WriteRegisters,
};
use sx126x_spi_buffers::params::{
    Bw, Cr, HeaderType, InvertIq, PacketType, RampTime, Sf, StatusChipMode, StatusCommandStatus,
    StdbyConfig, TcxoVoltage,
};
use sx126x_spi_buffers::registers::{
    LoraSyncWordLsb, LoraSyncWordMsb, RandomNumberGen0, Register, RxGain, RxGainSetting,
};

#[test]
fn set_sleep_warm_start() {
    let mut c = SetSleep::new(SleepConfig::new().with_warm_start(true));
    assert_eq!(c.tx_buf, [0x84, 0x04]);
    assert_eq!(c.rx_buf, [0, 0]);
    assert_eq!(c.descriptor().transfer_length, 2);
}

#[test]
fn set_sleep_cold_start() {
    let c = SetSleep::new(SleepConfig::new());
    assert_eq!(c.tx_buf, [0x84, 0x00]);
}

#[test]
fn set_standby_xosc() {
    let mut c = SetStandby::new(StdbyConfig::StdbyXosc);
    assert_eq!(c.tx_buf, [0x80, 1]);
    assert_eq!(c.descriptor().transfer_length, 2);
}

#[test]
fn set_tx_timeout_bytes() {
    let mut c = SetTx::new(6862921);
    assert_eq!(c.tx_buf, [0x83, 104, 184, 73]);
    assert_eq!(c.rx_buf, [0; 4]);
    assert_eq!(c.descriptor().transfer_length, 4);
}

#[test]
fn set_tx_timeout_drops_top_byte() {
    let c = SetTx::new(0xFF12_3456);
    assert_eq!(c.tx_buf, [0x83, 0x12, 0x34, 0x56]);
}

#[test]
fn set_rx_timeout_bytes() {
    let mut c = SetRx::new(120);
    assert_eq!(c.tx_buf, [0x82, 0, 0, 120]);
    assert_eq!(c.descriptor().transfer_length, 4);
}

#[test]
fn set_rf_frequency_all_bytes() {
    let c = SetRfFrequency::new(0x1234_5678);
    assert_eq!(c.tx_buf, [0x86, 0x12, 0x34, 0x56, 0x78]);
}

#[test]
fn set_dio3_as_tcxo_ctrl_bytes() {
    let mut c = SetDio3AsTcxoCtrl::new(TcxoVoltage::V3_3, 3500);
    assert_eq!(c.tx_buf, [0x97, 7, 0, 13, 172]);
    assert_eq!(c.rx_buf, [0; 5]);
    assert_eq!(c.descriptor().transfer_length, 5);
}

#[test]
fn set_dio_irq_params_masks() {
    let mut c = SetDioIrqParams::new(
        Irq::new().with_tx_done(true),
        Irq::new().with_rx_done(true),
        Irq::new().with_timeout(true),
        Irq::new(),
    );
    assert_eq!(c.tx_buf, [0x08, 0, 1, 0, 2, 2, 0, 0, 0]);
    assert_eq!(c.descriptor().transfer_length, 9);
}

#[test]
fn set_dio_irq_params_high_flags() {
    let c = SetDioIrqParams::new(
        Irq::new().with_lr_fhss_hop(true).with_cad_detected(true),
        Irq::new(),
        Irq::new(),
        Irq::new().with_crc_err(true),
    );
    assert_eq!(c.tx_buf, [0x08, 0x41, 0x00, 0, 0, 0, 0, 0, 0x40]);
}

#[test]
fn clear_irq_status_bytes() {
    let mut c = ClearIrqStatus::new(Irq::new().with_header_valid(true).with_timeout(true));
    assert_eq!(c.tx_buf, [0x02, 2, 16]);
    assert_eq!(c.descriptor().transfer_length, 3);
}

#[test]
fn get_irq_status_decodes_reply() {
    let mut c = GetIrqStatus::new();
    assert_eq!(c.tx_buf, [0x12, 0, 0, 0]);
    assert_eq!(c.descriptor().transfer_length, 4);
    c.rx_buf[3] = 0x03;
    assert_eq!(
        c.irq_status(),
        Irq::new().with_tx_done(true).with_rx_done(true).with_timeout(false)
    );
    c.rx_buf[2] = 0x42;
    c.rx_buf[3] = 0x00;
    assert_eq!(c.irq_status(), Irq::new().with_timeout(true).with_lr_fhss_hop(true));
}

#[test]
fn get_packet_type_decodes_reply() {
    let mut c = GetPacketType::new();
    assert_eq!(c.tx_buf, [0x11, 0, 0]);
    assert_eq!(c.descriptor().transfer_length, 3);
    assert_eq!(c.packet_type(), PacketType::Gfsk);
    c.rx_buf[2] = 0x01;
    assert_eq!(c.packet_type(), PacketType::Lora);
    c.rx_buf[2] = 0xFE;
    assert_eq!(c.packet_type(), PacketType::Reserved);
}

#[test]
fn set_modulation_params_all_fields() {
    let c = SetModulationParamsLora::new(Sf::Sf12, Bw::Bw500, Cr::Cr4_8Li, true);
    assert_eq!(c.tx_buf, [0x8B, 0x0C, 0x06, 0x07, 1]);
}

#[test]
fn set_packet_params_fields() {
    let mut c = SetPacketParams::new(8, HeaderType::VariableLength, 14, false, InvertIq::Standard);
    assert_eq!(c.tx_buf, [0x8C, 0, 8, 0, 14, 0, 0]);
    assert_eq!(c.descriptor().transfer_length, 7);
    let c = SetPacketParams::new(0x0102, HeaderType::FixedLength, 255, true, InvertIq::Inverted);
    assert_eq!(c.tx_buf, [0x8C, 1, 2, 1, 255, 1, 1]);
}

#[test]
fn set_lora_symb_num_timeout_bytes() {
    let mut c = SetLoraSymbNumTimeout::new(5);
    assert_eq!(c.tx_buf, [0xA0, 5]);
    assert_eq!(c.descriptor().transfer_length, 2);
}

#[test]
fn get_status_decodes_reply() {
    let mut c = GetStatus::new();
    assert_eq!(c.tx_buf, [0xC0, 0]);
    assert_eq!(c.descriptor().transfer_length, 2);
    c.rx_buf[1] = 0x64;
    assert_eq!(c.chip_mode(), StatusChipMode::Tx);
    assert_eq!(c.command_status(), StatusCommandStatus::DataIsAvailableToHost);
    c.rx_buf[1] = 0b0010_1010;
    assert_eq!(c.chip_mode(), StatusChipMode::StbyRc);
    assert_eq!(c.command_status(), StatusCommandStatus::Reserved2);
    c.rx_buf[1] = 0b0010_0110;
    assert_eq!(c.command_status(), StatusCommandStatus::CommandTimeout);
}

#[test]
fn get_rx_buffer_status_decodes_reply() {
    let mut c = GetRxBufferStatus::new();
    assert_eq!(c.tx_buf, [0x13, 0, 0, 0]);
    assert_eq!(c.descriptor().transfer_length, 4);
    c.rx_buf[2] = 16;
    c.rx_buf[3] = 8;
    assert_eq!(c.payload_length_rx(), 16);
    assert_eq!(c.rx_start_buffer_pointer(), 8);
}

#[test]
fn get_packet_status_lora_decodes_reply() {
    let mut c = GetPacketStatusLora::new();
    assert_eq!(c.tx_buf, [0x14, 0, 0, 0, 0]);
    assert_eq!(c.descriptor().transfer_length, 5);
    c.rx_buf[2] = 184;
    c.rx_buf[3] = 0b1111_1100;
    c.rx_buf[4] = 162;
    assert_eq!(c.rssi_pkt(), -92);
    assert_eq!(c.snr_pkt(), -1);
    assert_eq!(c.signal_rssi_pkt(), -81);
}

#[test]
fn packet_rssi_halves_before_negating() {
    let mut c = GetPacketStatusLora::new();
    c.rx_buf[2] = 255;
    c.rx_buf[4] = 1;
    assert_eq!(c.rssi_pkt(), -127);
    assert_eq!(c.signal_rssi_pkt(), 0);
}

#[test]
fn packet_snr_rounds_toward_zero() {
    let mut c = GetPacketStatusLora::new();
    c.rx_buf[3] = 251;
    assert_eq!(c.snr_pkt(), -1);
    c.rx_buf[3] = 0x80;
    assert_eq!(c.snr_pkt(), -32);
    c.rx_buf[3] = 41;
    assert_eq!(c.snr_pkt(), 10);
}

#[test]
fn get_stats_lora_decodes_reply() {
    let mut c = GetStatsLora::new();
    assert_eq!(c.tx_buf, [0x10, 0, 0, 0, 0, 0, 0, 0]);
    assert_eq!(c.descriptor().transfer_length, 8);
    c.rx_buf[2] = 0x51;
    c.rx_buf[3] = 0x18;
    c.rx_buf[4] = 0x03;
    c.rx_buf[5] = 0x15;
    c.rx_buf[6] = 0x55;
    c.rx_buf[7] = 0x81;
    assert_eq!(c.nb_pkt_received(), 0x5118);
    assert_eq!(c.nb_pkt_crc_error(), 0x0315);
    assert_eq!(c.nb_pkt_header_err(), 0x5581);
}

#[test]
fn reset_stats_bytes() {
    let mut c = ResetStats::new();
    assert_eq!(c.tx_buf, [0x00, 0, 0, 0, 0, 0, 0]);
    assert_eq!(c.descriptor().transfer_length, 7);
}

#[test]
fn get_device_errors_decodes_reply() {
    let mut c = GetDeviceErrors::new();
    assert_eq!(c.tx_buf, [0x17, 0, 0, 0]);
    assert_eq!(c.descriptor().transfer_length, 4);
    c.rx_buf[2] = 0x01;
    c.rx_buf[3] = 0x58;
    assert_eq!(
        c.op_error(),
        OpError::new()
            .with_pa_ramp_err(true)
            .with_pll_lock_err(true)
            .with_img_calib_err(true)
            .with_adc_calib_err(true)
            .with_xosc_start_err(false)
    );
}

#[test]
fn clear_device_errors_bytes() {
    let mut c = ClearDeviceErrors::new();
    assert_eq!(c.tx_buf, [0x07, 0, 0]);
    assert_eq!(c.descriptor().transfer_length, 3);
}

#[test]
fn read_register_round_trip_through_descriptor() {
    let mut c: ReadRegister<LoraSyncWordLsb> = ReadRegister::new();
    assert_eq!(c.tx_buf, [0x1D, 0x07, 0x41, 0x00, 0x00]);
    assert_eq!(c.rx_buf, [0; 5]);
    let d = c.descriptor();
    assert_eq!(d.transfer_length, 5);
    d.rx_buf[4] = 0x86;
    assert_eq!(c.register(), LoraSyncWordLsb(0x86));
}

#[test]
fn read_rx_gain_register() {
    let mut c: ReadRegister<RxGain> = ReadRegister::new();
    assert_eq!(c.tx_buf, [0x1D, 0x08, 0xAC, 0, 0]);
    c.rx_buf[4] = 0x94;
    assert_eq!(c.register(), RxGain(RxGainSetting::PowerSaving));
    c.rx_buf[4] = 0x95;
    assert_eq!(c.register(), RxGain(RxGainSetting::Unknown));
}

#[test]
fn write_register_example() {
    let mut c = WriteRegister::new(LoraSyncWordMsb(0x48));
    assert_eq!(c.tx_buf, [0x0D, 0x07, 0x40, 0x48]);
    assert_eq!(c.descriptor().transfer_length, 4);
}

#[test]
fn write_registers_batch() {
    let mut c: WriteRegisters<5> = WriteRegisters::new::<LoraSyncWordMsb>(&[0x67, 0x98]);
    assert_eq!(c.tx_buf, [0x0D, 0x07, 0x40, 0x67, 0x98]);
    assert_eq!(c.descriptor().transfer_length, 5);
}

#[test]
fn read_registers_batch() {
    let mut c: ReadRegisters<6> = ReadRegisters::new::<LoraSyncWordMsb>();
    assert_eq!(c.tx_buf, [0x1D, 0x07, 0x40, 0, 0, 0]);
    let d = c.descriptor();
    assert_eq!(d.transfer_length, 6);
    d.rx_buf[4] = 0x34;
    d.rx_buf[5] = 0x44;
    assert_eq!(c.data(), &[0x34, 0x44]);
}

#[test]
fn read_registers_empty_batch() {
    let c: ReadRegisters<4> = ReadRegisters::new::<RandomNumberGen0>();
    assert_eq!(c.tx_buf, [0x1D, 0x08, 0x19, 0]);
    assert!(c.data().is_empty());
}

#[test]
fn write_buffer_shrinks_transfer() {
    let mut c: WriteBuffer<7> = WriteBuffer::new(0x10, [b'h', b'e', b'l', b'l', b'o']);
    assert_eq!(c.tx_buf, [0x0E, 0x10, b'h', b'e', b'l', b'l', b'o']);
    assert_eq!(c.rx_buf, [0; 7]);
    assert_eq!(c.descriptor().transfer_length, 7);
    c.set_data_length(3);
    assert_eq!(c.descriptor().transfer_length, 5);
    assert_eq!(c.tx_buf, [0x0E, 0x10, b'h', b'e', b'l', b'l', b'o']);
}

#[test]
fn write_buffer_queue_example() {
    let mut c: WriteBuffer<7> = WriteBuffer::new(0, [2, 4, 7, 9, 3]);
    let d = c.descriptor();
    assert_eq!(&d.tx_buf[..d.transfer_length as usize], &[0x0E, 0, 2, 4, 7, 9, 3]);
}

#[test]
fn write_buffer_empty_payload() {
    let mut c: WriteBuffer<2> = WriteBuffer::new(0xFF, []);
    assert_eq!(c.tx_buf, [0x0E, 0xFF]);
    assert_eq!(c.descriptor().transfer_length, 2);
}

#[test]
fn read_buffer_data_follows_length() {
    let mut c: ReadBuffer<8> = ReadBuffer::new(0x17);
    assert_eq!(c.tx_buf, [0x1E, 0x17, 0, 0, 0, 0, 0, 0]);
    assert_eq!(c.rx_buf, [0; 8]);
    assert_eq!(c.descriptor().transfer_length, 8);
    c.rx_buf[3..8].copy_from_slice(&[b'h', b'e', b'l', b'l', b'o']);
    assert_eq!(c.data(), &[b'h', b'e', b'l', b'l', b'o']);
    c.set_data_length(3);
    assert_eq!(c.descriptor().transfer_length, 6);
    assert_eq!(c.data(), &[b'h', b'e', b'l']);
    c.set_data_length(0);
    assert_eq!(c.descriptor().transfer_length, 3);
    assert!(c.data().is_empty());
}

#[test]
fn descriptor_buffers_are_the_commands() {
    let mut c = GetStatsLora::new();
    let d = c.descriptor();
    assert_eq!(d.tx_buf, &[0x10, 0, 0, 0, 0, 0, 0, 0]);
    assert_eq!(d.rx_buf.len(), 8);
    d.rx_buf[2] = 0x01;
    d.rx_buf[3] = 0x02;
    assert_eq!(c.nb_pkt_received(), 0x0102);
}

#[test]
fn sleep_config_round_trip() {
    for raw in 0..=255u8 {
        let c = SleepConfig::from_bits(raw);
        assert_eq!(c.warm_start, raw & 0x04 != 0);
        assert_eq!(c.into_bits(), raw & 0x04);
        assert_eq!(SleepConfig::from_bits(c.into_bits()), c);
    }
}

#[test]
fn irq_round_trip_masks_reserved() {
    assert_eq!(Irq::from_bits(0xFFFF).into_bits(), 0x43FF);
    let irq = Irq::new().with_sync_word_valid(true).with_cad_done(true).with_lr_fhss_hop(true);
    assert_eq!(irq.into_bits(), 0x4088);
    assert_eq!(Irq::from_bits(irq.into_bits()), irq);
    assert_eq!(Irq::new().into_bits(), 0);
}

#[test]
fn op_error_round_trip_masks_reserved() {
    assert_eq!(OpError::from_bits(0xFFFF).into_bits(), 0x017F);
    let e = OpError::new().with_rc64k_calib_err(true).with_pa_ramp_err(true);
    assert_eq!(e.into_bits(), 0x0101);
    assert_eq!(OpError::from_bits(e.into_bits()), e);
}

#[test]
fn register_round_trip_every_byte() {
    for v in 0..=255u8 {
        assert_eq!(LoraSyncWordMsb::from_bits(LoraSyncWordMsb(v).bits()), LoraSyncWordMsb(v));
        assert_eq!(RandomNumberGen0::from_bits(v).bits(), v);
    }
    for s in [RxGainSetting::Unknown, RxGainSetting::PowerSaving, RxGainSetting::Boosted] {
        assert_eq!(RxGain::from_bits(RxGain(s).bits()), RxGain(s));
    }
    assert_eq!(LoraSyncWordMsb::address(), 0x0740);
    assert_eq!(RxGain::address(), 0x08AC);
}

#[test]
fn enum_codes_decode_from_masked_bits() {
    assert_eq!(Sf::from(0x1A), Sf::Sf10);
    assert_eq!(Sf::from(0x0D), Sf::Reserved6);
    assert_eq!(Bw::from(0x07), Bw::Reserved0);
    assert_eq!(Bw::from(0x09), Bw::Bw20_83);
    assert_eq!(Cr::from(0xF9), Cr::Cr4_5);
    assert_eq!(RampTime::from(0x0C), RampTime::Ramp200U);
    assert_eq!(HeaderType::from(0x03), HeaderType::FixedLength);
    assert_eq!(InvertIq::from(0x02), InvertIq::Standard);
    assert_eq!(StatusChipMode::extract(0xF0), StatusChipMode::Reserved2);
    assert_eq!(StatusCommandStatus::extract(0x08), StatusCommandStatus::Reserved1);
    assert_eq!(StatusCommandStatus::extract(0x0E), StatusCommandStatus::CommandTimeout);
    assert_eq!(PacketType::LrFhss.bits(), 3);
}
