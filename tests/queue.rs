use sx126x_spi_buffers::bitfields::SleepConfig;
use sx126x_spi_buffers::commands::{SetSleep, SetStandby, StdbyConfig, WriteBuffer};

#[test]
fn test_queue() {
    let mut set_sleep_bufs = SetSleep::new(SleepConfig::new().with_warm_start(true));
    let mut set_standby_bufs = SetStandby::new(StdbyConfig::StdbyRc);
    let mut write_buffer_bufs: WriteBuffer<7> = WriteBuffer::new(0, [2, 4, 7, 9, 3]);

    let queue = [
        set_sleep_bufs.descriptor(),
        set_standby_bufs.descriptor(),
        write_buffer_bufs.descriptor(),
    ];
    let mut pending = queue.iter();

    let mut desc = pending.next().unwrap();
    let mut tx_buf = &desc.tx_buf[..desc.transfer_length as usize];
    assert_eq!(tx_buf, [0x84, 1 << 2]);

    desc = pending.next().unwrap();
    tx_buf = &desc.tx_buf[..desc.transfer_length as usize];
    assert_eq!(tx_buf, [0x80, 0]);

    desc = pending.next().unwrap();
    tx_buf = &desc.tx_buf[..desc.transfer_length as usize];
    assert_eq!(tx_buf, [0x0E, 0, 2, 4, 7, 9, 3]);
}
