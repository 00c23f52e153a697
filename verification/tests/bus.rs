use nrf70::bus::{spi_read_header, spi_status_value, spi_write_header, spi_write_sr2_frame};

#[test]
fn read_header() {
    assert_eq!(spi_read_header(0x0C_0024), [0x0B, 0x0C, 0x00, 0x24, 0x00]);
    assert_eq!(spi_read_header(0xFF12_3456), [0x0B, 0x12, 0x34, 0x56, 0x00]);
}

#[test]
fn write_header() {
    assert_eq!(spi_write_header(0x04_8C20), [0x02, 0x84, 0x8C, 0x20]);
    assert_eq!(spi_write_header(0x00_0494), [0x02, 0x80, 0x04, 0x94]);
}

#[test]
fn status_frames() {
    assert_eq!(spi_write_sr2_frame(1), [0x3f, 1]);
    assert_eq!(spi_status_value([0xFF, 0x06]), 0x06);
}
