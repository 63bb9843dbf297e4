use escrow::error::EscrowError;
use escrow::instruction::EscrowInstruction;

#[test]
fn decodes_init_escrow() {
    let buf: Vec<u8> = vec![0x00, 0x64, 0, 0, 0, 0, 0, 0, 0];
    assert_eq!(
        EscrowInstruction::unpack(&buf),
        Ok(EscrowInstruction::InitEscrow { amount: 100 })
    );
}

#[test]
fn decodes_exchange() {
    let buf: Vec<u8> = vec![0x01, 0xE8, 0x03, 0, 0, 0, 0, 0, 0];
    assert_eq!(
        EscrowInstruction::unpack(&buf),
        Ok(EscrowInstruction::Exchange { amount: 1000 })
    );
}

#[test]
fn rejects_empty_buffer() {
    let buf: Vec<u8> = vec![];
    assert_eq!(
        EscrowInstruction::unpack(&buf),
        Err(EscrowError::InvalidInstruction)
    );
}

#[test]
fn rejects_truncated_amount() {
    let buf: Vec<u8> = vec![0x00, 0x01, 0x02];
    assert_eq!(
        EscrowInstruction::unpack(&buf),
        Err(EscrowError::InvalidInstruction)
    );
}

#[test]
fn rejects_unknown_tag() {
    let buf: Vec<u8> = vec![0x02, 0, 0, 0, 0, 0, 0, 0, 0];
    assert_eq!(
        EscrowInstruction::unpack(&buf),
        Err(EscrowError::InvalidInstruction)
    );
}

#[test]
fn decodes_max_amount_without_overflow() {
    let buf: Vec<u8> = vec![0x01, 0xFF, 0xFF, 0xFF, 0xFF, 0xFF, 0xFF, 0xFF, 0xFF];
    assert_eq!(
        EscrowInstruction::unpack(&buf),
        Ok(EscrowInstruction::Exchange {
            amount: 18446744073709551615
        })
    );
}

#[test]
fn decodes_zero_amount() {
    let buf: Vec<u8> = vec![0x00, 0, 0, 0, 0, 0, 0, 0, 0];
    assert_eq!(
        EscrowInstruction::unpack(&buf),
        Ok(EscrowInstruction::InitEscrow { amount: 0 })
    );
}

#[test]
fn amount_is_little_endian() {
    let buf: Vec<u8> = vec![0x00, 0x01, 0x02, 0x03, 0x04, 0x05, 0x06, 0x07, 0x08];
    assert_eq!(
        EscrowInstruction::unpack(&buf),
        Ok(EscrowInstruction::InitEscrow {
            amount: 0x0807060504030201
        })
    );
}

#[test]
fn rejects_every_truncated_length() {
    let buf: Vec<u8> = vec![0x01, 0x11, 0x22, 0x33, 0x44, 0x55, 0x66, 0x77];
    for len in 1..=8usize {
        assert_eq!(
            EscrowInstruction::unpack(&buf[..len]),
            Err(EscrowError::InvalidInstruction)
        );
    }
}

#[test]
fn rejects_unknown_tag_regardless_of_rest() {
    let mut buf: Vec<u8> = vec![0xFF];
    buf.extend_from_slice(&[0x01; 40]);
    assert_eq!(
        EscrowInstruction::unpack(&buf),
        Err(EscrowError::InvalidInstruction)
    );
    let short: Vec<u8> = vec![0x02];
    assert_eq!(
        EscrowInstruction::unpack(&short),
        Err(EscrowError::InvalidInstruction)
    );
}

#[test]
fn trailing_bytes_are_ignored() {
    let base: Vec<u8> = vec![0x01, 0xE8, 0x03, 0, 0, 0, 0, 0, 0];
    let mut padded = base.clone();
    padded.extend_from_slice(&[0xAA, 0xBB, 0xCC, 0xDD]);
    assert_eq!(
        EscrowInstruction::unpack(&padded),
        EscrowInstruction::unpack(&base)
    );
    assert_eq!(
        EscrowInstruction::unpack(&padded),
        Ok(EscrowInstruction::Exchange { amount: 1000 })
    );
}
