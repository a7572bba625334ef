use anchor_lang::solana_program::hash::hash;
use anchor_lang::{AnchorDeserialize, AnchorSerialize};
use timelockr::{decode, encode, Address, Vault, RECORD_BYTES, RECORD_TAG};

type Fields = ([u8; 32], u64, [u8; 32], i64, bool, i64, u8);

fn sample() -> Vault {
    let mut owner = [0u8; 32];
    let mut backup = [0u8; 32];
    for i in 0..32 {
        owner[i] = i as u8;
        backup[i] = 255 - i as u8;
    }
    Vault {
        owner: Address::new(owner),
        amount: 0x0102_0304_0506_0708,
        backup_adr: Address::new(backup),
        unlock_time: -2,
        recovery_enabled: true,
        recovery_req_time: 1_700_000_010,
        bump: 254,
    }
}

fn fields(vault: &Vault) -> Fields {
    (
        vault.owner.to_bytes(),
        vault.amount,
        vault.backup_adr.to_bytes(),
        vault.unlock_time,
        vault.recovery_enabled,
        vault.recovery_req_time,
        vault.bump,
    )
}

#[test]
fn a_record_has_its_length() {
    assert_eq!(RECORD_BYTES, 8 + 90);
    assert_eq!(encode(&sample()).len(), 98);
    assert_eq!(encode(&Vault::new(Address::new([0; 32]), 0, Address::new([0; 32]), 0)).len(), 98);
}

#[test]
fn the_tag_names_the_vault_account() {
    assert_eq!(RECORD_TAG, [211, 8, 232, 43, 2, 152, 117, 119]);
    assert_eq!(&RECORD_TAG[..], &hash(b"account:Vault").to_bytes()[..8]);
}

#[test]
fn a_record_lays_its_fields_out_in_order() {
    let bytes = encode(&sample());
    assert_eq!(&bytes[0..8], &RECORD_TAG[..]);
    assert_eq!(&bytes[8..40], &sample().owner.to_bytes()[..]);
    assert_eq!(&bytes[40..48], &[8u8, 7, 6, 5, 4, 3, 2, 1][..]);
    assert_eq!(&bytes[48..80], &sample().backup_adr.to_bytes()[..]);
    assert_eq!(&bytes[80..88], &[0xfeu8, 0xff, 0xff, 0xff, 0xff, 0xff, 0xff, 0xff][..]);
    assert_eq!(bytes[88], 1);
    assert_eq!(&bytes[89..97], &1_700_000_010i64.to_le_bytes()[..]);
    assert_eq!(bytes[97], 254);
}

#[test]
fn a_record_is_the_tag_and_the_fields_as_borsh_writes_them() {
    let vaults = [
        sample(),
        Vault { recovery_enabled: false, unlock_time: i64::MIN, amount: u64::MAX, ..sample() },
        Vault { recovery_req_time: i64::MAX, amount: 0, bump: 0, ..sample() },
    ];
    for vault in vaults {
        let mut expected = RECORD_TAG.to_vec();
        expected.extend(fields(&vault).try_to_vec().unwrap());
        assert_eq!(encode(&vault), expected);

        let read = Fields::try_from_slice(&encode(&vault)[8..]).unwrap();
        assert_eq!(read, fields(&vault));
    }
}

#[test]
fn what_is_encoded_is_decoded() {
    let vaults = [
        sample(),
        Vault { recovery_enabled: false, ..sample() },
        Vault { unlock_time: i64::MIN, recovery_req_time: i64::MAX, ..sample() },
        Vault { unlock_time: -1, recovery_req_time: 0, amount: 0, ..sample() },
        Vault { amount: u64::MAX, bump: 0, ..sample() },
        Vault::new(Address::new([9; 32]), 1000, Address::new([8; 32]), 255),
    ];
    for vault in vaults {
        assert_eq!(decode(&encode(&vault)), Some(vault));
    }
}

#[test]
fn bytes_of_the_wrong_length_are_no_record() {
    let bytes = encode(&sample());
    assert_eq!(decode(&bytes[..97]), None);
    assert_eq!(decode(&bytes[..8]), None);
    assert_eq!(decode(&[]), None);
    let mut longer = bytes.clone();
    longer.push(0);
    assert_eq!(decode(&longer), None);
}

#[test]
fn bytes_with_another_tag_are_no_record() {
    for at in 0..8 {
        let mut bytes = encode(&sample());
        bytes[at] ^= 1;
        assert_eq!(decode(&bytes), None);
    }
    assert_eq!(decode(&[0u8; 98]), None);
}

#[test]
fn a_flag_that_is_neither_0_nor_1_is_no_record() {
    for flag in [2u8, 3, 128, 255] {
        let mut bytes = encode(&sample());
        bytes[88] = flag;
        assert_eq!(decode(&bytes), None);
    }
    let mut bytes = encode(&sample());
    bytes[88] = 0;
    assert_eq!(decode(&bytes), Some(Vault { recovery_enabled: false, ..sample() }));
}

#[test]
fn every_other_byte_of_a_record_counts() {
    let bytes = encode(&sample());
    for at in 8..98 {
        if at == 88 {
            continue;
        }
        let mut changed = bytes.clone();
        changed[at] ^= 0x10;
        let vault = decode(&changed).unwrap();
        assert_ne!(vault, sample());
        assert_eq!(encode(&vault), changed);
    }
}
