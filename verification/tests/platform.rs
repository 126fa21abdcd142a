use kampela_core::platform::{
    entropy_len_is_valid, join_cards, signature_with_id, AppStateInit, DesktopSimulator, FlashData, Hardware,
    NFCState, NfcTransactionData, Platform, ADDRESS_LEN, SIGNATURE_LEN,
};
use kampela_core::wordlist::{Bits11, LoadError};

fn simulator(transaction: bool, flash: Option<FlashData>) -> DesktopSimulator {
    DesktopSimulator::new(&AppStateInit::new(true, transaction), flash)
}

#[test]
fn signature_is_framed_with_the_version_in_hex() {
    let framed = signature_with_id(&[0xab; 64]);
    let mut expected = String::from("01");
    for _ in 0..64 {
        expected.push_str("ab");
    }
    assert_eq!(&framed[..], expected.as_bytes());
    assert_eq!(framed.len(), SIGNATURE_LEN);
}

#[test]
fn framed_signature_agrees_with_hex_of_each_byte() {
    let mut signature = [0u8; 64];
    for (i, byte) in signature.iter_mut().enumerate() {
        *byte = (i * 4 + 3) as u8;
    }
    let framed = signature_with_id(&signature);
    assert_eq!(&framed[..2], b"01");
    for (i, byte) in signature.iter().enumerate() {
        let digits = format!("{:02x}", byte);
        assert_eq!(&framed[2 + 2 * i..4 + 2 * i], digits.as_bytes());
    }
    assert_eq!(&signature_with_id(&[0x0f; 64])[2..6], b"0f0f");
    assert_eq!(&signature_with_id(&[0xf0; 64])[126..130], b"f0f0");
}

#[test]
fn cards_are_joined_by_line_feeds() {
    assert_eq!(join_cards(&Vec::new()), "");
    assert_eq!(join_cards(&vec![String::from("one")]), "one");
    assert_eq!(
        join_cards(&vec![String::from("one"), String::from("two"), String::from("3")]),
        "one\ntwo\n3"
    );
    assert_eq!(
        join_cards(&vec![String::new(), String::from("b"), String::new()]),
        "\nb\n"
    );
}

#[test]
fn starting_state_follows_the_arguments() {
    let init = AppStateInit::new(true, false);
    assert!(init.storage.key_created);
    assert_eq!(init.nfc, NFCState::Empty);
    let init = AppStateInit::new(false, true);
    assert!(!init.storage.key_created);
    assert_eq!(init.nfc, NFCState::Transaction);
}

#[test]
fn simulator_takes_its_pin_from_the_flash() {
    assert_eq!(simulator(false, None).pin(), &[0, 0, 0, 0]);
    let flash = FlashData { pin: None, entropy: None };
    assert_eq!(simulator(false, Some(flash)).pin(), &[0, 0, 0, 0]);
    let flash = FlashData { pin: Some([1, 2, 3, 4]), entropy: None };
    assert_eq!(simulator(false, Some(flash)).pin(), &[1, 2, 3, 4]);
}

#[test]
fn simulator_starts_with_the_sample_transaction() {
    let device = simulator(true, None);
    assert!(device.has_transaction());
    assert_eq!(device.call(), Some(String::from("Hello, this is a transaction!")));
    assert_eq!(
        device.extensions(),
        Some(String::from("Hello, this is a transaction!"))
    );
    assert_eq!(device.signature(), [0u8; SIGNATURE_LEN]);
    assert_eq!(device.entropy(), None);
    assert!(!device.has_address());
}

#[test]
fn simulator_without_a_transaction_renders_nothing() {
    let device = simulator(false, None);
    assert!(!device.has_transaction());
    assert_eq!(device.call(), None);
    assert_eq!(device.extensions(), None);
}

#[test]
fn simulator_keeps_what_is_set() {
    let mut device = simulator(false, None);
    *device.pin_mut() = [9, 8, 7, 6];
    assert_eq!(device.pin(), &[9, 8, 7, 6]);
    device.set_address([7u8; ADDRESS_LEN]);
    assert!(device.has_address());
    assert_eq!(device.address(), &[7u8; ADDRESS_LEN]);
    device.set_transaction(NfcTransactionData {
        call: String::from("call"),
        extension: String::from("extension"),
        signature: [5u8; SIGNATURE_LEN],
    });
    assert_eq!(device.call(), Some(String::from("call")));
    assert_eq!(device.extensions(), Some(String::from("extension")));
    assert_eq!(device.signature(), [5u8; SIGNATURE_LEN]);
    assert_eq!(device.pin(), &[9, 8, 7, 6]);
    assert_eq!(device.address(), &[7u8; ADDRESS_LEN]);
}

#[test]
fn simulator_stores_entropy_without_a_flash() {
    let mut device = simulator(false, None);
    assert_eq!(device.store_entropy(&[3u8; 16], None), None);
    assert_eq!(device.entropy(), Some(vec![3u8; 16]));
    device.read_entropy();
    assert_eq!(device.entropy(), Some(vec![3u8; 16]));
}

#[test]
fn simulator_writes_entropy_to_the_flash() {
    let flash = FlashData { pin: Some([1, 1, 1, 1]), entropy: None };
    let mut device = simulator(false, Some(flash));
    device.read_entropy();
    assert_eq!(device.entropy(), None);
    let written = device.store_entropy(&[4u8; 32], Some(flash));
    assert_eq!(
        written,
        Some(FlashData { pin: Some([1, 1, 1, 1]), entropy: Some([4u8; 32]) })
    );
    assert_eq!(device.entropy(), Some(vec![4u8; 32]));
    assert_eq!(device.flash_data(), written);
    assert_eq!(simulator(false, None).flash_data(), None);
}

#[test]
fn simulator_reads_entropy_from_the_flash() {
    let flash = FlashData { pin: None, entropy: Some([6u8; 32]) };
    let mut device = simulator(false, Some(flash));
    assert_eq!(device.entropy(), None);
    device.read_entropy();
    assert_eq!(device.entropy(), Some(vec![6u8; 32]));
}

#[test]
fn simulator_dictionary_is_the_file_or_the_compiled_in_one() {
    let list = DesktopSimulator::get_wordlist(None).expect("compiled in");
    assert!(!list.loaded());
    let word = list.get_word(Bits11::from(0).expect("in range")).expect("word");
    assert_eq!(word, "abandon");
    assert_eq!(
        DesktopSimulator::get_wordlist(Some(b"too few words".to_vec())).err(),
        Some(LoadError::WordCount { count: 3 })
    );
    let canonical = mnemonic_external::wordlist::WORDLIST_ENGLISH.join("\n");
    let list = DesktopSimulator::get_wordlist(Some(canonical.into_bytes())).expect("canonical");
    assert!(list.loaded());
}

#[test]
fn hardware_starts_empty() {
    let device: Hardware<Vec<u8>, u32> = Hardware::new();
    assert_eq!(device.pin(), &[0, 0, 0, 0]);
    assert_eq!(device.protected(), &None);
    assert_eq!(device.transaction(), &None);
    assert!(!device.has_address());
}

#[test]
fn hardware_keeps_what_is_set() {
    let mut device: Hardware<Vec<u8>, u32> = Hardware::new();
    *device.pin_mut() = [1, 2, 3, 4];
    device.set_address([2u8; ADDRESS_LEN]);
    device.set_transaction(77);
    device.store_entropy(Some(vec![1, 2, 3]));
    assert_eq!(device.pin(), &[1, 2, 3, 4]);
    assert_eq!(device.address(), &[2u8; ADDRESS_LEN]);
    assert_eq!(device.transaction(), &Some(77));
    assert_eq!(device.protected(), &Some(vec![1, 2, 3]));
    device.store_entropy(None);
    assert_eq!(device.protected(), &None);
    assert_eq!(device.transaction(), &Some(77));
}

#[test]
fn only_entropy_of_some_bytes_is_kept() {
    assert!(!Hardware::<Vec<u8>, u32>::keeps_entropy(&[]));
    assert!(Hardware::<Vec<u8>, u32>::keeps_entropy(&[0]));
    assert!(Hardware::<Vec<u8>, u32>::keeps_entropy(&[1u8; 32]));
}

#[test]
fn entropy_is_sixteen_to_thirty_two_bytes_in_steps_of_four() {
    for len in 0..=40usize {
        let expected = [16, 20, 24, 28, 32].contains(&len);
        assert_eq!(entropy_len_is_valid(len), expected, "length {}", len);
    }
    assert!(!entropy_len_is_valid(usize::MAX));
}
