//! What the interface logic asks of the device it runs on, and the two
//! devices that answer: the desktop simulator and the hardware.

use crate::wordlist::{InfernalWordList, LoadError};
use vstd::prelude::*;
use vstd::slice::slice_to_vec;
use vstd::string::StringExecFns;

verus! {

/// The code that unlocks the device: four digits.
pub type PinCode = [u8; 4];

/// Length of an address as the interface shows it.
pub const ADDRESS_LEN: usize = 76;

/// Length of a raw signature.
pub const RAW_SIGNATURE_LEN: usize = 64;

/// Length of a signature as the interface shows it: the version byte and
/// the raw signature, two hex digits for each byte.
pub const SIGNATURE_LEN: usize = 130;

/// The version byte that precedes a signature.
pub const SIGNATURE_VERSION: u8 = 1;

/// Length of the entropy that the emulated flash can hold.
pub const FLASH_ENTROPY_LEN: usize = 32;

/// Whether entropy may be `len` bytes long: from 16 to 32 bytes, in steps
/// of four.
pub open spec fn is_entropy_len(len: nat) -> bool {
    16 <= len <= 32 && len % 4 == 0
}

/// Tells whether entropy may be `len` bytes long.
pub fn entropy_len_is_valid(len: usize) -> (valid: bool)
    ensures
        valid == is_entropy_len(len as nat),
{
    16 <= len && len <= 32 && len % 4 == 0
}

/// `count` bytes that are all zero.
pub open spec fn zeros(count: nat) -> Seq<u8> {
    Seq::new(count, |i: int| 0u8)
}

/// The character that stands for `nibble`, a number below 16, in lowercase
/// hex.
pub open spec fn hex_digit(nibble: int) -> u8 {
    if nibble < 10 {
        (0x30 + nibble) as u8
    } else {
        (0x61 + nibble - 10) as u8
    }
}

/// `data` in lowercase hex: two digits for each byte, the high one first.
pub open spec fn hex_encoded(data: Seq<u8>) -> Seq<u8> {
    Seq::new(
        2 * data.len(),
        |i: int|
            if i % 2 == 0 {
                hex_digit(data[i / 2] as int / 16)
            } else {
                hex_digit(data[i / 2] as int % 16)
            },
    )
}

/// Calls `hex::encode`. Trusted: the result holds two lowercase hex digits
/// for each byte of `data`, in the order of the bytes, the high digit of a
/// byte before its low one.
#[verifier::external_body]
pub(crate) fn hex_encode(data: &[u8]) -> (text: Vec<u8>)
    ensures
        text@ == hex_encoded(data@),
{
    hex::encode(data).into_bytes()
}

/// A signature as the interface shows it: the version byte and then the
/// signature, all in lowercase hex.
pub open spec fn framed_signature(signature: Seq<u8>) -> Seq<u8> {
    hex_encoded(seq![SIGNATURE_VERSION] + signature)
}

/// Frames a raw signature for the interface.
pub fn signature_with_id(signature: &[u8; RAW_SIGNATURE_LEN]) -> (framed: [u8; SIGNATURE_LEN])
    ensures
        framed@ == framed_signature(signature@),
{
    let mut with_id: Vec<u8> = Vec::new();
    with_id.push(SIGNATURE_VERSION);
    let mut i: usize = 0;
    while i < RAW_SIGNATURE_LEN
        invariant
            i <= RAW_SIGNATURE_LEN,
            with_id@ == seq![SIGNATURE_VERSION] + signature@.take(i as int),
        decreases RAW_SIGNATURE_LEN - i,
    {
        with_id.push(signature[i]);
        i = i + 1;
    }
    let text = hex_encode(with_id.as_slice());
    let mut framed = [0u8; SIGNATURE_LEN];
    let mut k: usize = 0;
    while k < SIGNATURE_LEN
        invariant
            k <= SIGNATURE_LEN,
            text@.len() == SIGNATURE_LEN,
            forall|j: int| 0 <= j < k ==> framed@[j] == text@[j],
        decreases SIGNATURE_LEN - k,
    {
        framed[k] = text[k];
        k = k + 1;
    }
    framed
}

/// `lines` as one text, a line feed between each two of them.
pub open spec fn joined_lines(lines: Seq<Seq<char>>) -> Seq<char>
    decreases lines.len(),
{
    if lines.len() == 0 {
        Seq::empty()
    } else if lines.len() == 1 {
        lines[0]
    } else {
        joined_lines(lines.drop_last()) + seq!['\n'] + lines.last()
    }
}

/// Joins the cards of a transaction, each already in the form in which it
/// is shown, into the text that the interface displays.
pub fn join_cards(cards: &Vec<String>) -> (text: String)
    ensures
        text@ == joined_lines(cards.deep_view()),
{
    let mut text = String::new();
    let mut i: usize = 0;
    while i < cards.len()
        invariant
            i <= cards.len(),
            text@ == joined_lines(cards.deep_view().take(i as int)),
        decreases cards.len() - i,
    {
        proof {
            reveal_strlit("\n");
            assert(cards.deep_view().take(i + 1).drop_last() =~= cards.deep_view().take(i as int));
        }
        if i > 0 {
            text.append("\n");
        }
        text.append(cards[i].as_str());
        i = i + 1;
    }
    assert(cards.deep_view().take(i as int) =~= cards.deep_view());
    text
}

/// The capabilities of a device that are plain state: the pin, the
/// address and the pending transaction.
pub trait Platform {
    /// What the device keeps of a transaction that waits for a signature.
    type NfcTransaction;

    /// The pin.
    spec fn pin_code(&self) -> PinCode;

    /// The address, once it has been set.
    spec fn current_address(&self) -> Option<[u8; ADDRESS_LEN]>;

    /// The transaction that waits for a signature.
    spec fn pending(&self) -> Option<Self::NfcTransaction>;

    /// Reads the pin.
    fn pin(&self) -> (pin: &PinCode)
        ensures
            *pin == self.pin_code(),
    ;

    /// Lends the pin out to be changed.
    fn pin_mut(&mut self) -> (pin: &mut PinCode)
        ensures
            *pin == old(self).pin_code(),
            final(self).pin_code() == *final(pin),
            final(self).current_address() == old(self).current_address(),
            final(self).pending() == old(self).pending(),
    ;

    /// Sets the address.
    fn set_address(&mut self, addr: [u8; ADDRESS_LEN])
        ensures
            final(self).current_address() == Some(addr),
            final(self).pin_code() == old(self).pin_code(),
            final(self).pending() == old(self).pending(),
    ;

    /// Makes `transaction` the one that waits for a signature.
    fn set_transaction(&mut self, transaction: Self::NfcTransaction)
        ensures
            final(self).pending() == Some(transaction),
            final(self).pin_code() == old(self).pin_code(),
            final(self).current_address() == old(self).current_address(),
    ;

    /// Tells whether an address has been set.
    fn has_address(&self) -> (set: bool)
        ensures
            set == self.current_address() is Some,
    ;

    /// Reads the address, which must have been set.
    fn address(&self) -> (addr: &[u8; ADDRESS_LEN])
        requires
            self.current_address() is Some,
        ensures
            Some(*addr) == self.current_address(),
    ;
}

/// Whether a transaction waits when the device starts.
#[derive(Clone, Copy, Debug, PartialEq, Eq, Structural)]
pub enum NFCState {
    Empty,
    Transaction,
}

/// What the device's storage holds when it starts.
#[derive(Clone, Copy, Debug, PartialEq, Eq, Structural)]
pub struct StorageState {
    pub key_created: bool,
}

/// The state in which the interface starts.
#[derive(Clone, Copy, Debug, PartialEq, Eq, Structural)]
pub struct AppStateInit {
    pub nfc: NFCState,
    pub storage: StorageState,
}

impl AppStateInit {
    /// The starting state for a device on which a key was created or not,
    /// and which has received a transaction or not.
    pub fn new(key_was_created: bool, transaction_received: bool) -> (init: Self)
        ensures
            init.storage.key_created == key_was_created,
            init.nfc == if transaction_received {
                NFCState::Transaction
            } else {
                NFCState::Empty
            },
    {
        let storage = StorageState { key_created: key_was_created };
        let nfc = if transaction_received {
            NFCState::Transaction
        } else {
            NFCState::Empty
        };
        AppStateInit { nfc, storage }
    }
}

/// A transaction as the simulator keeps it: its texts and its signature.
#[derive(Debug)]
pub struct NfcTransactionData {
    pub call: String,
    pub extension: String,
    pub signature: [u8; SIGNATURE_LEN],
}

/// What the simulator's emulated flash holds.
#[derive(Clone, Copy, Debug, PartialEq, Eq)]
pub struct FlashData {
    pub pin: Option<PinCode>,
    pub entropy: Option<[u8; FLASH_ENTROPY_LEN]>,
}

/// The simulated device.
#[derive(Debug)]
pub struct DesktopSimulator {
    pin: PinCode,
    entropy: Option<Vec<u8>>,
    address: Option<[u8; ADDRESS_LEN]>,
    transaction: Option<NfcTransactionData>,
    flash_data: Option<FlashData>,
}

impl DesktopSimulator {
    /// The entropy that the device holds.
    pub closed spec fn stored_entropy(&self) -> Option<Seq<u8>> {
        match self.entropy {
            Some(e) => Some(e@),
            None => None,
        }
    }

    /// What the emulated flash holds, if the device has one.
    pub closed spec fn flash(&self) -> Option<FlashData> {
        self.flash_data
    }

    /// A simulated device that starts in `init_state`, with the emulated
    /// flash `flash_data` if it has one. Its pin is the one in the flash, or
    /// four zeros.
    pub fn new(init_state: &AppStateInit, flash_data: Option<FlashData>) -> (device: Self)
        ensures
            device.pin_code()@ == match flash_data {
                Some(FlashData { pin: Some(stored), .. }) => stored@,
                _ => zeros(4),
            },
            device.stored_entropy() is None,
            device.current_address() is None,
            device.flash() == flash_data,
            device.pending() is Some <==> init_state.nfc == NFCState::Transaction,
            device.pending() matches Some(t) ==> t.signature@ == zeros(SIGNATURE_LEN as nat)
                && t.call@ == "Hello, this is a transaction!"@ && t.extension@
                == "Hello, this is a transaction!"@,
    {
        let mut pin = [0u8; 4];
        if let Some(flash_data) = &flash_data {
            if let Some(stored_pin) = flash_data.pin {
                pin = stored_pin;
            }
        }
        let transaction = match init_state.nfc {
            NFCState::Empty => None,
            NFCState::Transaction => Some(
                NfcTransactionData {
                    call: String::from_str("Hello, this is a transaction!"),
                    extension: String::from_str("Hello, this is a transaction!"),
                    signature: [0u8; SIGNATURE_LEN],
                },
            ),
        };
        Self { pin, entropy: None, address: None, transaction, flash_data }
    }

    /// The dictionary of the device: the one that `file` holds, if a file
    /// was named and read, and the compiled-in one otherwise.
    pub fn get_wordlist(file: Option<Vec<u8>>) -> (made: Result<InfernalWordList, LoadError>)
        ensures
            match file {
                None => made matches Ok(list) && !list.is_loaded(),
                Some(buf) => match crate::wordlist::parse_words(buf@) {
                    Ok(words) => made matches Ok(list) && list.is_loaded() && list@ == words,
                    Err(e) => made matches Err(reason) && reason == e,
                },
            },
    {
        let mut wordlist = InfernalWordList::new();
        match file {
            None => Ok(wordlist),
            Some(buf) => match wordlist.load_words(buf) {
                Ok(()) => Ok(wordlist),
                Err(e) => Err(e),
            },
        }
    }

    /// Stores the entropy `e`, which must be of a length that entropy may
    /// have. `flash` is what the file of the emulated flash holds at this
    /// moment, if the device has one; the result is what the file is to hold
    /// from now on. The emulated flash takes entropy of
    /// [`FLASH_ENTROPY_LEN`] bytes only.
    pub fn store_entropy(&mut self, e: &[u8], flash: Option<FlashData>) -> (written: Option<
        FlashData,
    >)
        requires
            is_entropy_len(e@.len()),
            flash is Some ==> e@.len() == FLASH_ENTROPY_LEN,
        ensures
            final(self).stored_entropy() == Some(e@),
            final(self).pin_code() == old(self).pin_code(),
            final(self).current_address() == old(self).current_address(),
            final(self).pending() == old(self).pending(),
            match flash {
                Some(data) => {
                    &&& final(self).flash() == written
                    &&& written matches Some(new)
                    &&& new.pin == data.pin
                    &&& new.entropy matches Some(kept)
                    &&& kept@ == e@
                },
                None => written is None && final(self).flash() == old(self).flash(),
            },
    {
        let written = match flash {
            Some(data) => {
                let mut actual_entropy = [0u8; FLASH_ENTROPY_LEN];
                let mut i: usize = 0;
                while i < FLASH_ENTROPY_LEN
                    invariant
                        i <= FLASH_ENTROPY_LEN,
                        e@.len() == FLASH_ENTROPY_LEN,
                        forall|j: int| 0 <= j < i ==> actual_entropy@[j] == e@[j],
                    decreases FLASH_ENTROPY_LEN - i,
                {
                    actual_entropy[i] = e[i];
                    i = i + 1;
                }
                let new = FlashData { pin: data.pin, entropy: Some(actual_entropy) };
                self.flash_data = Some(new);
                Some(new)
            },
            None => None,
        };
        self.entropy = Some(slice_to_vec(e));
        written
    }

    /// Takes the entropy out of the emulated flash, if the device has one
    /// and it holds entropy; otherwise nothing changes.
    pub fn read_entropy(&mut self)
        ensures
            final(self).stored_entropy() == match old(self).flash() {
                Some(FlashData { entropy: Some(kept), .. }) => Some(kept@),
                _ => old(self).stored_entropy(),
            },
            final(self).flash() == old(self).flash(),
            final(self).pin_code() == old(self).pin_code(),
            final(self).current_address() == old(self).current_address(),
            final(self).pending() == old(self).pending(),
    {
        if let Some(flash_data) = &self.flash_data {
            if let Some(kept) = &flash_data.entropy {
                self.entropy = Some(slice_to_vec(kept.as_slice()));
            }
        }
    }

    /// What the emulated flash holds, if the device has one.
    pub fn flash_data(&self) -> (flash: Option<FlashData>)
        ensures
            flash == self.flash(),
    {
        self.flash_data
    }

    /// The entropy that the device holds.
    pub fn entropy(&self) -> (e: Option<Vec<u8>>)
        ensures
            match e {
                Some(bytes) => self.stored_entropy() == Some(bytes@),
                None => self.stored_entropy() is None,
            },
    {
        match &self.entropy {
            Some(bytes) => Some(slice_to_vec(bytes.as_slice())),
            None => None,
        }
    }

    /// The text of the pending transaction's call, if a transaction waits.
    pub fn call(&self) -> (text: Option<String>)
        ensures
            match self.pending() {
                Some(t) => text == Some(t.call),
                None => text is None,
            },
    {
        match &self.transaction {
            Some(a) => Some(a.call.clone()),
            None => None,
        }
    }

    /// The text of the pending transaction's extensions, if a transaction
    /// waits.
    pub fn extensions(&self) -> (text: Option<String>)
        ensures
            match self.pending() {
                Some(t) => text == Some(t.extension),
                None => text is None,
            },
    {
        match &self.transaction {
            Some(a) => Some(a.extension.clone()),
            None => None,
        }
    }

    /// Tells whether a transaction waits for a signature.
    pub fn has_transaction(&self) -> (waits: bool)
        ensures
            waits == self.pending() is Some,
    {
        self.transaction.is_some()
    }

    /// The signature of the pending transaction. A transaction must wait.
    pub fn signature(&self) -> (signature: [u8; SIGNATURE_LEN])
        requires
            self.pending() is Some,
        ensures
            self.pending() matches Some(t) && signature == t.signature,
    {
        match &self.transaction {
            Some(a) => a.signature,
            None => [0u8; SIGNATURE_LEN],
        }
    }
}

impl Platform for DesktopSimulator {
    type NfcTransaction = NfcTransactionData;

    closed spec fn pin_code(&self) -> PinCode {
        self.pin
    }

    closed spec fn current_address(&self) -> Option<[u8; ADDRESS_LEN]> {
        self.address
    }

    closed spec fn pending(&self) -> Option<NfcTransactionData> {
        self.transaction
    }

    fn pin(&self) -> (pin: &PinCode) {
        &self.pin
    }

    fn pin_mut(&mut self) -> (pin: &mut PinCode)
        ensures
            final(self).stored_entropy() == old(self).stored_entropy(),
            final(self).flash() == old(self).flash(),
    {
        &mut self.pin
    }

    fn set_address(&mut self, addr: [u8; ADDRESS_LEN])
        ensures
            final(self).stored_entropy() == old(self).stored_entropy(),
            final(self).flash() == old(self).flash(),
    {
        self.address = Some(addr);
    }

    fn set_transaction(&mut self, transaction: NfcTransactionData)
        ensures
            final(self).stored_entropy() == old(self).stored_entropy(),
            final(self).flash() == old(self).flash(),
    {
        self.transaction = Some(transaction);
    }

    fn has_address(&self) -> (set: bool) {
        self.address.is_some()
    }

    fn address(&self) -> (addr: &[u8; ADDRESS_LEN]) {
        match &self.address {
            Some(a) => a,
            None => &self.address.as_ref().unwrap(),
        }
    }
}

/// The hardware device. `P` is the protected form of the entropy, as the
/// secure element makes it, and `T` is the handle of a transaction in
/// external memory; the device keeps both and looks into neither.
pub struct Hardware<P, T> {
    pin: PinCode,
    protected: Option<P>,
    address: Option<[u8; ADDRESS_LEN]>,
    transaction_psram_access: Option<T>,
}

impl<P, T> Hardware<P, T> {
    /// The protected entropy that the device holds.
    pub closed spec fn protected_entropy(&self) -> Option<P> {
        self.protected
    }

    /// A device with the pin of four zeros that holds nothing else.
    pub fn new() -> (device: Self)
        ensures
            device.pin_code()@ == zeros(4),
            device.protected_entropy() is None,
            device.current_address() is None,
            device.pending() is None,
    {
        Self { pin: [0u8; 4], protected: None, address: None, transaction_psram_access: None }
    }

    /// Whether storing the entropy `e` keeps anything: storing no bytes
    /// clears what the device holds, and only entropy of at least one byte
    /// is handed to the secure element.
    pub fn keeps_entropy(e: &[u8]) -> (keeps: bool)
        ensures
            keeps == (e@.len() != 0),
    {
        e.len() != 0
    }

    /// Keeps `protected` as the device's entropy, or nothing if it is
    /// `None`.
    pub fn store_entropy(&mut self, protected: Option<P>)
        ensures
            final(self).protected_entropy() == protected,
            final(self).pin_code() == old(self).pin_code(),
            final(self).current_address() == old(self).current_address(),
            final(self).pending() == old(self).pending(),
    {
        self.protected = protected;
    }

    /// The protected entropy that the device holds.
    pub fn protected(&self) -> (protected: &Option<P>)
        ensures
            *protected == self.protected_entropy(),
    {
        &self.protected
    }

    /// The transaction that waits for a signature.
    pub fn transaction(&self) -> (transaction: &Option<T>)
        ensures
            *transaction == self.pending(),
    {
        &self.transaction_psram_access
    }
}

impl<P, T> Platform for Hardware<P, T> {
    type NfcTransaction = T;

    closed spec fn pin_code(&self) -> PinCode {
        self.pin
    }

    closed spec fn current_address(&self) -> Option<[u8; ADDRESS_LEN]> {
        self.address
    }

    closed spec fn pending(&self) -> Option<T> {
        self.transaction_psram_access
    }

    fn pin(&self) -> (pin: &PinCode) {
        &self.pin
    }

    fn pin_mut(&mut self) -> (pin: &mut PinCode)
        ensures
            final(self).protected_entropy() == old(self).protected_entropy(),
    {
        &mut self.pin
    }

    fn set_address(&mut self, addr: [u8; ADDRESS_LEN])
        ensures
            final(self).protected_entropy() == old(self).protected_entropy(),
    {
        self.address = Some(addr);
    }

    fn set_transaction(&mut self, transaction: T)
        ensures
            final(self).protected_entropy() == old(self).protected_entropy(),
    {
        self.transaction_psram_access = Some(transaction);
    }

    fn has_address(&self) -> (set: bool) {
        self.address.is_some()
    }

    fn address(&self) -> (addr: &[u8; ADDRESS_LEN]) {
        match &self.address {
            Some(a) => a,
            None => &self.address.as_ref().unwrap(),
        }
    }
}

} // verus!
