//! The access gate: a prospective subscriber shows the identifier of a ledger
//! transaction, and is admitted when the ledger reports that transaction as mined,
//! successful and addressed to the configured contract.

use crate::registry::{has_id, queue_limit, Registry, Subscription, OUTBOUND_CAPACITY};
use ethers::types::{H160, H256};
use std::str::FromStr;
use vstd::prelude::*;

verus! {

/// A hexadecimal digit.
pub open spec fn is_hex_digit(c: char) -> bool {
    ||| '0' <= c <= '9'
    ||| 'a' <= c <= 'f'
    ||| 'A' <= c <= 'F'
}

/// The number that a hexadecimal digit stands for.
pub open spec fn hex_value(c: char) -> int {
    if '0' <= c <= '9' {
        c as int - '0' as int
    } else if 'a' <= c <= 'f' {
        c as int - 'a' as int + 10
    } else {
        c as int - 'A' as int + 10
    }
}

/// The characters that may stand between the digits of a hexadecimal text: space,
/// carriage return, line feed and tab.
pub open spec fn is_hex_filler(c: char) -> bool {
    c == ' ' || c == '\r' || c == '\n' || c == '\t'
}

/// `text` without a leading `0x`.
pub open spec fn without_0x(text: Seq<char>) -> Seq<char> {
    if text.len() >= 2 && text[0] == '0' && text[1] == 'x' {
        text.subrange(2, text.len() as int)
    } else {
        text
    }
}

/// The characters of `text` that count: what follows an optional `0x`, without the
/// fillers.
pub open spec fn hex_payload(text: Seq<char>) -> Seq<char> {
    without_0x(text).filter(|c: char| !is_hex_filler(c))
}

/// The `size` bytes that `text` spells in hexadecimal, most significant digit first:
/// an optional `0x`, then exactly two digits for each byte, in either case, with
/// fillers anywhere among them. Any other text spells nothing.
pub open spec fn fixed_hex(text: Seq<char>, size: nat) -> Option<Seq<u8>> {
    let digits = hex_payload(text);
    if digits.len() == 2 * size && (forall|i: int|
        0 <= i < digits.len() ==> is_hex_digit(#[trigger] digits[i])) {
        Some(
            Seq::new(
                size,
                |i: int| (16 * hex_value(digits[2 * i]) + hex_value(digits[2 * i + 1])) as u8,
            ),
        )
    } else {
        None
    }
}

/// Reads a transaction identifier with the `FromStr` of `ethers::types::H256`, which
/// drops a leading `0x`, skips space, carriage return, line feed and tab, and accepts
/// exactly 64 hexadecimal digits.
#[verifier::external_body]
fn parse_h256(text: &str) -> (bytes: Option<[u8; 32]>)
    ensures
        match bytes {
            Some(b) => fixed_hex(text@, 32) == Some(b@),
            None => fixed_hex(text@, 32) is None,
        },
{
    match H256::from_str(text) {
        Ok(hash) => Some(hash.0),
        Err(_) => None,
    }
}

/// Reads an account address with the `FromStr` of `ethers::types::H160`, which drops a
/// leading `0x`, skips space, carriage return, line feed and tab, and accepts exactly
/// 40 hexadecimal digits.
#[verifier::external_body]
fn parse_h160(text: &str) -> (bytes: Option<[u8; 20]>)
    ensures
        match bytes {
            Some(b) => fixed_hex(text@, 20) == Some(b@),
            None => fixed_hex(text@, 20) is None,
        },
{
    match H160::from_str(text) {
        Ok(address) => Some(address.0),
        Err(_) => None,
    }
}

/// The identifier of a ledger transaction.
#[derive(Clone, Copy, Debug, PartialEq, Eq)]
pub struct TxHash {
    pub bytes: [u8; 32],
}

/// The address of a ledger account.
#[derive(Clone, Copy, Debug, PartialEq, Eq)]
pub struct Address {
    pub bytes: [u8; 20],
}

/// What the ledger recorded of a mined transaction.
#[derive(Clone, Copy, Debug, PartialEq, Eq)]
pub struct Receipt {
    /// The status code, where the ledger gives one; 1 stands for success.
    pub status: Option<u64>,
    /// The account that the transaction was sent to; none for one that created a
    /// contract.
    pub to: Option<Address>,
}

/// The ledger oracle's answer to a query for one transaction.
#[derive(Clone, Copy, Debug, PartialEq, Eq)]
pub enum OracleAnswer {
    /// The oracle could not be asked, or did not answer.
    Unreachable,
    /// The ledger holds no receipt for the transaction: it is not mined.
    Unknown,
    /// The transaction is mined, with this receipt.
    Mined(Receipt),
}

/// Why a subscriber is turned away.
#[derive(Clone, Copy, Debug, PartialEq, Eq)]
pub enum AccessDenied {
    /// The token is no transaction identifier.
    MalformedToken,
    /// The ledger does not vouch for the transaction.
    Unauthorized,
}

/// What the gating endpoint answers.
#[derive(Debug, PartialEq, Eq)]
pub struct GateResponse {
    /// The HTTP status code.
    pub status: u16,
    /// The message of the body.
    pub message: String,
}

/// The address that stands for "no destination".
pub open spec fn zero_address() -> Seq<u8> {
    Seq::new(20, |i: int| 0u8)
}

impl OracleAnswer {
    /// The transaction is mined.
    pub open spec fn finalized(self) -> bool {
        self is Mined
    }

    /// The transaction is mined and its status is 1.
    pub open spec fn successful(self) -> bool {
        self matches OracleAnswer::Mined(receipt) && receipt.status == Some(1u64)
    }

    /// The account that the transaction was sent to; the zero address where the
    /// ledger names none.
    pub open spec fn destination(self) -> Seq<u8> {
        match self {
            OracleAnswer::Mined(receipt) => match receipt.to {
                Some(address) => address.bytes@,
                None => zero_address(),
            },
            _ => zero_address(),
        }
    }
}

/// The ledger vouches for a transaction towards `contract`: it is mined, successful
/// and sent to that address.
pub open spec fn vouched(contract: Seq<u8>, answer: OracleAnswer) -> bool {
    answer.finalized() && answer.successful() && answer.destination() == contract
}

/// The decision on `token`, given the oracle's answer for the transaction that the
/// token names.
pub open spec fn decision(contract: Seq<u8>, token: Seq<char>, answer: OracleAnswer) -> Result<
    (),
    AccessDenied,
> {
    if fixed_hex(token, 32) is None {
        Err(AccessDenied::MalformedToken)
    } else if vouched(contract, answer) {
        Ok(())
    } else {
        Err(AccessDenied::Unauthorized)
    }
}

/// The status code that answers a decision: 200 for admission, 400 for a malformed
/// token, 401 for a transaction that the ledger does not vouch for.
pub open spec fn status_of(verdict: Result<(), AccessDenied>) -> u16 {
    match verdict {
        Ok(()) => 200,
        Err(AccessDenied::MalformedToken) => 400,
        Err(AccessDenied::Unauthorized) => 401,
    }
}

/// The message that answers a decision.
pub open spec fn message_of(verdict: Result<(), AccessDenied>) -> Seq<char> {
    match verdict {
        Ok(()) => "Verifikasi berhasil. Silakan hubungkan WebSocket."@,
        Err(AccessDenied::MalformedToken) => "Format tx_hash tidak valid."@,
        Err(AccessDenied::Unauthorized) => "Bukti pembayaran tidak valid atau tidak ditemukan."@,
    }
}

/// Reads an access token as a transaction identifier.
pub fn parse_token(token: &str) -> (parsed: Result<TxHash, AccessDenied>)
    ensures
        match parsed {
            Ok(hash) => fixed_hex(token@, 32) == Some(hash.bytes@),
            Err(why) => why == AccessDenied::MalformedToken && fixed_hex(token@, 32) is None,
        },
{
    match parse_h256(token) {
        Some(bytes) => Ok(TxHash { bytes }),
        None => Err(AccessDenied::MalformedToken),
    }
}

/// Whether two addresses hold the same bytes.
pub fn same_address(a: &Address, b: &Address) -> (same: bool)
    ensures
        same == (a.bytes@ == b.bytes@),
{
    let mut i: usize = 0;
    while i < 20
        invariant
            i <= 20,
            forall|j: int| 0 <= j < i ==> a.bytes@[j] == b.bytes@[j],
        decreases 20 - i,
    {
        if a.bytes[i] != b.bytes[i] {
            return false;
        }
        i = i + 1;
    }
    assert(a.bytes@ =~= b.bytes@);
    true
}

/// Whether an address is the zero address.
pub fn is_zero_address(a: &Address) -> (zero: bool)
    ensures
        zero == (a.bytes@ == zero_address()),
{
    let mut i: usize = 0;
    while i < 20
        invariant
            i <= 20,
            forall|j: int| 0 <= j < i ==> a.bytes@[j] == 0,
        decreases 20 - i,
    {
        if a.bytes[i] != 0 {
            assert(zero_address()[i as int] == 0);
            return false;
        }
        i = i + 1;
    }
    assert(a.bytes@ =~= zero_address());
    true
}

/// The access gate of one relay: it admits towards one contract.
pub struct AccessGate {
    contract: Address,
}

impl AccessGate {
    /// The address of the contract that payments must go to.
    pub closed spec fn contract(&self) -> Seq<u8> {
        self.contract.bytes@
    }

    /// A gate for the contract at `contract`.
    pub fn new(contract: Address) -> (gate: AccessGate)
        ensures
            gate.contract() == contract.bytes@,
    {
        AccessGate { contract }
    }

    /// A gate for the contract whose address `text` spells; none where `text` spells
    /// no address.
    pub fn configure(text: &str) -> (gate: Option<AccessGate>)
        ensures
            match gate {
                Some(g) => fixed_hex(text@, 20) == Some(g.contract()),
                None => fixed_hex(text@, 20) is None,
            },
    {
        match parse_h160(text) {
            Some(bytes) => Some(AccessGate { contract: Address { bytes } }),
            None => None,
        }
    }

    /// The address of the contract that payments must go to.
    pub fn contract_address(&self) -> (address: Address)
        ensures
            address.bytes@ == self.contract(),
    {
        self.contract
    }

    /// Judges the oracle's answer for a transaction: admission exactly when the
    /// ledger vouches for the transaction towards the configured contract. An oracle that
    /// cannot be reached admits nobody.
    pub fn judge(&self, answer: &OracleAnswer) -> (verdict: Result<(), AccessDenied>)
        ensures
            verdict == if vouched(self.contract(), *answer) {
                Ok::<(), AccessDenied>(())
            } else {
                Err::<(), AccessDenied>(AccessDenied::Unauthorized)
            },
    {
        match answer {
            OracleAnswer::Mined(receipt) => {
                let success = match receipt.status {
                    Some(code) => code == 1,
                    None => false,
                };
                let destined = match &receipt.to {
                    Some(address) => same_address(address, &self.contract),
                    None => is_zero_address(&self.contract),
                };
                if success && destined {
                    Ok(())
                } else {
                    Err(AccessDenied::Unauthorized)
                }
            },
            _ => Err(AccessDenied::Unauthorized),
        }
    }

    /// Decides on `token`, given the oracle's answer for the transaction that the
    /// token names.
    pub fn verify(&self, token: &str, answer: &OracleAnswer) -> (verdict: Result<(), AccessDenied>)
        ensures
            verdict == decision(self.contract(), token@, *answer),
    {
        match parse_token(token) {
            Ok(_) => self.judge(answer),
            Err(why) => Err(why),
        }
    }

    /// Subscribes the bearer of `token` to `registry`, given the oracle's answer for
    /// the transaction that the token names: registered exactly when the decision is
    /// for admission. Whoever is turned away leaves the registry as it was.
    pub fn enroll(&self, token: &str, answer: &OracleAnswer, registry: &mut Registry) -> (enrolled:
        Result<Subscription, AccessDenied>)
        ensures
            match enrolled {
                Ok(subscription) => {
                    &&& decision(self.contract(), token@, *answer) is Ok
                    &&& !has_id(old(registry)@, subscription.id)
                    &&& final(registry)@.len() == old(registry)@.len() + 1
                    &&& final(registry)@.drop_last() == old(registry)@
                    &&& final(registry)@.last().id == subscription.id
                    &&& queue_limit(final(registry)@.last().outbound) == OUTBOUND_CAPACITY
                },
                Err(why) => {
                    &&& decision(self.contract(), token@, *answer) == Err::<(), AccessDenied>(why)
                    &&& final(registry)@ == old(registry)@
                },
            },
    {
        match self.verify(token, answer) {
            Ok(()) => Ok(registry.subscribe()),
            Err(why) => Err(why),
        }
    }
}

/// The answer of the gating endpoint to a decision.
pub fn response_for(verdict: &Result<(), AccessDenied>) -> (response: GateResponse)
    ensures
        response.status == status_of(*verdict),
        response.message@ == message_of(*verdict),
{
    match verdict {
        Ok(()) => GateResponse {
            status: 200,
            message: "Verifikasi berhasil. Silakan hubungkan WebSocket.".to_owned(),
        },
        Err(AccessDenied::MalformedToken) => GateResponse {
            status: 400,
            message: "Format tx_hash tidak valid.".to_owned(),
        },
        Err(AccessDenied::Unauthorized) => GateResponse {
            status: 401,
            message: "Bukti pembayaran tidak valid atau tidak ditemukan.".to_owned(),
        },
    }
}

/// Admitted are exactly the well-formed tokens whose transaction the ledger
/// reports as mined, successful and sent to the configured contract. A malformed
/// token, a failed transaction, a transaction sent elsewhere and a silent oracle are
/// all turned away.
pub proof fn lemma_admits_exactly(contract: Seq<u8>, token: Seq<char>, answer: OracleAnswer)
    ensures
        decision(contract, token, answer) is Ok <==> {
            &&& fixed_hex(token, 32) is Some
            &&& answer.finalized()
            &&& answer.successful()
            &&& answer.destination() == contract
        },
        fixed_hex(token, 32) is None ==> decision(contract, token, answer) is Err,
        !answer.successful() ==> decision(contract, token, answer) is Err,
        answer.destination() != contract ==> decision(contract, token, answer) is Err,
        answer is Unreachable ==> decision(contract, token, answer) is Err,
{
}

} // verus!
