use crate::solana_bridge::error::ErrorCode;
use vstd::bytes::{
    lemma_auto_spec_u64_to_from_le_bytes,
    spec_u64_from_le_bytes,
    spec_u64_to_le_bytes,
    u64_to_le_bytes,
};
use vstd::prelude::*;

verus! {

/// Address of the native secp256k1 signature-verification program
/// (`KeccakSecp256k11111111111111111111111111111`).
pub const SECP256K1_PROGRAM_ID: [u8; 32] = [
    4, 198, 252, 32, 240, 80, 204, 240, 85, 132, 215, 33, 28, 159, 140, 245,
    158, 193, 71, 133, 187, 22, 106, 30, 40, 48, 232, 18, 32, 0, 0, 0,
];

/// Offset of the signer address inside a single-signature secp256k1
/// instruction: one count byte and one 11-byte offsets record precede it.
pub const ETH_ADDRESS_OFFSET: u16 = 12;

/// Offset of the 64-byte signature: right after the 20-byte address.
pub const SIGNATURE_OFFSET: u16 = 32;

/// Offset of the signed message: after the signature and its recovery id.
pub const MESSAGE_OFFSET: u16 = 97;

/// An instruction of the running transaction, as read from the
/// instructions sysvar: its program, how many accounts it names, its data.
#[derive(Debug, Clone, PartialEq, Eq)]
pub struct LoadedInstruction {
    pub program_id: [u8; 32],
    pub num_accounts: usize,
    pub data: Vec<u8>,
}

/// Little-endian encoding of a `u16`.
pub open spec fn le_u16(x: u16) -> Seq<u8> {
    seq![(x % 256) as u8, (x / 256) as u8]
}

/// The data of a secp256k1 program instruction that checks one signature,
/// all of whose parts live in the instruction at `ix_index`: the count (1),
/// the offsets record (signature offset and instruction, address offset and
/// instruction, message offset, size and instruction), then the address,
/// the signature, the recovery id and the message.
pub open spec fn secp256k1_ix_data(
    ix_index: u8,
    eth_address: Seq<u8>,
    msg: Seq<u8>,
    sig: Seq<u8>,
    recovery_id: u8,
) -> Seq<u8> {
    seq![1u8] + le_u16(SIGNATURE_OFFSET) + seq![ix_index] + le_u16(ETH_ADDRESS_OFFSET) + seq![
        ix_index,
    ] + le_u16(MESSAGE_OFFSET) + le_u16(msg.len() as u16) + seq![ix_index] + eth_address + sig
        + seq![recovery_id] + msg
}

/// When a loaded instruction is the secp256k1 check of `sig` (with
/// `recovery_id`) by `eth_address` over exactly `msg`: it runs the
/// secp256k1 program, names no account, and its data is that check.
pub open spec fn secp256k1_ix_matches(
    program_id: Seq<u8>,
    num_accounts: int,
    data: Seq<u8>,
    ix_index: u8,
    eth_address: Seq<u8>,
    msg: Seq<u8>,
    sig: Seq<u8>,
    recovery_id: u8,
) -> bool {
    &&& program_id == SECP256K1_PROGRAM_ID@
    &&& num_accounts == 0
    &&& msg.len() <= u16::MAX
    &&& data == secp256k1_ix_data(ix_index, eth_address, msg, sig, recovery_id)
}

/// Appends the little-endian bytes of `x`.
fn push_u16_le(out: &mut Vec<u8>, x: u16)
    ensures
        final(out)@ == old(out)@ + le_u16(x),
{
    out.push((x % 256) as u8);
    out.push((x / 256) as u8);
    assert(final(out)@ =~= old(out)@ + le_u16(x));
}

/// Appends every byte of `bytes`.
pub fn push_bytes(out: &mut Vec<u8>, bytes: &[u8])
    ensures
        final(out)@ == old(out)@ + bytes@,
{
    let ghost start = out@;
    let mut i: usize = 0;
    while i < bytes.len()
        invariant
            i <= bytes@.len(),
            out@ == start + bytes@.subrange(0, i as int),
        decreases bytes@.len() - i,
    {
        out.push(bytes[i]);
        i = i + 1;
        assert(out@ =~= start + bytes@.subrange(0, i as int));
    }
    assert(bytes@.subrange(0, i as int) =~= bytes@);
}

/// Byte-wise equality of two slices.
pub fn bytes_eq(a: &[u8], b: &[u8]) -> (same: bool)
    ensures
        same == (a@ == b@),
{
    if a.len() != b.len() {
        return false;
    }
    let mut i: usize = 0;
    while i < a.len()
        invariant
            a@.len() == b@.len(),
            i <= a@.len(),
            forall|j: int| 0 <= j < i ==> a@[j] == b@[j],
        decreases a@.len() - i,
    {
        if a[i] != b[i] {
            return false;
        }
        i = i + 1;
    }
    assert(a@ =~= b@);
    true
}

/// Builds the data that a secp256k1 instruction checking `sig` by
/// `eth_address` over `msg` must carry.
fn expected_secp256k1_data(
    ix_index: u8,
    eth_address: &[u8; 20],
    msg: &[u8],
    sig: &[u8; 64],
    recovery_id: u8,
) -> (data: Vec<u8>)
    requires
        msg@.len() <= u16::MAX,
    ensures
        data@ == secp256k1_ix_data(ix_index, eth_address@, msg@, sig@, recovery_id),
{
    let mut data: Vec<u8> = Vec::new();
    data.push(1u8);
    push_u16_le(&mut data, SIGNATURE_OFFSET);
    data.push(ix_index);
    push_u16_le(&mut data, ETH_ADDRESS_OFFSET);
    data.push(ix_index);
    push_u16_le(&mut data, MESSAGE_OFFSET);
    push_u16_le(&mut data, msg.len() as u16);
    data.push(ix_index);
    push_bytes(&mut data, eth_address.as_slice());
    push_bytes(&mut data, sig.as_slice());
    data.push(recovery_id);
    push_bytes(&mut data, msg);
    assert(data@ =~= secp256k1_ix_data(ix_index, eth_address@, msg@, sig@, recovery_id));
    data
}

/// Checks that `ix` is the secp256k1 program's verification of `sig` (with
/// `recovery_id`) by `eth_address` over `msg`, with every part of it taken
/// from the instruction at `ix_index`. The runtime has already checked the
/// signature itself when that instruction ran; this ties it to the payout.
pub fn verify_secp256k1_ix(
    ix: &LoadedInstruction,
    ix_index: u8,
    eth_address: &[u8; 20],
    msg: &[u8],
    sig: &[u8; 64],
    recovery_id: u8,
) -> (res: Result<(), ErrorCode>)
    ensures
        res is Ok <==> secp256k1_ix_matches(
            ix.program_id@,
            ix.num_accounts as int,
            ix.data@,
            ix_index,
            eth_address@,
            msg@,
            sig@,
            recovery_id,
        ),
        res is Err ==> res == Err::<(), ErrorCode>(ErrorCode::SigVerificationFailed),
{
    if !bytes_eq(ix.program_id.as_slice(), SECP256K1_PROGRAM_ID.as_slice()) || ix.num_accounts != 0
        || msg.len() > 65535 {
        return Err(ErrorCode::SigVerificationFailed);
    }
    let expected = expected_secp256k1_data(ix_index, eth_address, msg, sig, recovery_id);
    if bytes_eq(ix.data.as_slice(), expected.as_slice()) {
        Ok(())
    } else {
        Err(ErrorCode::SigVerificationFailed)
    }
}

/// The bytes a payout signature is taken over: the 8-byte magic, the
/// payout nonce, the token name, the receiver, the amount and the chain the
/// funds come from, the integers little-endian.
pub open spec fn payout_message_bytes(
    magic: Seq<u8>,
    nonce: u64,
    token_name: Seq<u8>,
    receiver: Seq<u8>,
    amount: u64,
    from_chain_id: u64,
) -> Seq<u8> {
    magic + spec_u64_to_le_bytes(nonce) + token_name + receiver + spec_u64_to_le_bytes(amount)
        + spec_u64_to_le_bytes(from_chain_id)
}

/// Lays out the message that the bridge manager signs for a payout.
pub fn payout_message(
    magic: &[u8; 8],
    nonce: u64,
    token_name: &[u8],
    receiver: &[u8; 32],
    amount: u64,
    from_chain_id: u64,
) -> (message: Vec<u8>)
    ensures
        message@ == payout_message_bytes(
            magic@,
            nonce,
            token_name@,
            receiver@,
            amount,
            from_chain_id,
        ),
{
    let mut message: Vec<u8> = Vec::new();
    push_bytes(&mut message, magic.as_slice());
    let nonce_bytes = u64_to_le_bytes(nonce);
    push_bytes(&mut message, nonce_bytes.as_slice());
    push_bytes(&mut message, token_name);
    push_bytes(&mut message, receiver.as_slice());
    let amount_bytes = u64_to_le_bytes(amount);
    push_bytes(&mut message, amount_bytes.as_slice());
    let chain_bytes = u64_to_le_bytes(from_chain_id);
    push_bytes(&mut message, chain_bytes.as_slice());
    message
}

/// A signed payout message pins the payout down: two messages with
/// names of the same length are equal only if magic, nonce, name,
/// receiver, amount and source chain are all equal.
pub proof fn lemma_payout_message_determines_fields(
    magic1: Seq<u8>,
    nonce1: u64,
    name1: Seq<u8>,
    receiver1: Seq<u8>,
    amount1: u64,
    chain1: u64,
    magic2: Seq<u8>,
    nonce2: u64,
    name2: Seq<u8>,
    receiver2: Seq<u8>,
    amount2: u64,
    chain2: u64,
)
    requires
        magic1.len() == 8,
        magic2.len() == 8,
        receiver1.len() == 32,
        receiver2.len() == 32,
        name1.len() == name2.len(),
        payout_message_bytes(magic1, nonce1, name1, receiver1, amount1, chain1)
            == payout_message_bytes(magic2, nonce2, name2, receiver2, amount2, chain2),
    ensures
        magic1 == magic2,
        nonce1 == nonce2,
        name1 == name2,
        receiver1 == receiver2,
        amount1 == amount2,
        chain1 == chain2,
{
    lemma_auto_spec_u64_to_from_le_bytes();
    let m1 = payout_message_bytes(magic1, nonce1, name1, receiver1, amount1, chain1);
    let m2 = payout_message_bytes(magic2, nonce2, name2, receiver2, amount2, chain2);
    let n = name1.len() as int;
    assert(spec_u64_to_le_bytes(nonce1).len() == 8);
    assert(spec_u64_to_le_bytes(nonce2).len() == 8);
    assert(spec_u64_to_le_bytes(amount1).len() == 8);
    assert(spec_u64_to_le_bytes(amount2).len() == 8);
    assert(spec_u64_to_le_bytes(chain1).len() == 8);
    assert(spec_u64_to_le_bytes(chain2).len() == 8);
    assert(m1.subrange(0, 8) =~= magic1);
    assert(m2.subrange(0, 8) =~= magic2);
    assert(m1.subrange(8, 16) =~= spec_u64_to_le_bytes(nonce1));
    assert(m2.subrange(8, 16) =~= spec_u64_to_le_bytes(nonce2));
    assert(m1.subrange(16, 16 + n) =~= name1);
    assert(m2.subrange(16, 16 + n) =~= name2);
    assert(m1.subrange(16 + n, 48 + n) =~= receiver1);
    assert(m2.subrange(16 + n, 48 + n) =~= receiver2);
    assert(m1.subrange(48 + n, 56 + n) =~= spec_u64_to_le_bytes(amount1));
    assert(m2.subrange(48 + n, 56 + n) =~= spec_u64_to_le_bytes(amount2));
    assert(m1.subrange(56 + n, 64 + n) =~= spec_u64_to_le_bytes(chain1));
    assert(m2.subrange(56 + n, 64 + n) =~= spec_u64_to_le_bytes(chain2));
    assert(spec_u64_from_le_bytes(spec_u64_to_le_bytes(nonce1)) == nonce1);
    assert(spec_u64_from_le_bytes(spec_u64_to_le_bytes(nonce2)) == nonce2);
    assert(spec_u64_from_le_bytes(spec_u64_to_le_bytes(amount1)) == amount1);
    assert(spec_u64_from_le_bytes(spec_u64_to_le_bytes(amount2)) == amount2);
    assert(spec_u64_from_le_bytes(spec_u64_to_le_bytes(chain1)) == chain1);
    assert(spec_u64_from_le_bytes(spec_u64_to_le_bytes(chain2)) == chain2);
}

/// The lower-case hexadecimal digits.
pub const HEX_DIGITS: [char; 16] = [
    '0', '1', '2', '3', '4', '5', '6', '7', '8', '9', 'a', 'b', 'c', 'd', 'e', 'f',
];

/// Lower-case hexadecimal text of `bytes`, two digits per byte, high
/// nibble first.
pub open spec fn hex_lower(bytes: Seq<u8>) -> Seq<char> {
    Seq::new(
        2 * bytes.len(),
        |i: int|
            HEX_DIGITS@[if i % 2 == 0 {
                (bytes[i / 2] / 16) as int
            } else {
                (bytes[i / 2] % 16) as int
            }],
    )
}

/// Appends `c` to `s` (`String::push`).
#[verifier::external_body]
fn string_push(s: &mut String, c: char)
    ensures
        final(s)@ == old(s)@.push(c),
{
    s.push(c)
}

/// Renders `bytes` as lower-case hexadecimal, as the payout handlers log
/// the message they check.
pub fn hex_string(bytes: &[u8]) -> (text: String)
    ensures
        text@ == hex_lower(bytes@),
{
    let mut text = String::new();
    let mut i: usize = 0;
    while i < bytes.len()
        invariant
            i <= bytes@.len(),
            text@ =~= hex_lower(bytes@.subrange(0, i as int)),
        decreases bytes@.len() - i,
    {
        let b = bytes[i];
        let hi = HEX_DIGITS[(b / 16) as usize];
        let lo = HEX_DIGITS[(b % 16) as usize];
        string_push(&mut text, hi);
        string_push(&mut text, lo);
        i = i + 1;
        assert(text@ =~= hex_lower(bytes@.subrange(0, i as int)));
    }
    assert(bytes@.subrange(0, i as int) =~= bytes@);
    text
}

/// The base58 digits, in the order Solana addresses use them.
pub const BASE58_ALPHABET: [char; 58] = [
    '1', '2', '3', '4', '5', '6', '7', '8', '9', 'A', 'B', 'C', 'D', 'E', 'F', 'G', 'H', 'J', 'K',
    'L', 'M', 'N', 'P', 'Q', 'R', 'S', 'T', 'U', 'V', 'W', 'X', 'Y', 'Z', 'a', 'b', 'c', 'd', 'e',
    'f', 'g', 'h', 'i', 'j', 'k', 'm', 'n', 'o', 'p', 'q', 'r', 's', 't', 'u', 'v', 'w', 'x', 'y',
    'z'
];

/// The value of `bytes` read as a big-endian number.
pub open spec fn be_value(bytes: Seq<u8>) -> nat
    decreases bytes.len(),
{
    if bytes.len() == 0 {
        0
    } else {
        be_value(bytes.drop_last()) * 256 + bytes.last() as nat
    }
}

/// How many zero bytes `bytes` starts with.
pub open spec fn leading_zero_bytes(bytes: Seq<u8>) -> nat
    decreases bytes.len(),
{
    if bytes.len() == 0 || bytes[0] != 0 {
        0
    } else {
        1 + leading_zero_bytes(bytes.drop_first())
    }
}

/// The base58 digits of `n`, most significant first; none for zero.
pub open spec fn base58_digits(n: nat) -> Seq<char>
    decreases n,
{
    if n == 0 {
        Seq::empty()
    } else {
        base58_digits(n / 58).push(BASE58_ALPHABET@[(n % 58) as int])
    }
}

/// Base58 text of a 32-byte public key, as Solana prints addresses: a `1`
/// for every leading zero byte, then the key's big-endian value in base 58.
pub open spec fn base58_text(key: Seq<u8>) -> Seq<char> {
    Seq::new(leading_zero_bytes(key), |i: int| '1') + base58_digits(be_value(key))
}

/// Renders a public key as its base58 address (`Pubkey`'s `to_string`,
/// which encodes the key bytes with `bs58`). Claimed: the text is
/// `base58_text` of the key.
#[verifier::external_body]
pub(crate) fn pubkey_to_string(key: &[u8; 32]) -> (text: String)
    ensures
        text@ == base58_text(key@),
{
    anchor_lang::prelude::Pubkey::new_from_array(*key).to_string()
}

/// Where each part sits in a one-signature secp256k1 instruction's data:
/// one signature; signature at 32, address at 12 and message at 97, each
/// taken from instruction `ix_index`; the message length; then the address,
/// the signature, the recovery id and the message.
pub proof fn lemma_secp256k1_ix_data_layout(
    ix_index: u8,
    eth_address: Seq<u8>,
    msg: Seq<u8>,
    sig: Seq<u8>,
    recovery_id: u8,
)
    requires
        eth_address.len() == 20,
        sig.len() == 64,
        msg.len() <= u16::MAX,
    ensures
        ({
            let d = secp256k1_ix_data(ix_index, eth_address, msg, sig, recovery_id);
            &&& d.len() == 97 + msg.len()
            &&& d[0] == 1
            &&& d[1] == 32 && d[2] == 0
            &&& d[3] == ix_index
            &&& d[4] == 12 && d[5] == 0
            &&& d[6] == ix_index
            &&& d[7] == 97 && d[8] == 0
            &&& d[9] + 256 * d[10] == msg.len()
            &&& d[11] == ix_index
            &&& d.subrange(12, 32) == eth_address
            &&& d.subrange(32, 96) == sig
            &&& d[96] == recovery_id
            &&& d.subrange(97, d.len() as int) == msg
        }),
{
    let d = secp256k1_ix_data(ix_index, eth_address, msg, sig, recovery_id);
    assert(d.subrange(12, 32) =~= eth_address);
    assert(d.subrange(32, 96) =~= sig);
    assert(d.subrange(97, d.len() as int) =~= msg);
}

/// Where each field sits in a payout message: the magic in bytes 0..8, the
/// nonce in 8..16, the name next, then the receiver, the amount and the
/// source chain, the integers little-endian.
pub proof fn lemma_payout_message_layout(
    magic: Seq<u8>,
    nonce: u64,
    name: Seq<u8>,
    receiver: Seq<u8>,
    amount: u64,
    from_chain_id: u64,
)
    requires
        magic.len() == 8,
        receiver.len() == 32,
    ensures
        ({
            let m = payout_message_bytes(magic, nonce, name, receiver, amount, from_chain_id);
            let n = name.len() as int;
            &&& m.len() == 64 + n
            &&& m.subrange(0, 8) == magic
            &&& spec_u64_from_le_bytes(m.subrange(8, 16)) == nonce
            &&& m.subrange(16, 16 + n) == name
            &&& m.subrange(16 + n, 48 + n) == receiver
            &&& spec_u64_from_le_bytes(m.subrange(48 + n, 56 + n)) == amount
            &&& spec_u64_from_le_bytes(m.subrange(56 + n, 64 + n)) == from_chain_id
        }),
{
    lemma_auto_spec_u64_to_from_le_bytes();
    let m = payout_message_bytes(magic, nonce, name, receiver, amount, from_chain_id);
    let n = name.len() as int;
    assert(spec_u64_to_le_bytes(nonce).len() == 8);
    assert(spec_u64_to_le_bytes(amount).len() == 8);
    assert(spec_u64_to_le_bytes(from_chain_id).len() == 8);
    assert(m.subrange(0, 8) =~= magic);
    assert(m.subrange(8, 16) =~= spec_u64_to_le_bytes(nonce));
    assert(m.subrange(16, 16 + n) =~= name);
    assert(m.subrange(16 + n, 48 + n) =~= receiver);
    assert(m.subrange(48 + n, 56 + n) =~= spec_u64_to_le_bytes(amount));
    assert(m.subrange(56 + n, 64 + n) =~= spec_u64_to_le_bytes(from_chain_id));
}

/// An instruction passes the secp256k1 check exactly when it runs the
/// secp256k1 program, names no account, and its data is the one-signature
/// check of `sig` by `eth_address` over `msg` from instruction `ix_index`.
pub proof fn lemma_secp256k1_ix_matches_exactly(
    program_id: Seq<u8>,
    num_accounts: int,
    data: Seq<u8>,
    ix_index: u8,
    eth_address: Seq<u8>,
    msg: Seq<u8>,
    sig: Seq<u8>,
    recovery_id: u8,
)
    ensures
        secp256k1_ix_matches(
            program_id,
            num_accounts,
            data,
            ix_index,
            eth_address,
            msg,
            sig,
            recovery_id,
        ) <==> (program_id == seq![
            4u8, 198, 252, 32, 240, 80, 204, 240, 85, 132, 215, 33, 28, 159, 140, 245,
            158, 193, 71, 133, 187, 22, 106, 30, 40, 48, 232, 18, 32, 0, 0, 0,
        ] && num_accounts == 0 && msg.len() <= u16::MAX && data == secp256k1_ix_data(
            ix_index,
            eth_address,
            msg,
            sig,
            recovery_id,
        )),
{
    assert(SECP256K1_PROGRAM_ID@ =~= seq![
        4u8, 198, 252, 32, 240, 80, 204, 240, 85, 132, 215, 33, 28, 159, 140, 245,
        158, 193, 71, 133, 187, 22, 106, 30, 40, 48, 232, 18, 32, 0, 0, 0,
    ]);
}

} // verus!
