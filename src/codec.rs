use vstd::prelude::*;
use crate::amount::Amount;
use crate::identity::Identity;

verus! {

/// The canonical signature of the asset contract's balance query.
pub const BALANCE_OF_SIGNATURE: &'static str = "balanceOf(address)";

/// The unsigned integer that `s` spells in big-endian order.
pub open spec fn be_nat(s: Seq<u8>) -> nat
    decreases s.len(),
{
    if s.len() == 0 {
        0
    } else {
        be_nat(s.drop_last()) * 256 + s.last() as nat
    }
}

/// One 32-byte ABI word holding an address: twelve zero bytes, then the
/// twenty bytes of the address.
pub open spec fn address_word(id: Identity) -> Seq<u8> {
    Seq::new(12, |i: int| 0u8) + id.bytes@
}

/// The Keccak-256 digest of the UTF-8 bytes of a text.
pub uninterp spec fn keccak_digest(text: Seq<char>) -> Seq<u8>;

/// The request payload that asks the asset contract for the balance of
/// `account`: the first four bytes of the digest of the query's signature,
/// then the account as one ABI word.
pub open spec fn balance_request(account: Identity) -> Seq<u8> {
    keccak_digest(BALANCE_OF_SIGNATURE@).subrange(0, 4) + address_word(account)
}

/// The only reply that decodes: exactly one 32-byte word.
pub open spec fn reply_decodes(data: Seq<u8>) -> bool {
    data.len() == 32
}

/// alloy_sol_types' decoding error, carried opaquely until it is described.
#[verifier::external_type_specification]
#[verifier::external_body]
pub struct ExSolError(alloy_sol_types::Error);

/// Relies on alloy_primitives::keccak256: the 32-byte Keccak-256 digest of
/// the text's bytes.
#[verifier::external_body]
fn keccak(text: &str) -> (r: Vec<u8>)
    ensures
        r@ == keccak_digest(text@),
        r@.len() == 32,
{
    alloy_primitives::keccak256(text.as_bytes()).to_vec()
}

/// Relies on alloy_sol_types' `SolType::abi_encode` for `address`: the
/// address right-aligned in one zero-padded 32-byte word.
#[verifier::external_body]
fn encode_address(id: Identity) -> (r: Vec<u8>)
    ensures
        r@ == address_word(id),
{
    <alloy_sol_types::sol_data::Address as alloy_sol_types::SolType>::abi_encode(&id.bytes)
}

/// Relies on alloy_sol_types' `SolType::abi_decode_sequence` with validation
/// for the return tuple `(uint256,)`: it reads one big-endian word and
/// accepts the data only where re-encoding gives the same bytes, that is
/// where it is exactly 32 bytes long.
#[verifier::external_body]
fn decode_uint256(data: &Vec<u8>) -> (r: Result<Amount, alloy_sol_types::Error>)
    ensures
        r is Ok <==> reply_decodes(data@),
        r is Ok ==> r->Ok_0@ == be_nat(data@),
{
    match <(alloy_sol_types::sol_data::Uint<256>,) as alloy_sol_types::SolType>::abi_decode_sequence(data, true) {
        Ok((v,)) => Ok(Amount { limbs: v.into_limbs() }),
        Err(e) => Err(e),
    }
}

/// Relies on the `Display` impl of alloy_sol_types::Error for a
/// human-readable description.
#[verifier::external_body]
fn describe(e: &alloy_sol_types::Error) -> (r: String) {
    e.to_string()
}

/// Builds a call payload: the first four bytes of the digest of the
/// function's signature, then the encoded arguments.
pub fn call_payload(signature_digest: &Vec<u8>, args: &Vec<u8>) -> (r: Vec<u8>)
    requires
        signature_digest@.len() >= 4,
    ensures
        r@ == signature_digest@.subrange(0, 4) + args@,
{
    let mut out: Vec<u8> = Vec::new();
    let mut i: usize = 0;
    while i < 4
        invariant
            i <= 4,
            signature_digest@.len() >= 4,
            out@ == signature_digest@.subrange(0, i as int),
        decreases 4 - i,
    {
        out.push(signature_digest[i]);
        i = i + 1;
        assert(out@ =~= signature_digest@.subrange(0, i as int));
    }
    let mut j: usize = 0;
    while j < args.len()
        invariant
            j <= args@.len(),
            out@ == signature_digest@.subrange(0, 4) + args@.subrange(0, j as int),
        decreases args@.len() - j,
    {
        out.push(args[j]);
        j = j + 1;
        assert(out@ =~= signature_digest@.subrange(0, 4) + args@.subrange(0, j as int));
    }
    assert(args@.subrange(0, args@.len() as int) =~= args@);
    out
}

/// Encodes the query that asks the asset contract for the balance of
/// `account`.
pub fn balance_of_request(account: Identity) -> (r: Vec<u8>)
    ensures
        r@ == balance_request(account),
{
    let digest = keccak(BALANCE_OF_SIGNATURE);
    let word = encode_address(account);
    call_payload(&digest, &word)
}

/// Decodes the asset contract's reply to a balance query: the amount that
/// the 32-byte word spells, or a description of why the reply is malformed.
pub fn decode_balance(data: &Vec<u8>) -> (r: Result<Amount, String>)
    ensures
        r is Ok <==> reply_decodes(data@),
        r is Ok ==> r->Ok_0@ == be_nat(data@),
{
    match decode_uint256(data) {
        Ok(v) => Ok(v),
        Err(e) => Err(describe(&e)),
    }
}

} // verus!
