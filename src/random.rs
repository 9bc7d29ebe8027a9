//! Pseudo-random draws: a Keccak-256 digest of the block time and a salt.
use vstd::prelude::*;

verus! {

/// The Keccak-256 digest of `input`.
pub uninterp spec fn keccak_256_of(input: Seq<u8>) -> Seq<u8>;

/// Relies on ink::env::hash_bytes with ink::env::hash::Keccak256: it writes
/// the 32-byte digest of the input into the output array.
#[verifier::external_body]
fn keccak_256(input: &Vec<u8>) -> (r: Vec<u8>)
    ensures
        r@ == keccak_256_of(input@),
        r@.len() == 32,
{
    let mut output = <ink::env::hash::Keccak256 as ink::env::hash::HashOutput>::Type::default();
    ink::env::hash_bytes::<ink::env::hash::Keccak256>(input.as_slice(), &mut output);
    output.to_vec()
}

/// The eight bytes of `x`, most significant first.
pub open spec fn be_bytes(x: u64) -> Seq<u8> {
    seq![
        (x / 0x100000000000000) as u8,
        ((x / 0x1000000000000) % 256) as u8,
        ((x / 0x10000000000) % 256) as u8,
        ((x / 0x100000000) % 256) as u8,
        ((x / 0x1000000) % 256) as u8,
        ((x / 0x10000) % 256) as u8,
        ((x / 0x100) % 256) as u8,
        (x % 256) as u8,
    ]
}

/// What a draw hashes: the block time, then the salt.
pub open spec fn seed_of(now: u64, salt: u64) -> Seq<u8> {
    be_bytes(now) + be_bytes(salt)
}

/// The value a draw at `now` with `salt` gives, in `0..=max_value`.
pub open spec fn draw_of(now: u64, salt: u64, max_value: u8) -> u8 {
    (keccak_256_of(seed_of(now, salt))[0] as nat % (max_value as nat + 1)) as u8
}

/// Appends the eight bytes of `x`, most significant first.
fn push_be_bytes(out: &mut Vec<u8>, x: u64)
    ensures
        final(out)@ == old(out)@ + be_bytes(x),
{
    out.push((x / 0x100000000000000) as u8);
    out.push(((x / 0x1000000000000) % 256) as u8);
    out.push(((x / 0x10000000000) % 256) as u8);
    out.push(((x / 0x100000000) % 256) as u8);
    out.push(((x / 0x1000000) % 256) as u8);
    out.push(((x / 0x10000) % 256) as u8);
    out.push(((x / 0x100) % 256) as u8);
    out.push((x % 256) as u8);
    assert(final(out)@ =~= old(out)@ + be_bytes(x));
}

/// A draw in `0..=max_value` from the digest of `now` and `salt`.
pub fn draw(now: u64, salt: u64, max_value: u8) -> (r: u8)
    ensures
        r == draw_of(now, salt, max_value),
        r <= max_value,
{
    let mut input: Vec<u8> = Vec::new();
    push_be_bytes(&mut input, now);
    push_be_bytes(&mut input, salt);
    assert(input@ =~= seed_of(now, salt));
    let digest = keccak_256(&input);
    let m: u16 = max_value as u16 + 1;
    (digest[0] as u16 % m) as u8
}

} // verus!
