//! Commitment digests: a commitment binds a player to a move and a secret by
//! hashing the player's identity bytes, the move's fixed byte encoding and
//! the secret with SHA-256.

use vstd::prelude::*;

use crate::types::{move_bytes, Move};
use sha2::Digest;

verus! {

/// The SHA-256 digest of a byte sequence. The digest is a function of the
/// bytes alone; it is given no definition here, only the facts the trusted
/// wrapper below states of it.
pub uninterp spec fn sha256_of(data: Seq<u8>) -> Seq<u8>;

/// Relies on `sha2::Sha256` through `digest::Digest::digest`: the result is
/// the SHA-256 digest of `data`, a function of `data` alone, and is always
/// exactly 32 bytes long.
#[verifier::external_body]
fn sha256(data: &Vec<u8>) -> (r: Vec<u8>)
    ensures
        r@ == sha256_of(data@),
        r@.len() == 32,
{
    sha2::Sha256::digest(data.as_slice()).to_vec()
}

/// The byte string a player hashes to commit to a move: the player's
/// identity bytes, then the move's fixed encoding, then the secret.
pub open spec fn commitment_preimage(id: Seq<u8>, m: Move, secret: Seq<u8>) -> Seq<u8> {
    id + move_bytes(m) + secret
}

/// The digest a player commits with: the SHA-256 digest of the commitment
/// preimage.
pub open spec fn commitment_digest(id: Seq<u8>, m: Move, secret: Seq<u8>) -> Seq<u8> {
    sha256_of(commitment_preimage(id, m, secret))
}

/// Appends all bytes of `src` to `dst`.
fn push_all(dst: &mut Vec<u8>, src: &Vec<u8>)
    ensures
        final(dst)@ == old(dst)@ + src@,
{
    let mut i: usize = 0;
    while i < src.len()
        invariant
            i <= src@.len(),
            dst@ == old(dst)@ + src@.subrange(0, i as int),
        decreases src@.len() - i,
    {
        dst.push(src[i]);
        proof {
            assert(old(dst)@ + src@.subrange(0, i as int) + seq![src@[i as int]] =~= old(
                dst,
            )@ + src@.subrange(0, i + 1));
        }
        i = i + 1;
    }
    proof {
        assert(src@.subrange(0, src@.len() as int) =~= src@);
    }
}

/// The digest that commits `id` to playing `user_move` with `secret`.
pub fn commitment(id: &Vec<u8>, user_move: Move, secret: &Vec<u8>) -> (r: Vec<u8>)
    requires
        user_move != Move::Unrevealed,
    ensures
        r@ == commitment_digest(id@, user_move, secret@),
        r@.len() == 32,
{
    let mut preimage: Vec<u8> = Vec::new();
    push_all(&mut preimage, id);
    let move_enc = user_move.as_bytes();
    push_all(&mut preimage, &move_enc);
    push_all(&mut preimage, secret);
    proof {
        assert(preimage@ =~= commitment_preimage(id@, user_move, secret@));
    }
    sha256(&preimage)
}

} // verus!
