use vstd::prelude::*;
use crate::codec::{u64_le, u64_le_bytes, i64_le_bytes};
use crate::errors::LotteryError;

verus! {

/// The SHA-256 digest of `data`: 32 bytes that depend on `data` alone.
pub uninterp spec fn sha256_of(data: Seq<u8>) -> Seq<u8>;

/// Relies on solana_program::hash::hash, which computes the SHA-256 digest
/// of its input: a pure function of the bytes, 32 bytes long.
#[verifier::external_body]
fn hash_bytes(data: &Vec<u8>) -> (r: Vec<u8>)
    ensures
        r@ == sha256_of(data@),
        r@.len() == 32,
{
    solana_program::hash::hash(data.as_slice()).to_bytes().to_vec()
}

/// The digest after hashing `seed` once and re-hashing the result a further
/// `rounds` times.
pub open spec fn chained_digest(seed: Seq<u8>, rounds: nat) -> Seq<u8>
    decreases rounds,
{
    if rounds == 0 {
        sha256_of(seed)
    } else {
        sha256_of(chained_digest(seed, (rounds - 1) as nat))
    }
}

/// The concatenation of the entropy sources, in order.
pub open spec fn concat_sources(sources: Seq<Vec<u8>>) -> Seq<u8>
    decreases sources.len(),
{
    if sources.len() == 0 {
        Seq::empty()
    } else {
        concat_sources(sources.drop_last()) + sources.last()@
    }
}

/// Derives a 32-byte digest from the given entropy sources: they are
/// concatenated in order, hashed once, and the digest is re-hashed a further
/// `rounds` times. The derivation is deterministic; unpredictability comes
/// only from the unpredictability of the sources themselves.
pub fn derive_digest(sources: &Vec<Vec<u8>>, rounds: u32) -> (r: Vec<u8>)
    ensures
        r@ == chained_digest(concat_sources(sources@), rounds as nat),
        r@.len() == 32,
{
    let mut seed: Vec<u8> = Vec::new();
    let n = sources.len();
    for i in 0..n
        invariant
            n == sources@.len(),
            seed@ == concat_sources(sources@.take(i as int)),
    {
        let m = sources[i].len();
        for j in 0..m
            invariant
                n == sources@.len(),
                i < n,
                m == sources@[i as int]@.len(),
                seed@ == concat_sources(sources@.take(i as int)) + sources@[i as int]@.take(
                    j as int,
                ),
        {
            seed.push(sources[i][j]);
            proof {
                assert(sources@[i as int]@.take(j + 1) =~= sources@[i as int]@.take(j as int).push(
                    sources@[i as int]@[j as int],
                ));
            }
        }
        proof {
            assert(sources@.take(i + 1).drop_last() =~= sources@.take(i as int));
            assert(sources@[i as int]@.take(m as int) =~= sources@[i as int]@);
        }
    }
    proof {
        assert(sources@.take(n as int) =~= sources@);
    }
    let mut h = hash_bytes(&seed);
    let mut k: u32 = 0;
    while k < rounds
        invariant
            k <= rounds,
            h@ == chained_digest(seed@, k as nat),
            h@.len() == 32,
        decreases rounds - k,
    {
        h = hash_bytes(&h);
        k = k + 1;
    }
    h
}

/// The slot and wall-clock time read from the execution environment's clock.
#[derive(Clone, Copy)]
pub struct ClockInfo {
    pub slot: u64,
    pub unix_timestamp: i64,
}

/// The entropy seed of the two time-windowed variants: caller nonce,
/// timestamp, recent chain entropy, the lottery account's stored bytes and
/// balance, and the current slot, in that order.
pub open spec fn vrf_seed(
    uuid: Seq<u8>,
    timestamp: i64,
    blockhashes: Seq<u8>,
    account_data: Seq<u8>,
    lamports: u64,
    slot: u64,
) -> Seq<u8> {
    uuid + u64_le(timestamp as u64) + blockhashes + account_data + u64_le(lamports) + u64_le(slot)
}

/// The digest the two time-windowed variants draw from: the seed is hashed
/// once and re-hashed three further times.
pub open spec fn vrf_digest(
    uuid: Seq<u8>,
    timestamp: i64,
    blockhashes: Seq<u8>,
    account_data: Seq<u8>,
    lamports: u64,
    slot: u64,
) -> Seq<u8> {
    chained_digest(vrf_seed(uuid, timestamp, blockhashes, account_data, lamports, slot), 3)
}

/// Derives the draw digest of the time-windowed variants from the public
/// entropy sources. If the recent chain entropy or the current slot is
/// unavailable, no digest is derived and the caller gets
/// `EntropyUnavailable`; stale or truncated entropy is never substituted.
pub fn generate_vrf_random_number(
    timestamp: i64,
    recent_blockhashes: &Option<Vec<u8>>,
    account_data: &Vec<u8>,
    lamports: u64,
    slot: &Option<u64>,
    uuid: &Vec<u8>,
) -> (r: Result<Vec<u8>, LotteryError>)
    requires
        timestamp >= 0,
    ensures
        match r {
            Ok(d) => {
                &&& recent_blockhashes matches Some(b) && slot matches Some(s) && d@ == vrf_digest(
                    uuid@,
                    timestamp,
                    b@,
                    account_data@,
                    lamports,
                    *s,
                )
                &&& d@.len() == 32
            },
            Err(e) => {
                &&& e == LotteryError::EntropyUnavailable
                &&& (recent_blockhashes is None || slot is None)
            },
        },
{
    let blockhashes = match recent_blockhashes {
        Some(b) => b,
        None => { return Err(LotteryError::EntropyUnavailable) },
    };
    let slot_value = match slot {
        Some(s) => *s,
        None => { return Err(LotteryError::EntropyUnavailable) },
    };
    let mut sources: Vec<Vec<u8>> = Vec::new();
    sources.push(clone_bytes(uuid));
    sources.push(i64_le_bytes(timestamp));
    sources.push(clone_bytes(blockhashes));
    sources.push(clone_bytes(account_data));
    sources.push(u64_le_bytes(lamports));
    sources.push(u64_le_bytes(slot_value));
    let digest = derive_digest(&sources, 3);
    proof {
        lemma_concat_six(sources@);
        assert(concat_sources(sources@) =~= vrf_seed(
            uuid@,
            timestamp,
            blockhashes@,
            account_data@,
            lamports,
            slot_value,
        ));
    }
    Ok(digest)
}

/// The entropy seed of the instant variant: recent chain entropy, the
/// player's identity, the current slot and wall-clock time, and the
/// caller-supplied nonce, in that order.
pub open spec fn instant_seed(
    blockhash: Seq<u8>,
    player: Seq<u8>,
    slot: u64,
    timestamp: i64,
    uuid: Seq<u8>,
) -> Seq<u8>
    recommends
        timestamp >= 0,
{
    blockhash + player + u64_le(slot) + u64_le(timestamp as u64) + uuid
}

/// Derives the instant-variant digest: its seed is hashed exactly once, as
/// every instant play carries its own independent entropy.
pub fn derive_instant_digest(
    blockhash: &Vec<u8>,
    player: &Vec<u8>,
    slot: u64,
    timestamp: i64,
    uuid: &Vec<u8>,
) -> (r: Vec<u8>)
    requires
        timestamp >= 0,
    ensures
        r@ == sha256_of(instant_seed(blockhash@, player@, slot, timestamp, uuid@)),
        r@.len() == 32,
{
    let mut sources: Vec<Vec<u8>> = Vec::new();
    sources.push(clone_bytes(blockhash));
    sources.push(clone_bytes(player));
    sources.push(u64_le_bytes(slot));
    sources.push(i64_le_bytes(timestamp));
    sources.push(clone_bytes(uuid));
    let digest = derive_digest(&sources, 0);
    proof {
        lemma_concat_five(sources@);
        assert(concat_sources(sources@) =~= instant_seed(
            blockhash@,
            player@,
            slot,
            timestamp,
            uuid@,
        ));
    }
    digest
}

/// Copies a byte vector.
pub fn clone_bytes(v: &Vec<u8>) -> (r: Vec<u8>)
    ensures
        r@ == v@,
{
    let mut r: Vec<u8> = Vec::new();
    let n = v.len();
    for i in 0..n
        invariant
            n == v@.len(),
            r@ == v@.take(i as int),
    {
        r.push(v[i]);
        proof {
            assert(v@.take(i + 1) =~= v@.take(i as int).push(v@[i as int]));
        }
    }
    proof {
        assert(v@.take(n as int) =~= v@);
    }
    r
}

/// Unfolds the source concatenation for a list of exactly five sources.
proof fn lemma_concat_five(sources: Seq<Vec<u8>>)
    requires
        sources.len() == 5,
    ensures
        concat_sources(sources) == sources[0]@ + sources[1]@ + sources[2]@ + sources[3]@
            + sources[4]@,
{
    reveal_with_fuel(concat_sources, 6);
    let s4 = sources.drop_last();
    let s3 = s4.drop_last();
    let s2 = s3.drop_last();
    let s1 = s2.drop_last();
    let s0 = s1.drop_last();
    assert(s0.len() == 0);
    assert(concat_sources(sources) == concat_sources(s4) + sources[4]@);
    assert(concat_sources(s4) == concat_sources(s3) + sources[3]@);
    assert(concat_sources(s3) == concat_sources(s2) + sources[2]@);
    assert(concat_sources(s2) == concat_sources(s1) + sources[1]@);
    assert(concat_sources(s1) == concat_sources(s0) + sources[0]@);
    assert(concat_sources(sources) =~= sources[0]@ + sources[1]@ + sources[2]@ + sources[3]@
        + sources[4]@);
}

/// Unfolds the source concatenation for a list of exactly six sources.
proof fn lemma_concat_six(sources: Seq<Vec<u8>>)
    requires
        sources.len() == 6,
    ensures
        concat_sources(sources) == sources[0]@ + sources[1]@ + sources[2]@ + sources[3]@
            + sources[4]@ + sources[5]@,
{
    reveal_with_fuel(concat_sources, 7);
    let s5 = sources.drop_last();
    let s4 = s5.drop_last();
    let s3 = s4.drop_last();
    let s2 = s3.drop_last();
    let s1 = s2.drop_last();
    let s0 = s1.drop_last();
    assert(s0.len() == 0);
    assert(concat_sources(sources) == concat_sources(s5) + sources[5]@);
    assert(concat_sources(s5) == concat_sources(s4) + sources[4]@);
    assert(concat_sources(s4) == concat_sources(s3) + sources[3]@);
    assert(concat_sources(s3) == concat_sources(s2) + sources[2]@);
    assert(concat_sources(s2) == concat_sources(s1) + sources[1]@);
    assert(concat_sources(s1) == concat_sources(s0) + sources[0]@);
    assert(concat_sources(sources) =~= sources[0]@ + sources[1]@ + sources[2]@ + sources[3]@
        + sources[4]@ + sources[5]@);
}

} // verus!
