use vstd::prelude::*;

use crate::account::{Harvest, Key, ResourceField};
use crate::constant::{
    RESOURCE_COUNT, RF_CHANCE, RF_MAX_TIMER, RF_MAX_YIELD, RF_MIN_TIMER, RF_MIN_YIELD,
};
use crate::error::PocketErrors;

verus! {

/// The unsigned integer that the bytes `s` spell, most significant first.
pub open spec fn be_value(s: Seq<u8>) -> nat
    decreases s.len(),
{
    if s.len() == 0 {
        0
    } else {
        be_value(s.drop_last()) * 256 + s.last() as nat
    }
}

/// The eight bytes of `x`, most significant first.
pub open spec fn be_bytes(x: u64) -> Seq<u8> {
    seq![
        ((x >> 56u64) & 0xffu64) as u8,
        ((x >> 48u64) & 0xffu64) as u8,
        ((x >> 40u64) & 0xffu64) as u8,
        ((x >> 32u64) & 0xffu64) as u8,
        ((x >> 24u64) & 0xffu64) as u8,
        ((x >> 16u64) & 0xffu64) as u8,
        ((x >> 8u64) & 0xffu64) as u8,
        (x & 0xffu64) as u8,
    ]
}

pub open spec fn pow256(n: nat) -> nat
    decreases n,
{
    if n == 0 {
        1
    } else {
        256 * pow256((n - 1) as nat)
    }
}

proof fn lemma_pow256_mono(a: nat, b: nat)
    requires
        a <= b,
    ensures
        pow256(a) <= pow256(b),
    decreases b,
{
    if a < b {
        lemma_pow256_mono(a, (b - 1) as nat);
    }
}

/// Reads the eight bytes at `start` as a big-endian integer.
pub fn read_u64_be(d: &Vec<u8>, start: usize) -> (r: u64)
    requires
        start + 8 <= d@.len(),
    ensures
        r as nat == be_value(d@.subrange(start as int, start + 8)),
{
    let mut acc: u64 = 0;
    let n: usize = d.len();
    assert(start + 8 <= n);
    let end: usize = start + 8;
    let mut i: usize = start;
    proof {
        assert(d@.subrange(start as int, start as int).len() == 0);
        reveal_with_fuel(pow256, 8);
    }
    while i < end
        invariant
            end == start + 8,
            start <= i <= end,
            start + 8 <= d@.len(),
            acc as nat == be_value(d@.subrange(start as int, i as int)),
            be_value(d@.subrange(start as int, i as int)) < pow256((i - start) as nat),
            pow256(7) == 0x100000000000000,
        decreases end - i,
    {
        let b = d[i];
        let ghost k = (i - start) as nat;
        proof {
            lemma_pow256_mono(k, 7);
            let prev = d@.subrange(start as int, i as int);
            let next = d@.subrange(start as int, i + 1);
            assert(next.drop_last() =~= prev);
            assert(next.last() == b);
            let v = be_value(prev);
            let p = pow256(k);
            assert(v * 256 + b as nat <= (p - 1) * 256 + 255) by (nonlinear_arith)
                requires v < p, b < 256;
            assert(pow256(k + 1) == 256 * p);
        }
        acc = acc * 256 + b as u64;
        i += 1;
    }
    acc
}

/// Appends the eight big-endian bytes of `x` to `v`.
fn push_be_bytes(v: &mut Vec<u8>, x: u64)
    ensures
        final(v)@ == old(v)@ + be_bytes(x),
{
    v.push(((x >> 56u64) & 0xffu64) as u8);
    v.push(((x >> 48u64) & 0xffu64) as u8);
    v.push(((x >> 40u64) & 0xffu64) as u8);
    v.push(((x >> 32u64) & 0xffu64) as u8);
    v.push(((x >> 24u64) & 0xffu64) as u8);
    v.push(((x >> 16u64) & 0xffu64) as u8);
    v.push(((x >> 8u64) & 0xffu64) as u8);
    v.push((x & 0xffu64) as u8);
    assert(final(v)@ =~= old(v)@ + be_bytes(x));
}

/// The SHA-256 digest of a byte string.
pub uninterp spec fn sha256_of(data: Seq<u8>) -> Seq<u8>;

/// Relies on `anchor_lang::solana_program::hash::hash`: the SHA-256 digest of
/// `data` as its 32 bytes; the digest depends on the bytes alone.
#[verifier::external_body]
fn sha256(data: &Vec<u8>) -> (r: Vec<u8>)
    ensures
        r@ == sha256_of(data@),
        r@.len() == 32,
{
    anchor_lang::solana_program::hash::hash(data.as_slice()).to_bytes().to_vec()
}

/// What is hashed for one development attempt: the external counter, then
/// the number of earlier attempts, each as eight big-endian bytes.
pub open spec fn development_input(counter: u64, times_developed: u64) -> Seq<u8> {
    be_bytes(counter) + be_bytes(times_developed)
}

/// The `k`-th of the four eight-byte windows of a 32-byte digest.
pub open spec fn window(d: Seq<u8>, k: int) -> nat {
    be_value(d.subrange(8 * k, 8 * k + 8))
}

/// The discovery roll: the first window scaled to `0..=RF_CHANCE`, plus the
/// number of earlier attempts.
pub open spec fn roll_of(d: Seq<u8>, times_developed: u64) -> int {
    window(d, 0) as int / (u64::MAX as int / RF_CHANCE as int) + times_developed
}

/// Whether the roll finds a resource field.
pub open spec fn discovers(d: Seq<u8>, times_developed: u64) -> bool {
    roll_of(d, times_developed) >= RF_CHANCE
}

/// Index of the resource kind, from the second window.
pub open spec fn resource_type_of(d: Seq<u8>) -> u64 {
    (window(d, 1) % RESOURCE_COUNT as nat) as u64
}

/// Yield per harvest, the third window mapped linearly onto
/// `RF_MIN_YIELD..=RF_MAX_YIELD`.
pub open spec fn yield_of(d: Seq<u8>) -> u64 {
    (RF_MIN_YIELD + window(d, 2) / (u64::MAX as nat / (RF_MAX_YIELD - RF_MIN_YIELD) as nat)) as u64
}

/// Refresh interval, the fourth window mapped linearly onto
/// `RF_MIN_TIMER..=RF_MAX_TIMER`.
pub open spec fn refresh_of(d: Seq<u8>) -> u64 {
    (RF_MIN_TIMER + window(d, 3) / (u64::MAX as nat / (RF_MAX_TIMER - RF_MIN_TIMER) as nat)) as u64
}

/// The field after one development attempt that hashed to `d`.
pub open spec fn developed(rf: ResourceField, d: Seq<u8>, claimant: Key) -> ResourceField {
    if discovers(d, rf.times_developed) {
        ResourceField {
            harvest: Some(Harvest { resource_type: resource_type_of(d), harvest: yield_of(d) }),
            refresh_seconds: Some(refresh_of(d)),
            is_harvestable: true,
            initial_claimant: Some(claimant),
            times_developed: (rf.times_developed + 1) as u64,
            ..rf
        }
    } else {
        ResourceField { times_developed: (rf.times_developed + 1) as u64, ..rf }
    }
}

/// The harvest of a developed field lies in its documented ranges: a kind
/// below `RESOURCE_COUNT`, a yield in `RF_MIN_YIELD..=RF_MAX_YIELD` and a
/// refresh interval in `RF_MIN_TIMER..=RF_MAX_TIMER`.
pub open spec fn harvest_in_range(rf: ResourceField) -> bool {
    &&& rf.harvest is Some
    &&& rf.refresh_seconds is Some
    &&& rf.harvest->0.resource_type < RESOURCE_COUNT
    &&& RF_MIN_YIELD <= rf.harvest->0.harvest <= RF_MAX_YIELD
    &&& RF_MIN_TIMER <= rf.refresh_seconds->0 <= RF_MAX_TIMER
}

/// Scaling the largest window by `u64::MAX / n` gives exactly `n`, for the
/// two spans used.
proof fn lemma_scale_tops()
    ensures
        u64::MAX as int / (u64::MAX as int / 10) == 10,
        u64::MAX as int / (u64::MAX as int / 6900000) == 6900000,
{
    let m = u64::MAX as int;
    vstd::arithmetic::div_mod::lemma_fundamental_div_mod(m, 10);
    vstd::arithmetic::div_mod::lemma_mod_pos_bound(m, 10);
    let q2 = m / 10;
    assert(q2 == 1844674407370955161);
    vstd::arithmetic::div_mod::lemma_fundamental_div_mod(m, q2);
    vstd::arithmetic::div_mod::lemma_mod_pos_bound(m, q2);
    assert(m / q2 == 10) by (nonlinear_arith)
        requires
            m == q2 * (m / q2) + m % q2,
            0 <= m % q2 < q2,
            q2 == 1844674407370955161,
            m == 18446744073709551615,
    ;
    vstd::arithmetic::div_mod::lemma_fundamental_div_mod(m, 6900000);
    vstd::arithmetic::div_mod::lemma_mod_pos_bound(m, 6900000);
    let q3 = m / 6900000;
    assert(q3 == 2673441170102);
    vstd::arithmetic::div_mod::lemma_fundamental_div_mod(m, q3);
    vstd::arithmetic::div_mod::lemma_mod_pos_bound(m, q3);
    assert(m / q3 == 6900000) by (nonlinear_arith)
        requires
            m == q3 * (m / q3) + m % q3,
            0 <= m % q3 < q3,
            q3 == 2673441170102,
            m == 18446744073709551615,
    ;
}

/// A fresh field: not developed, no harvest, no claimant, no attempts.
pub fn allocate_resource_field(id: String) -> (rf: ResourceField)
    ensures
        rf.id == id,
        rf.harvest is None,
        rf.refresh_seconds is None,
        !rf.is_harvestable,
        rf.initial_claimant is None,
        rf.times_developed == 0,
{
    ResourceField {
        id,
        harvest: None,
        refresh_seconds: None,
        is_harvestable: false,
        initial_claimant: None,
        times_developed: 0,
    }
}

/// One development attempt whose hash is `digest`: a field that is already
/// harvestable is refused; otherwise the roll decides whether the field
/// becomes harvestable for `claimant`, and the attempt is counted either way.
pub fn apply_development(rf: &mut ResourceField, digest: &Vec<u8>, claimant: Key) -> (r: Result<
    (),
    PocketErrors,
>)
    requires
        digest@.len() == 32,
        !old(rf).is_harvestable ==> old(rf).times_developed < u64::MAX,
    ensures
        old(rf).is_harvestable ==> r == Err::<(), PocketErrors>(
            PocketErrors::ResourceFieldAlreadyDeveloped,
        ) && *final(rf) == *old(rf),
        !old(rf).is_harvestable ==> r is Ok && *final(rf) == developed(*old(rf), digest@, claimant),
        !old(rf).is_harvestable && final(rf).is_harvestable ==> harvest_in_range(*final(rf)),
        !old(rf).is_harvestable ==> final(rf).times_developed == old(rf).times_developed + 1,
{
    if rf.is_harvestable {
        return Err(PocketErrors::ResourceFieldAlreadyDeveloped);
    }
    let ghost d = digest@;
    let w0 = read_u64_be(digest, 0);
    let base = w0 / (u64::MAX / RF_CHANCE);
    let found = if base >= RF_CHANCE {
        true
    } else {
        rf.times_developed >= RF_CHANCE - base
    };
    assert(found == discovers(d, rf.times_developed));
    if found {
        let w1 = read_u64_be(digest, 8);
        let w2 = read_u64_be(digest, 16);
        let w3 = read_u64_be(digest, 24);
        let q2 = u64::MAX / (RF_MAX_YIELD - RF_MIN_YIELD);
        let q3 = u64::MAX / (RF_MAX_TIMER - RF_MIN_TIMER);
        assert(RF_MAX_YIELD - RF_MIN_YIELD == 10);
        assert(RF_MAX_TIMER - RF_MIN_TIMER == 6900000);
        assert(q2 > 0);
        assert(q3 > 0);
        assert(w2 / q2 <= u64::MAX / q2) by {
            vstd::arithmetic::div_mod::lemma_div_is_ordered(w2 as int, u64::MAX as int, q2 as int);
        }
        assert(w3 / q3 <= u64::MAX / q3) by {
            vstd::arithmetic::div_mod::lemma_div_is_ordered(w3 as int, u64::MAX as int, q3 as int);
        }
        proof {
            lemma_scale_tops();
        }
        rf.harvest = Some(Harvest { resource_type: w1 % RESOURCE_COUNT, harvest: RF_MIN_YIELD + w2 / q2 });
        rf.refresh_seconds = Some(RF_MIN_TIMER + w3 / q3);
        rf.is_harvestable = true;
        rf.initial_claimant = Some(claimant);
    }
    rf.times_developed = rf.times_developed + 1;
    Ok(())
}

/// One development attempt at external counter value `counter` (a slot
/// number, say): hashes the counter and the number of earlier attempts and
/// applies the result as `apply_development` does.
pub fn develop_resource_field(rf: &mut ResourceField, counter: u64, claimant: Key) -> (r: Result<
    (),
    PocketErrors,
>)
    requires
        !old(rf).is_harvestable ==> old(rf).times_developed < u64::MAX,
    ensures
        old(rf).is_harvestable ==> r == Err::<(), PocketErrors>(
            PocketErrors::ResourceFieldAlreadyDeveloped,
        ) && *final(rf) == *old(rf),
        !old(rf).is_harvestable ==> r is Ok && *final(rf) == developed(
            *old(rf),
            sha256_of(development_input(counter, old(rf).times_developed)),
            claimant,
        ),
        !old(rf).is_harvestable ==> sha256_of(development_input(counter, old(rf).times_developed)).len()
            == 32,
        !old(rf).is_harvestable && final(rf).is_harvestable ==> harvest_in_range(*final(rf)),
        !old(rf).is_harvestable ==> final(rf).times_developed == old(rf).times_developed + 1,
{
    if rf.is_harvestable {
        return Err(PocketErrors::ResourceFieldAlreadyDeveloped);
    }
    let mut input: Vec<u8> = Vec::new();
    push_be_bytes(&mut input, counter);
    push_be_bytes(&mut input, rf.times_developed);
    assert(input@ =~= development_input(counter, rf.times_developed));
    let digest = sha256(&input);
    apply_development(rf, &digest, claimant)
}

/// More earlier attempts never lower the roll, so a digest that finds a field
/// after `t1` attempts also finds one after any `t2 >= t1`.
pub proof fn lemma_pity_never_hurts(d: Seq<u8>, t1: u64, t2: u64)
    requires
        t1 <= t2,
    ensures
        roll_of(d, t1) <= roll_of(d, t2),
        discovers(d, t1) ==> discovers(d, t2),
{
}

/// After `RF_CHANCE` attempts every digest finds a field.
pub proof fn lemma_pity_guarantees(d: Seq<u8>, t: u64)
    requires
        t >= RF_CHANCE,
    ensures
        discovers(d, t),
{
    let q = u64::MAX as int / RF_CHANCE as int;
    assert(window(d, 0) as int / q >= 0) by {
        vstd::arithmetic::div_mod::lemma_div_pos_is_pos(window(d, 0) as int, q);
    }
}


/// Decides whether a resource field may be deleted: nothing refers to one,
/// so it always may. The store removes the record on `Ok`.
pub fn delete_resource_field(resource_field: &ResourceField) -> (r: Result<(), PocketErrors>)
    ensures
        r is Ok,
{
    Ok(())
}

} // verus!
