//! How the collection stores the owner of each domain: an alkane id as 32
//! bytes, the block and then the number in the block, each a little-endian
//! `u128`; and what a mint or a transfer writes.

use vstd::prelude::*;

use crate::domains::{
    AlkaneId, DomainError, DOMAIN_ORBITAL_TEMPLATE_ID, INSTANCE_BLOCK, INSTANCE_ID_BYTES,
};

verus! {

/// `256` to the power `n`.
pub open spec fn byte_radix(n: nat) -> nat
    decreases n,
{
    if n == 0 {
        1
    } else {
        256 * byte_radix((n - 1) as nat)
    }
}

/// The `n` low bytes of `v`, least significant first.
pub open spec fn le_bytes(v: nat, n: nat) -> Seq<u8>
    decreases n,
{
    if n == 0 {
        Seq::empty()
    } else {
        seq![(v % 256) as u8] + le_bytes(v / 256, (n - 1) as nat)
    }
}

/// The number that bytes denote, least significant first.
pub open spec fn le_value(s: Seq<u8>) -> nat
    decreases s.len(),
{
    if s.len() == 0 {
        0
    } else {
        s[0] as nat + 256 * le_value(s.drop_first())
    }
}

/// The stored form of an alkane id.
pub open spec fn alkane_id_bytes(id: AlkaneId) -> Seq<u8> {
    le_bytes(id.block as nat, 16) + le_bytes(id.tx as nat, 16)
}

/// The alkane id that 32 stored bytes denote.
pub open spec fn alkane_id_of(s: Seq<u8>) -> AlkaneId {
    AlkaneId {
        block: le_value(s.subrange(0, 16)) as u128,
        tx: le_value(s.subrange(16, 32)) as u128,
    }
}

/// `256^16` is `2^128`, one more than the largest `u128`.
pub proof fn lemma_byte_radix_16()
    ensures
        byte_radix(16) == u128::MAX + 1,
{
    reveal_with_fuel(byte_radix, 17);
    assert(byte_radix(16) == 0x1_0000_0000_0000_0000_0000_0000_0000_0000);
}

/// Powers of 256 grow with the exponent.
pub proof fn lemma_byte_radix_monotone(a: nat, b: nat)
    requires
        a <= b,
    ensures
        1 <= byte_radix(a) <= byte_radix(b),
    decreases b,
{
    if b > 0 {
        if a < b {
            lemma_byte_radix_monotone(a, (b - 1) as nat);
        }
        lemma_byte_radix_monotone(0, (b - 1) as nat);
    }
}

/// `n` bytes hold less than `256^n`.
pub proof fn lemma_le_value_bound(s: Seq<u8>)
    ensures
        le_value(s) < byte_radix(s.len()),
    decreases s.len(),
{
    if s.len() > 0 {
        lemma_le_value_bound(s.drop_first());
    }
}

/// Writing a number below `256^n` in `n` bytes and reading it back gives the number.
pub proof fn lemma_le_round_trip(v: nat, n: nat)
    requires
        v < byte_radix(n),
    ensures
        le_bytes(v, n).len() == n,
        le_value(le_bytes(v, n)) == v,
    decreases n,
{
    if n > 0 {
        lemma_le_round_trip(v / 256, (n - 1) as nat);
        let b = le_bytes(v, n);
        assert(b.drop_first() =~= le_bytes(v / 256, (n - 1) as nat));
        assert(v == v % 256 + 256 * (v / 256));
    }
}

/// Reading `n` bytes and writing the number back in `n` bytes gives the bytes.
pub proof fn lemma_le_bytes_of_value(s: Seq<u8>)
    ensures
        le_bytes(le_value(s), s.len()) == s,
    decreases s.len(),
{
    if s.len() > 0 {
        let r = le_value(s.drop_first());
        let v = le_value(s);
        lemma_le_bytes_of_value(s.drop_first());
        assert(v == s[0] as nat + 256 * r);
        assert(v % 256 == s[0] as nat);
        assert(v / 256 == r);
        assert(le_bytes(v, s.len()) =~= seq![s[0]] + s.drop_first());
        assert(s =~= seq![s[0]] + s.drop_first());
    }
}

/// Reading back a stored id gives the id.
pub proof fn lemma_alkane_id_round_trip(id: AlkaneId)
    ensures
        alkane_id_bytes(id).len() == 32,
        alkane_id_of(alkane_id_bytes(id)) == id,
{
    lemma_byte_radix_16();
    lemma_le_round_trip(id.block as nat, 16);
    lemma_le_round_trip(id.tx as nat, 16);
    let s = alkane_id_bytes(id);
    assert(s.subrange(0, 16) =~= le_bytes(id.block as nat, 16));
    assert(s.subrange(16, 32) =~= le_bytes(id.tx as nat, 16));
}

/// Every 32-byte record is the stored form of the id it denotes.
pub proof fn lemma_alkane_id_bytes_round_trip(s: Seq<u8>)
    requires
        s.len() == 32,
    ensures
        alkane_id_bytes(alkane_id_of(s)) == s,
{
    let lo = s.subrange(0, 16);
    let hi = s.subrange(16, 32);
    lemma_byte_radix_16();
    lemma_le_value_bound(lo);
    lemma_le_value_bound(hi);
    lemma_le_bytes_of_value(lo);
    lemma_le_bytes_of_value(hi);
    assert(s =~= lo + hi);
}

/// The 16 little-endian bytes of `v`.
fn u128_le_bytes(v: u128, out: &mut Vec<u8>)
    ensures
        final(out)@ == old(out)@ + le_bytes(v as nat, 16),
{
    let ghost start = out@;
    let mut cur: u128 = v;
    let mut i: usize = 0;
    while i < 16
        invariant
            i <= 16,
            start + le_bytes(v as nat, 16) == out@ + le_bytes(cur as nat, (16 - i) as nat),
        decreases 16 - i,
    {
        let ghost before = out@;
        let ghost old_cur = cur;
        let ghost k = (16 - i) as nat;
        assert(le_bytes(cur as nat, k) == seq![(cur % 256) as u8] + le_bytes(
            (cur / 256) as nat,
            (k - 1) as nat,
        ));
        out.push((cur % 256) as u8);
        cur = cur / 256;
        i = i + 1;
        assert(before + le_bytes(old_cur as nat, k) =~= out@ + le_bytes(cur as nat, (k - 1) as nat));
    }
    assert(le_bytes(cur as nat, 0) =~= Seq::<u8>::empty());
    assert(out@ =~= start + le_bytes(v as nat, 16));
}

/// The number that 16 little-endian bytes of `bytes` starting at `start` denote.
fn u128_from_le_bytes(bytes: &[u8], start: usize) -> (v: u128)
    requires
        start + 16 <= bytes@.len(),
    ensures
        v == le_value(bytes@.subrange(start as int, start + 16)),
{
    let mut acc: u128 = 0;
    let mut i: usize = 16;
    proof {
        lemma_byte_radix_16();
        assert(bytes@.subrange(start + 16, start + 16) =~= Seq::<u8>::empty());
    }
    while i > 0
        invariant
            i <= 16,
            start + 16 <= bytes.len(),
            acc == le_value(bytes@.subrange(start + i, start + 16)),
            acc < byte_radix((16 - i) as nat),
            byte_radix(16) == u128::MAX + 1,
        decreases i,
    {
        let ghost prev = bytes@.subrange(start + i, start + 16);
        let b = bytes[start + i - 1];
        proof {
            lemma_byte_radix_monotone((17 - i) as nat, 16);
            assert(byte_radix((17 - i) as nat) == 256 * byte_radix((16 - i) as nat));
            let next = bytes@.subrange(start + i - 1, start + 16);
            assert(next.drop_first() =~= prev);
            assert(next[0] == b);
        }
        acc = acc * 256 + b as u128;
        i = i - 1;
    }
    acc
}

/// The 16 little-endian bytes of a number, as an instance index is written in a
/// storage key and the total supply in an answer.
pub fn encode_u128(v: u128) -> (bytes: Vec<u8>)
    ensures
        bytes@ == le_bytes(v as nat, 16),
        le_value(bytes@) == v,
{
    let mut bytes: Vec<u8> = Vec::new();
    u128_le_bytes(v, &mut bytes);
    proof {
        lemma_byte_radix_16();
        lemma_le_round_trip(v as nat, 16);
    }
    assert(bytes@ =~= le_bytes(v as nat, 16));
    bytes
}

/// The stored form of an alkane id: 32 bytes, the block and then the number in
/// the block, each little-endian.
pub fn encode_alkane_id(id: &AlkaneId) -> (bytes: Vec<u8>)
    ensures
        bytes@ == alkane_id_bytes(*id),
        bytes@.len() == INSTANCE_ID_BYTES,
        alkane_id_of(bytes@) == *id,
{
    let mut bytes: Vec<u8> = Vec::new();
    u128_le_bytes(id.block, &mut bytes);
    u128_le_bytes(id.tx, &mut bytes);
    proof {
        lemma_alkane_id_round_trip(*id);
    }
    assert(bytes@ =~= alkane_id_bytes(*id));
    bytes
}

/// Reads a stored alkane id; a record that is not 32 bytes long is refused.
pub fn decode_alkane_id(bytes: &[u8]) -> (res: Result<AlkaneId, DomainError>)
    ensures
        bytes@.len() == INSTANCE_ID_BYTES ==> res == Ok::<AlkaneId, DomainError>(
            alkane_id_of(bytes@),
        ),
        bytes@.len() != INSTANCE_ID_BYTES ==> res == Err::<AlkaneId, DomainError>(
            DomainError::InvalidInstanceData,
        ),
        res matches Ok(id) ==> alkane_id_bytes(id) == bytes@,
{
    if bytes.len() != INSTANCE_ID_BYTES {
        return Err(DomainError::InvalidInstanceData);
    }
    let block = u128_from_le_bytes(bytes, 0);
    let tx = u128_from_le_bytes(bytes, 16);
    proof {
        lemma_alkane_id_bytes_round_trip(bytes@);
    }
    Ok(AlkaneId { block, tx })
}

/// The outcome of a transfer of a domain whose stored owner record is `record`,
/// asked by `sender`, to `to`: the record to store in its place, or why the
/// transfer is refused. A missing sender is refused first, then a malformed
/// record, then a sender that is not the stored owner.
pub open spec fn transfer_outcome(sender: Option<AlkaneId>, record: Seq<u8>, to: AlkaneId) -> Result<
    Seq<u8>,
    DomainError,
> {
    if sender is None {
        Err(DomainError::MissingSender)
    } else if record.len() != 32 {
        Err(DomainError::InvalidInstanceData)
    } else if sender->0 != alkane_id_of(record) {
        Err(DomainError::NotOwner)
    } else {
        Ok(alkane_id_bytes(to))
    }
}

/// Decides a transfer of a domain to `to`: only the owner named by the stored
/// record may make it. Returns the record to store in place of the old one.
pub fn transfer_domain(sender: Option<AlkaneId>, current_record: &[u8], to: &AlkaneId) -> (res: Result<
    Vec<u8>,
    DomainError,
>)
    ensures
        res matches Ok(v) ==> transfer_outcome(sender, current_record@, *to) == Ok::<
            Seq<u8>,
            DomainError,
        >(v@),
        res matches Err(e) ==> transfer_outcome(sender, current_record@, *to) == Err::<
            Seq<u8>,
            DomainError,
        >(e),
        sender is None ==> res == Err::<Vec<u8>, DomainError>(DomainError::MissingSender),
        sender is Some && current_record@.len() != 32 ==> res == Err::<Vec<u8>, DomainError>(
            DomainError::InvalidInstanceData,
        ),
        sender is Some && current_record@.len() == 32 && sender->0 != alkane_id_of(
            current_record@,
        ) ==> res == Err::<Vec<u8>, DomainError>(DomainError::NotOwner),
        sender is Some && current_record@.len() == 32 && sender->0 == alkane_id_of(
            current_record@,
        ) ==> res is Ok,
        res matches Ok(v) ==> v@.len() == 32 && alkane_id_of(v@) == *to && sender == Some(
            alkane_id_of(current_record@),
        ),
{
    let caller = match sender {
        Some(c) => c,
        None => {
            return Err(DomainError::MissingSender);
        },
    };
    let current_owner = match decode_alkane_id(current_record) {
        Ok(owner) => owner,
        Err(e) => {
            return Err(e);
        },
    };
    if caller != current_owner {
        return Err(DomainError::NotOwner);
    }
    proof {
        lemma_alkane_id_round_trip(*to);
    }
    Ok(encode_alkane_id(to))
}

/// After a transfer to `to`, the stored record names `to`, and exactly `to`
/// may transfer the domain next.
pub proof fn lemma_transfer_hands_over(
    sender: Option<AlkaneId>,
    record: Seq<u8>,
    to: AlkaneId,
    next_sender: AlkaneId,
    next_to: AlkaneId,
)
    requires
        transfer_outcome(sender, record, to) is Ok,
    ensures
        alkane_id_of(transfer_outcome(sender, record, to)->Ok_0) == to,
        transfer_outcome(Some(next_sender), transfer_outcome(sender, record, to)->Ok_0, next_to)
            is Ok <==> next_sender == to,
{
    lemma_alkane_id_round_trip(to);
}

/// What minting the next domain writes, given the number of instances
/// recorded before the mint.
pub struct MintPlan {
    /// The template from which the domain orbital is made.
    pub template: AlkaneId,
    /// The inputs of the call that makes the orbital.
    pub orbital_inputs: Vec<u128>,
    /// The id recorded for the new domain; its number is also the key under
    /// which the name and the owner record are stored.
    pub instance: AlkaneId,
    /// The stored form of `instance`.
    pub instance_record: Vec<u8>,
    /// The number of instances recorded after the mint.
    pub next_count: u128,
}

/// Plans the bookkeeping of a mint when `count` instances are recorded: the
/// orbital is made with inputs `[0, count]` and the count goes up by one; the
/// new domain is then recorded under the count at that point, which goes up
/// by one again.
pub fn plan_mint(count: u128) -> (plan: MintPlan)
    requires
        count <= u128::MAX - 2,
    ensures
        plan.template == (AlkaneId { block: INSTANCE_BLOCK, tx: DOMAIN_ORBITAL_TEMPLATE_ID }),
        plan.orbital_inputs@ == seq![0u128, count],
        plan.instance == (AlkaneId { block: INSTANCE_BLOCK, tx: (count + 1) as u128 }),
        plan.instance_record@ == alkane_id_bytes(plan.instance),
        plan.next_count == count + 2,
{
    let template = AlkaneId { block: INSTANCE_BLOCK, tx: DOMAIN_ORBITAL_TEMPLATE_ID };
    let mut orbital_inputs: Vec<u128> = Vec::new();
    orbital_inputs.push(0);
    orbital_inputs.push(count);
    let after_call = count + 1;
    let instance = AlkaneId { block: INSTANCE_BLOCK, tx: after_call };
    let instance_record = encode_alkane_id(&instance);
    assert(orbital_inputs@ =~= seq![0u128, count]);
    MintPlan { template, orbital_inputs, instance, instance_record, next_count: after_call + 1 }
}

} // verus!
