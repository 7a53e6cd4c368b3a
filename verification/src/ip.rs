//! The IP allocator: reproducible virtual addresses drawn from a bounded
//! pool, rotated through a rotation counter.

use vstd::prelude::*;
use crate::text::{dec_str, decimal_string};

verus! {

/// A virtual IPv4 address as four octets.
#[derive(Clone, Copy, PartialEq, Eq, Structural, Debug)]
pub struct IpV4 {
    pub a: u8,
    pub b: u8,
    pub c: u8,
    pub d: u8,
}

/// The address assigned to a pool slot.
pub open spec fn ip_of_slot(slot: nat) -> IpV4 {
    IpV4 {
        a: (10 + slot % 200) as u8,
        b: ((slot / 256) % 256) as u8,
        c: (slot % 256) as u8,
        d: (1 + slot % 254) as u8,
    }
}

/// The fallback address for a degenerate pool.
pub open spec fn fallback_ip() -> IpV4 {
    IpV4 { a: 10, b: 0, c: 0, d: 1 }
}

/// The slot a node occupies in the pool for one rotation counter value.
pub open spec fn slot_of(node_index: nat, rotation: nat, pool_size: nat) -> nat
    recommends
        pool_size >= 1,
{
    (node_index + rotation) % pool_size
}

/// Allocate the address of a node for one rotation counter value: a
/// reproducible slot of the pool; with an empty pool the fixed fallback
/// address is used instead of failing.
pub fn allocate_ip(node_index: u64, rotation: u64, pool_size: u64) -> (r: IpV4)
    ensures
        pool_size >= 1 ==> r == ip_of_slot(slot_of(node_index as nat, rotation as nat, pool_size as nat)),
        pool_size == 0 ==> r == fallback_ip(),
{
    if pool_size == 0 {
        return IpV4 { a: 10, b: 0, c: 0, d: 1 };
    }
    let slot = (((node_index as u128) + (rotation as u128)) % (pool_size as u128)) as u64;
    proof {
        assert(slot == slot_of(node_index as nat, rotation as nat, pool_size as nat));
    }
    IpV4 {
        a: (10 + slot % 200) as u8,
        b: ((slot / 256) % 256) as u8,
        c: (slot % 256) as u8,
        d: (1 + slot % 254) as u8,
    }
}

/// Two residues modulo the pool size differ when the values differ by less
/// than the pool size.
proof fn lemma_mod_distinct(x: nat, y: nat, p: nat)
    requires
        p >= 1,
        x < y,
        y - x < p,
    ensures
        x % p != y % p,
{
    let xi = x as int;
    let yi = y as int;
    let pi = p as int;
    let d = yi - xi;
    vstd::arithmetic::div_mod::lemma_mod_bound(xi, pi);
    vstd::arithmetic::div_mod::lemma_mod_bound(yi, pi);
    if x % p == y % p {
        vstd::arithmetic::div_mod::lemma_add_mod_noop(xi, d, pi);
        vstd::arithmetic::div_mod::lemma_small_mod(d as nat, p);
        let m = xi % pi;
        assert((m + d) % pi == m);
        if m + d < pi {
            vstd::arithmetic::div_mod::lemma_small_mod((m + d) as nat, p);
        } else {
            vstd::arithmetic::div_mod::lemma_mod_sub_multiples_vanish(m + d, pi);
            assert((m + d - pi) % pi == (m + d) % pi);
            vstd::arithmetic::div_mod::lemma_small_mod((m + d - pi) as nat, p);
        }
    }
}

/// Within one rotation, different nodes of a pool of at most 200 addresses
/// get different subnet prefixes, so a full batch of them scores zero on IP
/// diversity.
pub proof fn lemma_distinct_nodes_distinct_prefixes(i1: nat, i2: nat, rotation: nat, p: nat)
    requires
        i1 < p,
        i2 < p,
        i1 != i2,
        p <= 200,
    ensures
        ip_of_slot(slot_of(i1, rotation, p)).a != ip_of_slot(slot_of(i2, rotation, p)).a,
{
    let s1 = slot_of(i1, rotation, p);
    let s2 = slot_of(i2, rotation, p);
    if i1 < i2 {
        lemma_mod_distinct(i1 + rotation, i2 + rotation, p);
    } else {
        lemma_mod_distinct(i2 + rotation, i1 + rotation, p);
    }
    assert(s1 < p && s2 < p) by (nonlinear_arith)
        requires
            p >= 1,
            s1 == (i1 + rotation) % p,
            s2 == (i2 + rotation) % p,
    ;
    assert(s1 % 200 == s1 && s2 % 200 == s2) by (nonlinear_arith)
        requires
            s1 < 200,
            s2 < 200,
    ;
}

/// Advancing the rotation counter moves a node to another address whenever
/// the pool holds at least two and at most 200 of them.
pub proof fn lemma_rotation_changes_address(i: nat, rotation: nat, p: nat)
    requires
        2 <= p <= 200,
    ensures
        ip_of_slot(slot_of(i, rotation, p)) != ip_of_slot(slot_of(i, rotation + 1, p)),
{
    let s1 = slot_of(i, rotation, p);
    let s2 = slot_of(i, rotation + 1, p);
    lemma_mod_distinct(i + rotation, i + rotation + 1, p);
    assert(s1 < p && s2 < p) by (nonlinear_arith)
        requires
            p >= 1,
            s1 == (i + rotation) % p,
            s2 == (i + rotation + 1) % p,
    ;
    assert(s1 % 200 == s1 && s2 % 200 == s2) by (nonlinear_arith)
        requires
            s1 < 200,
            s2 < 200,
    ;
    assert(ip_of_slot(s1).a != ip_of_slot(s2).a);
}

/// Rendering of an address as a dotted quad.
pub open spec fn ip_string(ip: IpV4) -> Seq<char> {
    dec_str(ip.a as nat) + "."@ + dec_str(ip.b as nat) + "."@ + dec_str(ip.c as nat) + "."@
        + dec_str(ip.d as nat)
}

/// Render an address.
pub fn render_ip(ip: &IpV4) -> (r: String)
    ensures
        r@ == ip_string(*ip),
{
    let mut s = decimal_string(ip.a as u128);
    s.append(".");
    let b = decimal_string(ip.b as u128);
    s.append(b.as_str());
    s.append(".");
    let c = decimal_string(ip.c as u128);
    s.append(c.as_str());
    s.append(".");
    let d = decimal_string(ip.d as u128);
    s.append(d.as_str());
    s
}

/// The address the basic generator gives a node, derived from the node
/// number alone.
pub open spec fn synthetic_ip_octets(id: nat) -> IpV4 {
    IpV4 {
        a: (10 + id % 200) as u8,
        b: ((id / 256) % 256) as u8,
        c: (id % 256) as u8,
        d: (1 + id % 254) as u8,
    }
}

/// The basic generator: a dotted quad derived from the node number by
/// modular arithmetic; the pool size caps nothing here and is kept for
/// callers that thread it through.
pub fn generate_synthetic_ip(miner_id: u32, pool_size: usize) -> (r: String)
    ensures
        r@ == ip_string(synthetic_ip_octets(miner_id as nat)),
{
    let _ = pool_size;
    let id = miner_id as u64;
    let ip = IpV4 {
        a: (10 + id % 200) as u8,
        b: ((id / 256) % 256) as u8,
        c: (id % 256) as u8,
        d: (1 + id % 254) as u8,
    };
    proof {
        assert(ip == synthetic_ip_octets(miner_id as nat));
    }
    render_ip(&ip)
}

} // verus!
