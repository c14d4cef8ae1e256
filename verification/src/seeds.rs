//! Derivation seeds.
//!
//! Each entity's address is derived from a fixed ASCII domain tag, the
//! variable inputs that identify the entity, and a one-byte salt ("bump").
//! A task's seed carries its owning daemon's address and the big-endian
//! encoding of its sequence id, which makes the task sequence enumerable
//! from the daemon alone.

use vstd::prelude::*;

use crate::address::Address;
use crate::codec::u64_be;
use crate::codec::u64_be_bytes;
use crate::codec::copy_bytes;

verus! {

/// The ASCII tag "authority".
pub open spec fn seed_authority() -> Seq<u8> {
    seq![97u8, 117u8, 116u8, 104u8, 111u8, 114u8, 105u8, 116u8, 121u8]
}

/// The ASCII tag "config".
pub open spec fn seed_config() -> Seq<u8> {
    seq![99u8, 111u8, 110u8, 102u8, 105u8, 103u8]
}

/// The ASCII tag "daemon".
pub open spec fn seed_daemon() -> Seq<u8> {
    seq![100u8, 97u8, 101u8, 109u8, 111u8, 110u8]
}

/// The ASCII tag "health".
pub open spec fn seed_health() -> Seq<u8> {
    seq![104u8, 101u8, 97u8, 108u8, 116u8, 104u8]
}

/// The ASCII tag "task".
pub open spec fn seed_task() -> Seq<u8> {
    seq![116u8, 97u8, 115u8, 107u8]
}

/// The authority record is derived from its tag and stored salt alone.
pub open spec fn authority_seeds(bump: u8) -> Seq<Seq<u8>> {
    seq![seed_authority(), seq![bump]]
}

/// The config record is derived from its tag and stored salt alone.
pub open spec fn config_seeds(bump: u8) -> Seq<Seq<u8>> {
    seq![seed_config(), seq![bump]]
}

/// A daemon is derived from its tag, its owner's address, and its salt.
pub open spec fn daemon_seeds(owner: Seq<u8>, bump: u8) -> Seq<Seq<u8>> {
    seq![seed_daemon(), owner, seq![bump]]
}

/// The health record is derived from its tag and stored salt alone.
pub open spec fn health_seeds(bump: u8) -> Seq<Seq<u8>> {
    seq![seed_health(), seq![bump]]
}

/// A task is derived from its tag, its daemon's address, the big-endian
/// bytes of its sequence id, and the caller-supplied salt.
pub open spec fn task_seeds(daemon: Seq<u8>, id: u64, bump: u8) -> Seq<Seq<u8>> {
    seq![seed_task(), daemon, u64_be(id), seq![bump]]
}

pub fn seed_authority_bytes() -> (r: Vec<u8>)
    ensures
        r@ == seed_authority(),
{
    let mut r: Vec<u8> = Vec::new();
    r.push(97u8);
    r.push(117u8);
    r.push(116u8);
    r.push(104u8);
    r.push(111u8);
    r.push(114u8);
    r.push(105u8);
    r.push(116u8);
    r.push(121u8);
    proof {
        assert(r@ =~= seed_authority());
    }
    r
}

pub fn seed_config_bytes() -> (r: Vec<u8>)
    ensures
        r@ == seed_config(),
{
    let mut r: Vec<u8> = Vec::new();
    r.push(99u8);
    r.push(111u8);
    r.push(110u8);
    r.push(102u8);
    r.push(105u8);
    r.push(103u8);
    proof {
        assert(r@ =~= seed_config());
    }
    r
}

pub fn seed_daemon_bytes() -> (r: Vec<u8>)
    ensures
        r@ == seed_daemon(),
{
    let mut r: Vec<u8> = Vec::new();
    r.push(100u8);
    r.push(97u8);
    r.push(101u8);
    r.push(109u8);
    r.push(111u8);
    r.push(110u8);
    proof {
        assert(r@ =~= seed_daemon());
    }
    r
}

pub fn seed_health_bytes() -> (r: Vec<u8>)
    ensures
        r@ == seed_health(),
{
    let mut r: Vec<u8> = Vec::new();
    r.push(104u8);
    r.push(101u8);
    r.push(97u8);
    r.push(108u8);
    r.push(116u8);
    r.push(104u8);
    proof {
        assert(r@ =~= seed_health());
    }
    r
}

pub fn seed_task_bytes() -> (r: Vec<u8>)
    ensures
        r@ == seed_task(),
{
    let mut r: Vec<u8> = Vec::new();
    r.push(116u8);
    r.push(97u8);
    r.push(115u8);
    r.push(107u8);
    proof {
        assert(r@ =~= seed_task());
    }
    r
}

fn bump_seed_bytes(bump: u8) -> (r: Vec<u8>)
    ensures
        r@ == seq![bump],
{
    let mut r: Vec<u8> = Vec::new();
    r.push(bump);
    proof {
        assert(r@ =~= seq![bump]);
    }
    r
}

pub fn authority_seed_vec(bump: u8) -> (r: Vec<Vec<u8>>)
    ensures
        r.deep_view() == authority_seeds(bump),
{
    let mut r: Vec<Vec<u8>> = Vec::new();
    r.push(seed_authority_bytes());
    r.push(bump_seed_bytes(bump));
    proof {
        assert(r.deep_view() =~~= authority_seeds(bump));
    }
    r
}

pub fn config_seed_vec(bump: u8) -> (r: Vec<Vec<u8>>)
    ensures
        r.deep_view() == config_seeds(bump),
{
    let mut r: Vec<Vec<u8>> = Vec::new();
    r.push(seed_config_bytes());
    r.push(bump_seed_bytes(bump));
    proof {
        assert(r.deep_view() =~~= config_seeds(bump));
    }
    r
}

pub fn daemon_seed_vec(owner: &Address, bump: u8) -> (r: Vec<Vec<u8>>)
    ensures
        r.deep_view() == daemon_seeds(owner@, bump),
{
    let mut r: Vec<Vec<u8>> = Vec::new();
    r.push(seed_daemon_bytes());
    r.push(copy_bytes(owner.as_bytes()));
    r.push(bump_seed_bytes(bump));
    proof {
        assert(r.deep_view() =~~= daemon_seeds(owner@, bump));
    }
    r
}

pub fn health_seed_vec(bump: u8) -> (r: Vec<Vec<u8>>)
    ensures
        r.deep_view() == health_seeds(bump),
{
    let mut r: Vec<Vec<u8>> = Vec::new();
    r.push(seed_health_bytes());
    r.push(bump_seed_bytes(bump));
    proof {
        assert(r.deep_view() =~~= health_seeds(bump));
    }
    r
}

pub fn task_seed_vec(daemon: &Address, id: u64, bump: u8) -> (r: Vec<Vec<u8>>)
    ensures
        r.deep_view() == task_seeds(daemon@, id, bump),
{
    let mut r: Vec<Vec<u8>> = Vec::new();
    r.push(seed_task_bytes());
    r.push(copy_bytes(daemon.as_bytes()));
    r.push(u64_be_bytes(id));
    r.push(bump_seed_bytes(bump));
    proof {
        assert(r.deep_view() =~~= task_seeds(daemon@, id, bump));
    }
    r
}

/// Tasks with distinct sequence ids are derived from distinct seed
/// vectors: the counter component of the seed is injective, so a daemon's
/// task sequence can never fold two ids onto one derivation input.
pub proof fn lemma_task_seeds_distinct(daemon: Seq<u8>, id1: u64, id2: u64, b1: u8, b2: u8)
    requires
        id1 != id2,
    ensures
        task_seeds(daemon, id1, b1) != task_seeds(daemon, id2, b2),
{
    if task_seeds(daemon, id1, b1) == task_seeds(daemon, id2, b2) {
        assert(task_seeds(daemon, id1, b1)[2] == task_seeds(daemon, id2, b2)[2]);
        crate::codec::lemma_u64_be_injective(id1, id2);
    }
}

} // verus!
