use vstd::prelude::*;
use crate::config::Config;

verus! {

/// The all-ones destination address: a frame sent to it reaches every peer.
pub open spec fn is_broadcast(addr: Seq<u8>) -> bool {
    addr.len() == 6 && forall|i: int| 0 <= i < 6 ==> addr[i] == 0xffu8
}

/// The broadcast address `ff:ff:ff:ff:ff:ff`.
pub fn broadcast_addr() -> (r: [u8; 6])
    ensures
        is_broadcast(r@),
{
    [0xff, 0xff, 0xff, 0xff, 0xff, 0xff]
}

/// What the radio subsystem is told about one peer: its address, the channel
/// its frames travel on, the interface index they leave through, and whether
/// they are encrypted.
pub struct PeerEntry {
    pub addr: [u8; 6],
    pub channel: u8,
    pub ifidx: u32,
    pub encrypt: bool,
}

/// Every entry this library builds: the given address, the configured
/// channel, interface index 1, and no encryption.
pub open spec fn is_entry_for(e: PeerEntry, addr: Seq<u8>, config: Config) -> bool {
    &&& e.addr@ == addr
    &&& e.channel == config.espnow_channel
    &&& e.ifidx == 1
    &&& !e.encrypt
}

/// The entry registered for the broadcast address when the radio handle is
/// first set up.
pub fn broadcast_peer(config: &Config) -> (e: PeerEntry)
    ensures
        is_broadcast(e.addr@),
        is_entry_for(e, e.addr@, *config),
{
    PeerEntry {
        addr: broadcast_addr(),
        channel: config.espnow_channel,
        ifidx: 1,
        encrypt: false,
    }
}

/// The entry registered for a single peer's address.
pub fn unicast_peer(addr: [u8; 6], config: &Config) -> (e: PeerEntry)
    ensures
        is_entry_for(e, addr@, *config),
{
    PeerEntry {
        addr,
        channel: config.espnow_channel,
        ifidx: 1,
        encrypt: false,
    }
}

/// What to do about one address: nothing when the radio already knows it,
/// otherwise register the given entry.
pub enum PeerPlan {
    AlreadyKnown,
    Register(PeerEntry),
}

/// Decides the registration of `addr`, given the radio's answer on whether a
/// peer with that address already exists: a present address is left alone, an
/// absent one gets a fresh unencrypted entry on the configured channel, and a
/// failed lookup is propagated verbatim.
pub fn plan_add_peer<E>(addr: [u8; 6], present: Result<bool, E>, config: &Config) -> (r: Result<
    PeerPlan,
    E,
>)
    ensures
        present matches Ok(true) ==> r matches Ok(p) && p is AlreadyKnown,
        present matches Ok(false) ==> r matches Ok(p) && p matches PeerPlan::Register(e)
            && is_entry_for(e, addr@, *config),
        present matches Err(c) ==> r matches Err(d) && d == c,
{
    match present {
        Ok(true) => Ok(PeerPlan::AlreadyKnown),
        Ok(false) => Ok(PeerPlan::Register(unicast_peer(addr, config))),
        Err(c) => Err(c),
    }
}

/// The set of known peer addresses once the plan for `addr` is carried out,
/// given whether the address was already present.
pub open spec fn peers_after(known: Set<Seq<u8>>, addr: Seq<u8>, present: bool) -> Set<Seq<u8>> {
    if present {
        known
    } else {
        known.insert(addr)
    }
}

/// The existence check changes what is registered, not what is known: when
/// the radio answers truthfully, the addresses known after the plan are
/// exactly the old ones together with the requested address, whether or not
/// it was already among them. The check only avoids a duplicate entry.
pub proof fn lemma_peers_after_plan(known: Set<Seq<u8>>, addr: Seq<u8>, present: bool)
    requires
        present == known.contains(addr),
    ensures
        peers_after(known, addr, present) =~= known.insert(addr),
{
}

} // verus!
