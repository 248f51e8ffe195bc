//! The session registry: one slot for each family, and the rule by which a
//! client of one family is paired with the client of the other.

use crate::client::handshake::{rejection_notice, rejection_reason, HandshakeError};
use crate::client::ClientType;
use crate::proto::catalog::{
    AdvanceState, AdvanceStateView, Disconnect, DisconnectView, PacketView,
};
use crate::proto::ProtocolPacket;
use vstd::pervasive::cloned;
use vstd::prelude::*;
use vstd::string::StringExecFns;

verus! {

/// What registering a classified connection led to.
#[derive(Debug, Clone, PartialEq, Eq)]
pub enum PairingOutcome<H> {
    /// The family's slot is taken: the newcomer is turned away.
    RoleAlreadyOccupied,
    /// The newcomer holds its slot and waits for a client of the other family.
    WaitingForPeer,
    /// The newcomer holds its slot and is paired with the client of the other
    /// family, whose handle this is: both relays start now.
    Paired(H),
}

/// The two slots of a registry.
pub struct Slots<H> {
    pub minecraft: Option<H>,
    pub terraria: Option<H>,
}

impl<H> Slots<H> {
    /// Two free slots.
    pub open spec fn vacant() -> Slots<H> {
        Slots { minecraft: None, terraria: None }
    }

    /// Who holds the slot of `role`.
    pub open spec fn occupant(self, role: ClientType) -> Option<H> {
        match role {
            ClientType::Minecraft => self.minecraft,
            ClientType::Terraria => self.terraria,
        }
    }

    /// The slots with `occupant` in the slot of `role`.
    pub open spec fn with(self, role: ClientType, occupant: Option<H>) -> Slots<H> {
        match role {
            ClientType::Minecraft => Slots { minecraft: occupant, ..self },
            ClientType::Terraria => Slots { terraria: occupant, ..self },
        }
    }

    /// What registering `handle` for `role` answers.
    pub open spec fn outcome(self, role: ClientType, handle: H) -> PairingOutcome<H> {
        if self.occupant(role) is Some {
            PairingOutcome::RoleAlreadyOccupied
        } else {
            match self.occupant(role.peer()) {
                Some(peer) => PairingOutcome::Paired(peer),
                None => PairingOutcome::WaitingForPeer,
            }
        }
    }

    /// The slots after registering `handle` for `role`: a taken slot keeps
    /// its occupant, a free one takes the newcomer.
    pub open spec fn register(self, role: ClientType, handle: H) -> Slots<H> {
        if self.occupant(role) is Some {
            self
        } else {
            self.with(role, Some(handle))
        }
    }

    /// The slots after the relay of `role` has ended.
    pub open spec fn release(self, role: ClientType) -> Slots<H> {
        self.with(role, None)
    }
}

/// What the bridge does with a connection once its handshake is over.
#[derive(Debug, Clone, PartialEq, Eq)]
pub enum Admission<H> {
    /// Send `notice` if the client still listens, then close the connection.
    Rejected { notice: ProtocolPacket },
    /// Send `greeting` and keep the connection until its peer arrives.
    Parked { greeting: ProtocolPacket },
    /// Send `greeting` and start the relays of both connections; `peer` is
    /// the handle of the connection that waited.
    Paired { greeting: ProtocolPacket, peer: H },
}

/// The reason that a client is given when its family's slot is taken.
pub open spec fn occupied_reason(role: ClientType) -> Seq<char> {
    role.spec_name() + " already connected"@
}

/// The packet that tells a client that its family's slot is taken.
pub fn occupied_notice(role: ClientType) -> (notice: ProtocolPacket)
    ensures
        notice@ == PacketView::Disconnect(DisconnectView { reason: occupied_reason(role) }),
{
    let reason = String::from_str(role.name()).concat(" already connected");
    ProtocolPacket::Disconnect(Disconnect { reason })
}

/// The packet that tells an accepted client that the bridge is ready.
pub fn greeting(bridge_info: &str) -> (packet: ProtocolPacket)
    ensures
        packet@ == PacketView::AdvanceState(AdvanceStateView { bridge_info: bridge_info@ }),
{
    ProtocolPacket::AdvanceState(AdvanceState { bridge_info: String::from_str(bridge_info) })
}

/// The pending connections of the bridge, at most one of each family. `H` is
/// the handle by which a connection is written to.
pub struct SessionRegistry<H> {
    minecraft: Option<H>,
    terraria: Option<H>,
}

impl<H> View for SessionRegistry<H> {
    type V = Slots<H>;

    closed spec fn view(&self) -> Slots<H> {
        Slots { minecraft: self.minecraft, terraria: self.terraria }
    }
}

impl<H: Clone> SessionRegistry<H> {
    /// A registry with both slots free.
    pub fn new() -> (registry: Self)
        ensures
            registry@ == Slots::<H>::vacant(),
    {
        SessionRegistry { minecraft: None, terraria: None }
    }

    /// Whether a connection of `role` holds its slot.
    pub fn is_occupied(&self, role: ClientType) -> (taken: bool)
        ensures
            taken == self@.occupant(role) is Some,
    {
        match role {
            ClientType::Minecraft => self.minecraft.is_some(),
            ClientType::Terraria => self.terraria.is_some(),
        }
    }

    /// Registers the connection written to through `handle` as the client of
    /// `role`. The check of the slot and the store are one step: of two
    /// connections of one family, the second finds the slot taken.
    pub fn register(&mut self, role: ClientType, handle: H) -> (outcome: PairingOutcome<H>)
        ensures
            final(self)@ == old(self)@.register(role, handle),
            match old(self)@.outcome(role, handle) {
                PairingOutcome::RoleAlreadyOccupied => outcome is RoleAlreadyOccupied,
                PairingOutcome::WaitingForPeer => outcome is WaitingForPeer,
                PairingOutcome::Paired(peer) => outcome matches PairingOutcome::Paired(given)
                    && cloned(peer, given),
            },
    {
        match role {
            ClientType::Minecraft => {
                if self.minecraft.is_some() {
                    return PairingOutcome::RoleAlreadyOccupied;
                }
                self.minecraft = Some(handle);
                match &self.terraria {
                    Some(peer) => PairingOutcome::Paired(peer.clone()),
                    None => PairingOutcome::WaitingForPeer,
                }
            },
            ClientType::Terraria => {
                if self.terraria.is_some() {
                    return PairingOutcome::RoleAlreadyOccupied;
                }
                self.terraria = Some(handle);
                match &self.minecraft {
                    Some(peer) => PairingOutcome::Paired(peer.clone()),
                    None => PairingOutcome::WaitingForPeer,
                }
            },
        }
    }

    /// Decides what becomes of a connection whose handshake ended with
    /// `verdict`. A rejected client is told why and leaves the registry as it
    /// was; so does a client whose family's slot is taken. Every other client
    /// is registered and greeted with `bridge_info`.
    pub fn accept(
        &mut self,
        verdict: Result<ClientType, HandshakeError>,
        handle: H,
        bridge_info: &str,
    ) -> (decision: Admission<H>)
        ensures
            match verdict {
                Err(error) => final(self)@ == old(self)@ && (decision matches Admission::Rejected {
                    notice,
                } && notice@ == PacketView::Disconnect(
                    DisconnectView { reason: rejection_reason(error) },
                )),
                Ok(role) => final(self)@ == old(self)@.register(role, handle) && match old(
                    self,
                )@.outcome(role, handle) {
                    PairingOutcome::RoleAlreadyOccupied => decision matches Admission::Rejected {
                        notice,
                    } && notice@ == PacketView::Disconnect(
                        DisconnectView { reason: occupied_reason(role) },
                    ),
                    PairingOutcome::WaitingForPeer => decision matches Admission::Parked {
                        greeting,
                    } && greeting@ == PacketView::AdvanceState(
                        AdvanceStateView { bridge_info: bridge_info@ },
                    ),
                    PairingOutcome::Paired(waiting) => decision matches Admission::Paired {
                        greeting,
                        peer,
                    } && greeting@ == PacketView::AdvanceState(
                        AdvanceStateView { bridge_info: bridge_info@ },
                    ) && cloned(waiting, peer),
                },
            },
    {
        match verdict {
            Err(error) => Admission::Rejected { notice: rejection_notice(&error) },
            Ok(role) => match self.register(role, handle) {
                PairingOutcome::RoleAlreadyOccupied => Admission::Rejected {
                    notice: occupied_notice(role),
                },
                PairingOutcome::WaitingForPeer => Admission::Parked {
                    greeting: greeting(bridge_info),
                },
                PairingOutcome::Paired(peer) => Admission::Paired {
                    greeting: greeting(bridge_info),
                    peer,
                },
            },
        }
    }

    /// Frees the slot of `role` once its relay has ended, and gives back the
    /// handle that held it.
    pub fn release(&mut self, role: ClientType) -> (freed: Option<H>)
        ensures
            final(self)@ == old(self)@.release(role),
            freed == old(self)@.occupant(role),
    {
        match role {
            ClientType::Minecraft => self.minecraft.take(),
            ClientType::Terraria => self.terraria.take(),
        }
    }
}

/// The first client of a family on a free registry waits; a second client
/// of the same family is turned away and changes nothing.
pub proof fn lemma_same_family_twice<H>(role: ClientType, first: H, second: H)
    ensures
        Slots::<H>::vacant().outcome(role, first) == PairingOutcome::<H>::WaitingForPeer,
        Slots::<H>::vacant().register(role, first).outcome(role, second)
            == PairingOutcome::<H>::RoleAlreadyOccupied,
        Slots::<H>::vacant().register(role, first).register(role, second) == Slots::<
            H,
        >::vacant().register(role, first),
{
}

/// On a free registry, the first client waits and the client of the other
/// family is paired with it: it is handed the handle of the one that waited,
/// and both hold their slots from then on.
pub proof fn lemma_two_families_pair<H>(role: ClientType, first: H, second: H)
    ensures
        Slots::<H>::vacant().outcome(role, first) == PairingOutcome::<H>::WaitingForPeer,
        Slots::<H>::vacant().register(role, first).outcome(role.peer(), second)
            == PairingOutcome::Paired(first),
        Slots::<H>::vacant().register(role, first).register(role.peer(), second).occupant(role)
            == Some(first),
        Slots::<H>::vacant().register(role, first).register(role.peer(), second).occupant(
            role.peer(),
        ) == Some(second),
{
}

/// Registering never puts a newcomer in the place of an occupant, and never
/// touches the slot of the other family.
pub proof fn lemma_register_keeps_occupants<H>(slots: Slots<H>, role: ClientType, handle: H)
    ensures
        slots.occupant(role) is Some ==> slots.register(role, handle) == slots,
        slots.occupant(role) is None ==> slots.register(role, handle).occupant(role) == Some(
            handle,
        ),
        slots.register(role, handle).occupant(role.peer()) == slots.occupant(role.peer()),
{
}

/// A newcomer is turned away exactly when its family's slot is taken, and
/// paired exactly when its own slot is free and the other one is taken.
pub proof fn lemma_outcome_by_slots<H>(slots: Slots<H>, role: ClientType, handle: H)
    ensures
        slots.outcome(role, handle) is RoleAlreadyOccupied <==> slots.occupant(role) is Some,
        slots.outcome(role, handle) is Paired <==> slots.occupant(role) is None && slots.occupant(
            role.peer(),
        ) is Some,
        slots.outcome(role, handle) is WaitingForPeer <==> slots.occupant(role) is None
            && slots.occupant(role.peer()) is None,
        slots.outcome(role, handle) matches PairingOutcome::Paired(peer) ==> slots.occupant(
            role.peer(),
        ) == Some(peer),
{
}

/// Once the relay of a family has ended and its slot is freed, the next
/// client of that family is accepted, and it is paired with whoever holds
/// the other slot.
pub proof fn lemma_release_reopens<H>(slots: Slots<H>, role: ClientType, handle: H)
    ensures
        slots.release(role).occupant(role) is None,
        slots.release(role).occupant(role.peer()) == slots.occupant(role.peer()),
        !(slots.release(role).outcome(role, handle) is RoleAlreadyOccupied),
        slots.release(role).register(role, handle).occupant(role) == Some(handle),
{
}

} // verus!
