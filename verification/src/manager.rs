//! The registry of pending identities.
//!
//! The registry owns the table of pending identities and the table of
//! mailboxes. It decides; it does not touch the store. Each decision comes
//! back as a list of effects, which the caller carries out in order: writes
//! to the store, and messages for the mailboxes.

use crate::comms::{
    another_sender, arrived, open_channel, try_receive, CommsMain, CommsMessage, CommsVerifier, Fatal,
};
use crate::identity::OnChainIdentity;
use crate::primitives::{Address, AddressType, Challenge, NetworkAddress, PubKey, RoomId};
use crossbeam::channel::{Receiver, Sender};
use vstd::prelude::*;

verus! {

/// The partition of the store that holds the pending identities, each under
/// the bytes of its public key.
pub const PENDING_IDENTITIES: &'static str = "pending_identities";

/// The partition of the store that holds the session handles, each under
/// the bytes of the public key it belongs to.
pub const SESSION_HANDLES: &'static str = "matrix_rooms";

/// What the registry asks of its caller.
#[derive(Debug)]
pub enum Effect {
    /// Write the identity to the partition of pending identities, under the
    /// bytes of its public key.
    StoreIdentity { identity: OnChainIdentity },
    /// Write the session handle to the partition of session handles, under
    /// the bytes of the public key.
    StoreSession { pub_key: PubKey, room_id: RoomId },
    /// Send the challenge to the mailbox of the account type. Where
    /// `resume` is set, the message carries the session handle stored for
    /// the public key of the address, if there is one; else it carries
    /// none.
    Inform { to: AddressType, network_address: NetworkAddress, challenge: Challenge, resume: bool },
    /// Tell the mailbox of the account type that nobody claims the account.
    InvalidRequest { to: AddressType },
}

/// What registering an identity asks for: the identity is stored, and its
/// chat account, if it has one, is sent its challenge.
pub open spec fn registration_effects(ident: OnChainIdentity) -> Seq<Effect> {
    let stored = seq![Effect::StoreIdentity { identity: ident }];
    match ident.matrix {
        Some(state) => stored.push(
            Effect::Inform {
                to: AddressType::Matrix,
                network_address: ident.network_address,
                challenge: state.issued(),
                resume: true,
            },
        ),
        None => stored,
    }
}

/// The position of the first identity, from `from` on, that claims the
/// account under the account type.
pub open spec fn first_claiming(
    idents: Seq<OnChainIdentity>,
    account: Seq<char>,
    account_ty: AddressType,
    from: int,
) -> Option<int>
    decreases idents.len() - from,
{
    if from < 0 || from >= idents.len() {
        None
    } else if idents[from].claims(account, account_ty) {
        Some(from)
    } else {
        first_claiming(idents, account, account_ty, from + 1)
    }
}

/// The answer to a question for the state of an account: the challenge of
/// the first identity that claims it, or a refusal.
pub open spec fn account_state_reply(
    idents: Seq<OnChainIdentity>,
    account: Seq<char>,
    account_ty: AddressType,
) -> Effect {
    match first_claiming(idents, account, account_ty, 0) {
        Some(i) => Effect::Inform {
            to: account_ty,
            network_address: idents[i].network_address,
            challenge: idents[i].state_of(account_ty).unwrap().issued(),
            resume: false,
        },
        None => Effect::InvalidRequest { to: account_ty },
    }
}

/// Whether a verdict on an address concerns an identity: the identity is
/// that of the address, and it has a chat account.
pub open spec fn concerns(ident: OnChainIdentity, network_address: NetworkAddress) -> bool {
    ident.network_address.names(network_address) && ident.matrix is Some
}

/// The identities after a verdict on an address.
pub open spec fn judged_idents(
    idents: Seq<OnChainIdentity>,
    network_address: NetworkAddress,
    valid: bool,
) -> Seq<OnChainIdentity> {
    idents.map_values(
        |ident: OnChainIdentity|
            if concerns(ident, network_address) {
                ident.judged(valid)
            } else {
                ident
            },
    )
}

/// What a verdict on an address asks for: every identity it concerns is
/// stored anew, in the order of the table.
pub open spec fn feedback_effects(
    idents: Seq<OnChainIdentity>,
    network_address: NetworkAddress,
    valid: bool,
) -> Seq<Effect>
    decreases idents.len(),
{
    if idents.len() == 0 {
        Seq::empty()
    } else {
        let before = feedback_effects(idents.drop_last(), network_address, valid);
        if concerns(idents.last(), network_address) {
            before.push(Effect::StoreIdentity { identity: idents.last().judged(valid) })
        } else {
            before
        }
    }
}

/// The identities after a message.
pub open spec fn next_idents(idents: Seq<OnChainIdentity>, message: CommsMessage) -> Seq<
    OnChainIdentity,
> {
    match message {
        CommsMessage::NewOnChainIdentity(ident) => idents.push(ident),
        CommsMessage::ValidAccount { network_address } => judged_idents(
            idents,
            network_address,
            true,
        ),
        CommsMessage::InvalidAccount { network_address } => judged_idents(
            idents,
            network_address,
            false,
        ),
        _ => idents,
    }
}

/// What a message asks for, and nothing for a message that the registry
/// does not take.
pub open spec fn effects_of(idents: Seq<OnChainIdentity>, message: CommsMessage) -> Option<
    Seq<Effect>,
> {
    match message {
        CommsMessage::NewOnChainIdentity(ident) => Some(registration_effects(ident)),
        CommsMessage::ValidAccount { network_address } => Some(
            feedback_effects(idents, network_address, true),
        ),
        CommsMessage::InvalidAccount { network_address } => Some(
            feedback_effects(idents, network_address, false),
        ),
        CommsMessage::TrackRoomId { pub_key, room_id } => Some(
            seq![Effect::StoreSession { pub_key, room_id }],
        ),
        CommsMessage::RequestAccountState { account, account_ty } => Some(
            seq![account_state_reply(idents, account@, account_ty)],
        ),
        CommsMessage::Inform { .. } | CommsMessage::InvalidRequest => None,
    }
}

/// The mailboxes of the registry: its own, and the sending side of one per
/// account type.
struct CommsTable {
    to_main: Sender<CommsMessage>,
    listener: Receiver<CommsMessage>,
    pairs: Vec<(AddressType, CommsMain)>,
}

/// The registry: the pending identities in the order they were claimed, and
/// the mailboxes of the channels.
pub struct IdentityManager {
    idents: Vec<OnChainIdentity>,
    comms: CommsTable,
}

/// The position of the first entry for an account type, from `from` on, and
/// the length of the table where there is none.
pub open spec fn slot(table: Seq<(AddressType, CommsMain)>, account_ty: AddressType, from: int) -> int
    decreases table.len() - from,
{
    if from < 0 || from >= table.len() {
        table.len() as int
    } else if table[from].0 == account_ty {
        from
    } else {
        slot(table, account_ty, from + 1)
    }
}

/// The mailbox that a table holds for an account type.
pub open spec fn mailbox_in(table: Seq<(AddressType, CommsMain)>, account_ty: AddressType) -> Option<
    CommsMain,
> {
    let at = slot(table, account_ty, 0);
    if at < table.len() {
        Some(table[at].1)
    } else {
        None
    }
}

/// The table after a mailbox was registered for an account type: it takes
/// the place of the mailbox that the type had, or it is added where the
/// type had none.
pub open spec fn installed(
    table: Seq<(AddressType, CommsMain)>,
    account_ty: AddressType,
    mailbox: CommsMain,
) -> Seq<(AddressType, CommsMain)> {
    let at = slot(table, account_ty, 0);
    if at < table.len() {
        table.update(at, (account_ty, mailbox))
    } else {
        table.push((account_ty, mailbox))
    }
}

/// Whether no account type has two entries in a table.
pub open spec fn single(table: Seq<(AddressType, CommsMain)>) -> bool {
    forall|i: int, j: int|
        0 <= i < j < table.len() ==> (#[trigger] table[i]).0 != (#[trigger] table[j]).0
}

/// What the search for an entry finds: the first entry for the account type
/// from `from` on.
pub proof fn lemma_slot(table: Seq<(AddressType, CommsMain)>, account_ty: AddressType, from: int)
    requires
        0 <= from <= table.len(),
    ensures
        from <= slot(table, account_ty, from) <= table.len(),
        slot(table, account_ty, from) < table.len() ==> table[slot(table, account_ty, from)].0
            == account_ty,
        forall|k: int|
            from <= k < slot(table, account_ty, from) ==> (#[trigger] table[k]).0 != account_ty,
    decreases table.len() - from,
{
    if from < table.len() && table[from].0 != account_ty {
        lemma_slot(table, account_ty, from + 1);
    }
}

/// A position is the slot of an account type where its entry is for the
/// type and no entry before it is.
proof fn lemma_slot_found(
    table: Seq<(AddressType, CommsMain)>,
    account_ty: AddressType,
    from: int,
    at: int,
)
    requires
        0 <= from <= at <= table.len(),
        at < table.len() ==> table[at].0 == account_ty,
        forall|k: int| from <= k < at ==> (#[trigger] table[k]).0 != account_ty,
    ensures
        slot(table, account_ty, from) == at,
    decreases at - from,
{
    if from < at {
        lemma_slot_found(table, account_ty, from + 1, at);
    }
}

/// Registering a mailbox gives the account type that mailbox and no
/// other, leaves every other account type the mailbox it had, adds an entry
/// only where the type had none, and never makes a second entry for a type.
pub proof fn lemma_installed(
    table: Seq<(AddressType, CommsMain)>,
    account_ty: AddressType,
    mailbox: CommsMain,
)
    ensures
        mailbox_in(installed(table, account_ty, mailbox), account_ty) == Some(mailbox),
        forall|other: AddressType|
            other != account_ty ==> #[trigger] mailbox_in(
                installed(table, account_ty, mailbox),
                other,
            ) == mailbox_in(table, other),
        installed(table, account_ty, mailbox).len() == if mailbox_in(table, account_ty) is Some {
            table.len()
        } else {
            table.len() + 1
        },
        single(table) ==> single(installed(table, account_ty, mailbox)),
{
    let after = installed(table, account_ty, mailbox);
    let at = slot(table, account_ty, 0);
    lemma_slot(table, account_ty, 0);
    lemma_slot_found(after, account_ty, 0, at);
    assert forall|other: AddressType| other != account_ty implies #[trigger] mailbox_in(
        after,
        other,
    ) == mailbox_in(table, other) by {
        let there = slot(table, other, 0);
        lemma_slot(table, other, 0);
        if there < table.len() {
            lemma_slot_found(after, other, 0, there);
        } else {
            lemma_slot_found(after, other, 0, after.len() as int);
        }
    }
    if single(table) {
        assert forall|i: int, j: int| 0 <= i < j < after.len() implies (#[trigger] after[i]).0 != (
        #[trigger] after[j]).0 by {
            if j < table.len() {
                assert(table[i].0 != table[j].0);
            }
        }
    }
}

impl IdentityManager {
    /// The pending identities, oldest first.
    pub closed spec fn idents(&self) -> Seq<OnChainIdentity> {
        self.idents@
    }

    /// The table of mailboxes: each account type with the registry's side of
    /// its mailbox.
    pub closed spec fn table(&self) -> Seq<(AddressType, CommsMain)> {
        self.comms.pairs@
    }

    /// The mailbox that is registered for an account type.
    pub open spec fn mailbox_of(&self, account_ty: AddressType) -> Option<CommsMain> {
        mailbox_in(self.table(), account_ty)
    }

    /// The account types that a mailbox is registered for.
    pub open spec fn endpoints(&self) -> Set<AddressType> {
        Set::new(|account_ty: AddressType| self.mailbox_of(account_ty) is Some)
    }

    /// How many mailboxes the table holds.
    pub open spec fn mailboxes(&self) -> nat {
        self.table().len()
    }

    /// A registry over the identities that were pending when the process
    /// last stopped, with no mailbox registered yet.
    pub fn new(idents: Vec<OnChainIdentity>) -> (res: Self)
        ensures
            res.idents() == idents@,
            res.table() == Seq::<(AddressType, CommsMain)>::empty(),
            single(res.table()),
            res.endpoints() == Set::<AddressType>::empty(),
            res.mailboxes() == 0,
    {
        let (to_main, listener) = open_channel();
        let res = IdentityManager {
            idents,
            comms: CommsTable { to_main, listener, pairs: Vec::new() },
        };
        assert(res.endpoints() =~= Set::<AddressType>::empty());
        res
    }

    /// The position of the mailbox of an account type.
    fn position(&self, account_ty: AddressType) -> (at: Option<usize>)
        ensures
            match at {
                Some(i) => i < self.table().len() && i == slot(self.table(), account_ty, 0),
                None => slot(self.table(), account_ty, 0) == self.table().len(),
            },
    {
        let mut i: usize = 0;
        while i < self.comms.pairs.len()
            invariant
                i <= self.comms.pairs@.len(),
                slot(self.comms.pairs@, account_ty, 0) == slot(
                    self.comms.pairs@,
                    account_ty,
                    i as int,
                ),
            decreases self.comms.pairs.len() - i,
        {
            if self.comms.pairs[i].0 == account_ty {
                return Some(i);
            }
            i += 1;
        }
        None
    }

    /// The mailbox that is registered for an account type.
    pub fn mailbox(&self, to: AddressType) -> (r: Option<&CommsMain>)
        ensures
            match r {
                Some(mailbox) => self.mailbox_of(to) == Some(*mailbox),
                None => self.mailbox_of(to) is None,
            },
    {
        match self.position(to) {
            Some(i) => Some(&self.comms.pairs[i].1),
            None => None,
        }
    }

    /// Registers the mailbox of an account type over the two sides of a
    /// channel and hands out the channel's side of it: the table sends into
    /// the sending side, the endpoint receives from the receiving side. A
    /// mailbox that was registered for the account type before is
    /// replaced, and no other entry changes.
    pub fn install(
        &mut self,
        account_ty: AddressType,
        tx: Sender<CommsMessage>,
        recv: Receiver<CommsMessage>,
    ) -> (endpoint: CommsVerifier)
        ensures
            endpoint.served() == account_ty,
            endpoint.receiver() == recv,
            endpoint.feed() == tx,
            final(self).idents() == old(self).idents(),
            final(self).table() == installed(old(self).table(), account_ty, CommsMain::over(tx)),
            single(old(self).table()) ==> single(final(self).table()),
    {
        proof {
            lemma_installed(old(self).table(), account_ty, CommsMain::over(tx));
        }
        let ghost feed = tx;
        let mailbox = CommsMain::new(tx);
        match self.position(account_ty) {
            Some(i) => {
                self.comms.pairs.set(i, (account_ty, mailbox));
            },
            None => {
                self.comms.pairs.push((account_ty, mailbox));
            },
        }
        assert(self.table() =~= installed(old(self).table(), account_ty, CommsMain::over(feed)));
        CommsVerifier::new(another_sender(&self.comms.to_main), recv, account_ty, Ghost(feed))
    }

    /// Opens the mailbox of an account type and hands out the channel's
    /// side of it. The table sends into the channel that the endpoint
    /// receives from. A mailbox that was registered for the account type
    /// before is replaced: the last registration wins, and no other entry
    /// changes.
    pub fn register_comms(&mut self, account_ty: AddressType) -> (endpoint: CommsVerifier)
        ensures
            endpoint.served() == account_ty,
            final(self).idents() == old(self).idents(),
            final(self).table() == installed(
                old(self).table(),
                account_ty,
                CommsMain::over(endpoint.feed()),
            ),
            final(self).mailbox_of(account_ty) == Some(CommsMain::over(endpoint.feed())),
            forall|other: AddressType|
                other != account_ty ==> #[trigger] final(self).mailbox_of(other) == old(
                    self,
                ).mailbox_of(other),
            final(self).endpoints() == old(self).endpoints().insert(account_ty),
            final(self).mailboxes() == if old(self).endpoints().contains(account_ty) {
                old(self).mailboxes()
            } else {
                old(self).mailboxes() + 1
            },
            single(old(self).table()) ==> single(final(self).table()),
    {
        let (tx, recv) = open_channel();
        let endpoint = self.install(account_ty, tx, recv);
        proof {
            lemma_installed(old(self).table(), account_ty, CommsMain::over(endpoint.feed()));
            assert(self.endpoints() =~= old(self).endpoints().insert(account_ty)) by {
                assert forall|ty: AddressType|
                    self.endpoints().contains(ty) == old(self).endpoints().insert(
                        account_ty,
                    ).contains(ty) by {
                    if ty != account_ty {
                        assert(self.mailbox_of(ty) == old(self).mailbox_of(ty));
                    }
                }
            }
        }
        endpoint
    }

    /// The next message for the registry, if one is waiting. It never waits
    /// itself.
    pub fn try_recv(&self) -> Option<CommsMessage> {
        arrived(try_receive(&self.comms.listener))
    }

    /// Hands a challenge to the mailbox that is registered for an account
    /// type.
    pub fn inform(
        &self,
        to: AddressType,
        network_address: NetworkAddress,
        challenge: Challenge,
        room_id: Option<RoomId>,
    ) -> (r: Result<(), Fatal>)
        ensures
            self.mailbox_of(to) is None ==> r == Err::<(), Fatal>(Fatal::NoEndpoint(to)),
            self.mailbox_of(to) is Some ==> (r matches Err(fault) ==> fault
                == Fatal::Disconnected(
                CommsMessage::Inform { network_address, challenge, room_id },
            )),
    {
        match self.mailbox(to) {
            Some(mailbox) => mailbox.inform(network_address, challenge, room_id),
            None => Err(Fatal::NoEndpoint(to)),
        }
    }

    /// Tells the mailbox that is registered for an account type that nobody
    /// claims the account it asked for.
    pub fn invalid_request(&self, to: AddressType) -> (r: Result<(), Fatal>)
        ensures
            self.mailbox_of(to) is None ==> r == Err::<(), Fatal>(Fatal::NoEndpoint(to)),
            self.mailbox_of(to) is Some ==> (r matches Err(fault) ==> fault
                == Fatal::Disconnected(CommsMessage::InvalidRequest)),
    {
        match self.mailbox(to) {
            Some(mailbox) => mailbox.invalid_request(),
            None => Err(Fatal::NoEndpoint(to)),
        }
    }

    /// Takes a newly claimed identity into the table.
    pub fn register_request(&mut self, ident: OnChainIdentity) -> (effects: Vec<Effect>)
        ensures
            final(self).idents() == old(self).idents().push(ident),
            final(self).table() == old(self).table(),
            effects@ == registration_effects(ident),
    {
        let mut effects: Vec<Effect> = Vec::new();
        effects.push(Effect::StoreIdentity { identity: ident.clone() });
        match &ident.matrix {
            Some(state) => {
                effects.push(
                    Effect::Inform {
                        to: AddressType::Matrix,
                        network_address: ident.network_address.clone(),
                        challenge: state.challenge().clone(),
                        resume: true,
                    },
                );
            },
            None => {},
        }
        assert(effects@ =~= registration_effects(ident));
        self.idents.push(ident);
        effects
    }

    /// Answers a question for the state of an account.
    pub fn request_account_state(&self, account: &Address, account_ty: AddressType) -> (effect:
        Effect)
        ensures
            effect == account_state_reply(self.idents(), account@, account_ty),
    {
        let mut i: usize = 0;
        while i < self.idents.len()
            invariant
                i <= self.idents@.len(),
                first_claiming(self.idents@, account@, account_ty, 0) == first_claiming(
                    self.idents@,
                    account@,
                    account_ty,
                    i as int,
                ),
            decreases self.idents.len() - i,
        {
            let ident = &self.idents[i];
            match ident.account_state(account_ty) {
                Some(state) => {
                    if state.account().same(account) {
                        return Effect::Inform {
                            to: account_ty,
                            network_address: ident.network_address.clone(),
                            challenge: state.challenge().clone(),
                            resume: false,
                        };
                    }
                },
                None => {},
            }
            i += 1;
        }
        Effect::InvalidRequest { to: account_ty }
    }

    /// Records a verdict on the chat account of an address. A verdict names
    /// no account type; it is taken for the chat account, the one that is
    /// sent its challenge.
    pub fn record_feedback(&mut self, network_address: &NetworkAddress, valid: bool) -> (effects:
        Vec<Effect>)
        ensures
            final(self).idents() == judged_idents(old(self).idents(), *network_address, valid),
            final(self).table() == old(self).table(),
            effects@ == feedback_effects(old(self).idents(), *network_address, valid),
    {
        let ghost before = self.idents@;
        let ghost after = judged_idents(before, *network_address, valid);
        let mut effects: Vec<Effect> = Vec::new();
        let mut i: usize = 0;
        assert(effects@ =~= feedback_effects(before.take(0), *network_address, valid));
        while i < self.idents.len()
            invariant
                i <= self.idents@.len(),
                self.idents@.len() == before.len(),
                self.comms == old(self).comms,
                after == judged_idents(before, *network_address, valid),
                forall|k: int| 0 <= k < i ==> self.idents@[k] == after[k],
                forall|k: int| i <= k < before.len() ==> self.idents@[k] == before[k],
                effects@ == feedback_effects(before.take(i as int), *network_address, valid),
            decreases self.idents.len() - i,
        {
            proof {
                let next = before.take(i + 1);
                assert(next.drop_last() =~= before.take(i as int));
                assert(next.last() == before[i as int]);
            }
            let concerned = self.idents[i].network_address.same(network_address)
                && self.idents[i].matrix.is_some();
            if concerned {
                let updated = self.idents[i].with_verdict(valid);
                effects.push(Effect::StoreIdentity { identity: updated.clone() });
                self.idents.set(i, updated);
            }
            i += 1;
            assert(effects@ =~= feedback_effects(before.take(i as int), *network_address, valid));
        }
        assert(before.take(i as int) =~= before);
        assert(self.idents@ =~= after);
        effects
    }

    /// Takes one message from the registry's mailbox. A message that only
    /// channels receive is a fault of the wiring and leaves the registry as
    /// it was.
    pub fn handle_message(&mut self, message: CommsMessage) -> (r: Result<Vec<Effect>, Fatal>)
        ensures
            final(self).idents() == next_idents(old(self).idents(), message),
            final(self).table() == old(self).table(),
            match r {
                Ok(effects) => effects_of(old(self).idents(), message) == Some(effects@),
                Err(fault) => fault == Fatal::Unrecognized && effects_of(
                    old(self).idents(),
                    message,
                ) is None,
            },
    {
        match message {
            CommsMessage::NewOnChainIdentity(ident) => Ok(self.register_request(ident)),
            CommsMessage::ValidAccount { network_address } => Ok(
                self.record_feedback(&network_address, true),
            ),
            CommsMessage::InvalidAccount { network_address } => Ok(
                self.record_feedback(&network_address, false),
            ),
            CommsMessage::TrackRoomId { pub_key, room_id } => {
                let mut effects: Vec<Effect> = Vec::new();
                effects.push(Effect::StoreSession { pub_key, room_id });
                assert(effects@ =~= seq![Effect::StoreSession { pub_key, room_id }]);
                Ok(effects)
            },
            CommsMessage::RequestAccountState { account, account_ty } => {
                let mut effects: Vec<Effect> = Vec::new();
                effects.push(self.request_account_state(&account, account_ty));
                assert(effects@ =~= seq![
                    account_state_reply(self.idents(), account@, account_ty),
                ]);
                Ok(effects)
            },
            CommsMessage::Inform { .. } => Err(Fatal::Unrecognized),
            CommsMessage::InvalidRequest => Err(Fatal::Unrecognized),
        }
    }
}

/// What the search for a claimant finds: the first identity from `from` on
/// that claims the account, or none where nobody claims it.
pub proof fn lemma_first_claiming(
    idents: Seq<OnChainIdentity>,
    account: Seq<char>,
    account_ty: AddressType,
    from: int,
)
    requires
        0 <= from,
    ensures
        match first_claiming(idents, account, account_ty, from) {
            Some(i) => {
                &&& from <= i < idents.len()
                &&& idents[i].claims(account, account_ty)
                &&& forall|k: int| from <= k < i ==> !(#[trigger] idents[k]).claims(account, account_ty)
            },
            None => forall|k: int|
                from <= k < idents.len() ==> !(#[trigger] idents[k]).claims(account, account_ty),
        },
    decreases idents.len() - from,
{
    if from < idents.len() && !idents[from].claims(account, account_ty) {
        lemma_first_claiming(idents, account, account_ty, from + 1);
    }
}

/// Registering an identity with a chat account asks for exactly one
/// challenge message: it goes to the chat mailbox and carries the address
/// of the identity and the challenge of that account. Registering an
/// identity without chat account asks for none.
pub proof fn lemma_registration_informs_once(idents: Seq<OnChainIdentity>, ident: OnChainIdentity)
    ensures
        next_idents(idents, CommsMessage::NewOnChainIdentity(ident)) == idents.push(ident),
        effects_of(idents, CommsMessage::NewOnChainIdentity(ident)) matches Some(effects) && {
            &&& effects[0] == Effect::StoreIdentity { identity: ident }
            &&& match ident.matrix {
                Some(state) => {
                    &&& effects.len() == 2
                    &&& effects[1] == Effect::Inform {
                        to: AddressType::Matrix,
                        network_address: ident.network_address,
                        challenge: state.issued(),
                        resume: true,
                    }
                },
                None => effects.len() == 1,
            }
            &&& forall|k: int|
                0 <= k < effects.len() && k != 1 ==> !(#[trigger] effects[k] is Inform)
            &&& forall|k: int| 0 <= k < effects.len() ==> !(#[trigger] effects[k] is InvalidRequest)
        },
{
}

/// A question for an account that no identity claims is answered by exactly
/// one refusal, to the mailbox of the account type asked for, and by no
/// challenge. The table stays as it is.
pub proof fn lemma_unclaimed_account_is_refused(
    idents: Seq<OnChainIdentity>,
    account: Address,
    account_ty: AddressType,
)
    requires
        forall|i: int| 0 <= i < idents.len() ==> !(#[trigger] idents[i]).claims(account@, account_ty),
    ensures
        effects_of(idents, CommsMessage::RequestAccountState { account, account_ty }) == Some(
            seq![Effect::InvalidRequest { to: account_ty }],
        ),
        next_idents(idents, CommsMessage::RequestAccountState { account, account_ty }) == idents,
{
    lemma_first_claiming(idents, account@, account_ty, 0);
}

/// A question for an account that an identity claims is answered by the
/// challenge of the first such identity, to the mailbox of the account type
/// asked for, without a session.
pub proof fn lemma_claimed_account_is_informed(
    idents: Seq<OnChainIdentity>,
    account: Address,
    account_ty: AddressType,
    i: int,
)
    requires
        0 <= i < idents.len(),
        idents[i].claims(account@, account_ty),
        forall|k: int| 0 <= k < i ==> !(#[trigger] idents[k]).claims(account@, account_ty),
    ensures
        effects_of(idents, CommsMessage::RequestAccountState { account, account_ty }) == Some(
            seq![
                Effect::Inform {
                    to: account_ty,
                    network_address: idents[i].network_address,
                    challenge: idents[i].state_of(account_ty).unwrap().issued(),
                    resume: false,
                },
            ],
        ),
{
    lemma_first_claiming(idents, account@, account_ty, 0);
}

/// No message removes an identity, changes whom it names or which accounts
/// it claims, replaces a challenge or withdraws a confirmation.
pub proof fn lemma_identities_are_kept(idents: Seq<OnChainIdentity>, message: CommsMessage)
    ensures
        next_idents(idents, message).len() >= idents.len(),
        forall|i: int|
            0 <= i < idents.len() ==> {
                let before = #[trigger] idents[i];
                let after = next_idents(idents, message)[i];
                &&& after.network_address == before.network_address
                &&& after.display_name == before.display_name
                &&& after.legal_name == before.legal_name
                &&& after.email == before.email
                &&& after.web == before.web
                &&& after.twitter == before.twitter
                &&& match before.matrix {
                    Some(old_state) => after.matrix matches Some(new_state) && {
                        &&& new_state.issued() == old_state.issued()
                        &&& new_state@.account == old_state@.account
                        &&& new_state@.account_ty == old_state@.account_ty
                        &&& new_state@.challenge == old_state@.challenge
                        &&& old_state@.confirmed ==> new_state@.confirmed
                    },
                    None => after.matrix is None,
                }
            },
{
    assert forall|i: int| 0 <= i < idents.len() implies {
        let before = #[trigger] idents[i];
        let after = next_idents(idents, message)[i];
        &&& after.network_address == before.network_address
        &&& after.display_name == before.display_name
        &&& after.legal_name == before.legal_name
        &&& after.email == before.email
        &&& after.web == before.web
        &&& after.twitter == before.twitter
        &&& match before.matrix {
            Some(old_state) => after.matrix matches Some(new_state) && {
                &&& new_state.issued() == old_state.issued()
                &&& new_state@.account == old_state@.account
                &&& new_state@.account_ty == old_state@.account_ty
                &&& new_state@.challenge == old_state@.challenge
                &&& old_state@.confirmed ==> new_state@.confirmed
            },
            None => after.matrix is None,
        }
    } by {
        if let Some(state) = idents[i].matrix {
            state.lemma_judged(true);
            state.lemma_judged(false);
        }
    }
}

} // verus!
