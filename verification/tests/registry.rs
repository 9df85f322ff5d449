use crossbeam::channel::{unbounded, TryRecvError};
use registrar::comms::{arrived, delivered, POLL_INTERVAL_MS};
use registrar::manager::{PENDING_IDENTITIES, SESSION_HANDLES};
use registrar::{
    verification_handler, AccountState, AccountValidity, Address, AddressType, Challenge,
    ChallengeStatus, CommsMessage, Effect, Fatal, IdentityManager, NetAccount, NetworkAddress,
    OnChainIdentity, PubKey, RoomId, Verifier2,
};
use schnorrkel::{ExpansionMode, Keypair, MiniSecretKey};

const ALICE: &str = "5GrwvaEF5zXb26Fz9rcQpDWS57CtERHpNehXCPcNoHGKutQY";

fn keypair(seed: u8) -> Keypair {
    MiniSecretKey::from_bytes(&[seed; 32])
        .unwrap()
        .expand_to_keypair(ExpansionMode::Ed25519)
}

fn address(name: &str, seed: u8) -> NetworkAddress {
    NetworkAddress::new(
        NetAccount::new(name),
        PubKey::from_bytes(&keypair(seed).public.to_bytes()).unwrap(),
    )
}

fn state(account: &str, ty: AddressType, challenge: &str) -> AccountState {
    AccountState::with_challenge(Address::new(account), ty, Challenge::new(challenge))
}

fn chat_identity(name: &str, seed: u8, account: &str, challenge: &str) -> OnChainIdentity {
    let mut ident = OnChainIdentity::new(address(name, seed));
    ident.matrix = Some(state(account, AddressType::Matrix, challenge));
    ident
}

fn informs(effects: &[Effect]) -> usize {
    effects.iter().filter(|e| matches!(e, Effect::Inform { .. })).count()
}

fn refusals(effects: &[Effect]) -> usize {
    effects.iter().filter(|e| matches!(e, Effect::InvalidRequest { .. })).count()
}

#[test]
fn partitions_and_interval_have_their_values() {
    assert_eq!(PENDING_IDENTITIES, "pending_identities");
    assert_eq!(SESSION_HANDLES, "matrix_rooms");
    assert_eq!(POLL_INTERVAL_MS, 50);
}

#[test]
fn registering_a_chat_identity_informs_the_chat_mailbox_once() {
    let mut manager = IdentityManager::new(vec![]);
    let ident = chat_identity(ALICE, 1, "@alice:matrix.org", "c1");
    let effects = manager.register_request(ident);
    assert_eq!(effects.len(), 2);
    assert_eq!(informs(&effects), 1);
    assert_eq!(refusals(&effects), 0);
    match &effects[0] {
        Effect::StoreIdentity { identity } => {
            assert!(identity.network_address.same(&address(ALICE, 1)));
            assert_eq!(identity.matrix.as_ref().unwrap().challenge.as_str(), "c1");
            assert_eq!(
                identity.matrix.as_ref().unwrap().account().as_str(),
                "@alice:matrix.org"
            );
        }
        other => panic!("{:?}", other),
    }
    match &effects[1] {
        Effect::Inform { to, network_address, challenge, resume } => {
            assert_eq!(*to, AddressType::Matrix);
            assert!(network_address.same(&address(ALICE, 1)));
            assert_eq!(challenge.as_str(), "c1");
            assert!(*resume);
        }
        other => panic!("{:?}", other),
    }
}

#[test]
fn registering_an_identity_without_chat_account_informs_nobody() {
    let mut manager = IdentityManager::new(vec![]);
    let mut ident = OnChainIdentity::new(address(ALICE, 1));
    ident.email = Some(state("alice@web3.foundation", AddressType::Email, "c2"));
    let effects = manager.register_request(ident);
    assert_eq!(effects.len(), 1);
    assert_eq!(informs(&effects), 0);
    assert!(matches!(&effects[0], Effect::StoreIdentity { .. }));
    let found = manager.request_account_state(
        &Address::new("alice@web3.foundation"),
        AddressType::Email,
    );
    assert!(matches!(found, Effect::Inform { .. }));
}

#[test]
fn question_for_an_unclaimed_account_is_refused() {
    let mut manager = IdentityManager::new(vec![]);
    let effect = manager.request_account_state(&Address::new("@alice:matrix.org"), AddressType::Matrix);
    assert!(matches!(effect, Effect::InvalidRequest { to: AddressType::Matrix }));
    manager.register_request(chat_identity(ALICE, 1, "@alice:matrix.org", "c1"));
    let effects = manager
        .handle_message(CommsMessage::RequestAccountState {
            account: Address::new("@bob:matrix.org"),
            account_ty: AddressType::Matrix,
        })
        .unwrap();
    assert_eq!(effects.len(), 1);
    assert_eq!(refusals(&effects), 1);
    assert_eq!(informs(&effects), 0);
    assert!(matches!(&effects[0], Effect::InvalidRequest { to: AddressType::Matrix }));
    let effects = manager
        .handle_message(CommsMessage::RequestAccountState {
            account: Address::new("@alice:matrix.org"),
            account_ty: AddressType::Email,
        })
        .unwrap();
    assert!(matches!(&effects[0], Effect::InvalidRequest { to: AddressType::Email }));
    let effects = manager
        .handle_message(CommsMessage::RequestAccountState {
            account: Address::new("@alice:matrix.org"),
            account_ty: AddressType::DisplayName,
        })
        .unwrap();
    assert!(matches!(&effects[0], Effect::InvalidRequest { to: AddressType::DisplayName }));
}

#[test]
fn question_for_a_claimed_account_is_answered_with_its_challenge() {
    let mut manager = IdentityManager::new(vec![
        chat_identity("5Fbob", 2, "@bob:matrix.org", "c-bob"),
        chat_identity(ALICE, 1, "@alice:matrix.org", "c1"),
        chat_identity("5Hlate", 3, "@alice:matrix.org", "c-late"),
    ]);
    let effects = manager
        .handle_message(CommsMessage::RequestAccountState {
            account: Address::new("@alice:matrix.org"),
            account_ty: AddressType::Matrix,
        })
        .unwrap();
    assert_eq!(effects.len(), 1);
    match &effects[0] {
        Effect::Inform { to, network_address, challenge, resume } => {
            assert_eq!(*to, AddressType::Matrix);
            assert!(network_address.same(&address(ALICE, 1)));
            assert_eq!(challenge.as_str(), "c1");
            assert!(!*resume);
        }
        other => panic!("{:?}", other),
    }
}

#[test]
fn session_handle_is_stored_under_its_key() {
    let mut manager = IdentityManager::new(vec![]);
    let key = *address(ALICE, 1).pub_key();
    let effects = manager
        .handle_message(CommsMessage::TrackRoomId {
            pub_key: key,
            room_id: RoomId::new("!room:matrix.org"),
        })
        .unwrap();
    assert_eq!(effects.len(), 1);
    match &effects[0] {
        Effect::StoreSession { pub_key, room_id } => {
            assert!(pub_key.same(&key));
            assert_eq!(room_id.as_str(), "!room:matrix.org");
        }
        other => panic!("{:?}", other),
    }
}

#[test]
fn messages_for_channels_are_a_fault_at_the_registry() {
    let mut manager = IdentityManager::new(vec![chat_identity(ALICE, 1, "@alice:matrix.org", "c1")]);
    assert!(matches!(
        manager.handle_message(CommsMessage::InvalidRequest),
        Err(Fatal::Unrecognized)
    ));
    assert!(matches!(
        manager.handle_message(CommsMessage::Inform {
            network_address: address(ALICE, 1),
            challenge: Challenge::new("c1"),
            room_id: None,
        }),
        Err(Fatal::Unrecognized)
    ));
    let found = manager.request_account_state(&Address::new("@alice:matrix.org"), AddressType::Matrix);
    assert!(matches!(found, Effect::Inform { .. }));
}

#[test]
fn feedback_updates_and_stores_the_chat_account() {
    let mut with_mail = chat_identity(ALICE, 1, "@alice:matrix.org", "c1");
    with_mail.email = Some(state("alice@web3.foundation", AddressType::Email, "c2"));
    let mut manager = IdentityManager::new(vec![
        chat_identity("5Fbob", 2, "@bob:matrix.org", "c-bob"),
        with_mail,
        OnChainIdentity::new(address("5Hdave", 4)),
    ]);
    let effects = manager
        .handle_message(CommsMessage::ValidAccount { network_address: address(ALICE, 1) })
        .unwrap();
    assert_eq!(effects.len(), 1);
    match &effects[0] {
        Effect::StoreIdentity { identity } => {
            assert!(identity.network_address.same(&address(ALICE, 1)));
            let chat = identity.matrix.as_ref().unwrap();
            assert_eq!(chat.account_validity(), AccountValidity::Valid);
            assert!(chat.is_confirmed());
            assert_eq!(chat.challenge.as_str(), "c1");
            let mail = identity.email.as_ref().unwrap();
            assert_eq!(mail.account_validity(), AccountValidity::Unknown);
            assert!(!mail.is_confirmed());
        }
        other => panic!("{:?}", other),
    }
    let effects = manager
        .handle_message(CommsMessage::InvalidAccount { network_address: address(ALICE, 1) })
        .unwrap();
    assert_eq!(effects.len(), 1);
    match &effects[0] {
        Effect::StoreIdentity { identity } => {
            let chat = identity.matrix.as_ref().unwrap();
            assert_eq!(chat.account_validity(), AccountValidity::Invalid);
            assert!(chat.is_confirmed());
            assert_eq!(chat.challenge.as_str(), "c1");
        }
        other => panic!("{:?}", other),
    }
    let effects = manager
        .handle_message(CommsMessage::InvalidAccount { network_address: address("5Fbob", 2) })
        .unwrap();
    match &effects[0] {
        Effect::StoreIdentity { identity } => {
            let chat = identity.matrix.as_ref().unwrap();
            assert_eq!(chat.account_validity(), AccountValidity::Invalid);
            assert!(!chat.is_confirmed());
        }
        other => panic!("{:?}", other),
    }
}

#[test]
fn feedback_for_unknown_addresses_changes_nothing() {
    let mut manager = IdentityManager::new(vec![
        chat_identity(ALICE, 1, "@alice:matrix.org", "c1"),
        OnChainIdentity::new(address("5Hdave", 4)),
    ]);
    let effects = manager
        .handle_message(CommsMessage::ValidAccount { network_address: address("5Fbob", 2) })
        .unwrap();
    assert!(effects.is_empty());
    let effects = manager
        .handle_message(CommsMessage::ValidAccount { network_address: address(ALICE, 2) })
        .unwrap();
    assert!(effects.is_empty());
    let effects = manager
        .handle_message(CommsMessage::ValidAccount { network_address: address("5Hdave", 4) })
        .unwrap();
    assert!(effects.is_empty());
}

#[test]
fn mailbox_hands_messages_over_in_order() {
    let mut manager = IdentityManager::new(vec![]);
    let chat = manager.register_comms(AddressType::Matrix);
    assert_eq!(chat.address_ty(), AddressType::Matrix);
    assert!(chat.try_recv().is_none());
    manager
        .inform(AddressType::Matrix, address(ALICE, 1), Challenge::new("c1"), None)
        .unwrap();
    manager
        .inform(
            AddressType::Matrix,
            address("5Fbob", 2),
            Challenge::new("c2"),
            Some(RoomId::new("!room:matrix.org")),
        )
        .unwrap();
    manager.invalid_request(AddressType::Matrix).unwrap();
    let (who, challenge, room) = chat.try_recv().unwrap().into_inform().unwrap();
    assert!(who.same(&address(ALICE, 1)));
    assert_eq!(challenge.as_str(), "c1");
    assert!(room.is_none());
    let (who, challenge, room) = chat.try_recv().unwrap().into_inform().unwrap();
    assert!(who.same(&address("5Fbob", 2)));
    assert_eq!(challenge.as_str(), "c2");
    assert_eq!(room.unwrap().as_str(), "!room:matrix.org");
    let last = chat.try_recv().unwrap();
    assert!(matches!(last, CommsMessage::InvalidRequest));
    assert!(last.into_inform().is_none());
    assert!(chat.try_recv().is_none());
}

#[test]
fn channels_reach_the_registry() {
    let mut manager = IdentityManager::new(vec![]);
    let chat = manager.register_comms(AddressType::Matrix);
    let mail = manager.register_comms(AddressType::Email);
    assert!(manager.try_recv().is_none());
    chat.request_account_state(Address::new("@alice:matrix.org"), AddressType::Matrix).unwrap();
    mail.new_on_chain_identity(chat_identity(ALICE, 1, "@alice:matrix.org", "c1")).unwrap();
    chat.valid_feedback(address(ALICE, 1)).unwrap();
    chat.invalid_feedback(address("5Fbob", 2)).unwrap();
    chat.track_room_id(*address(ALICE, 1).pub_key(), RoomId::new("!room:matrix.org")).unwrap();
    match manager.try_recv().unwrap() {
        CommsMessage::RequestAccountState { account, account_ty } => {
            assert_eq!(account.as_str(), "@alice:matrix.org");
            assert_eq!(account_ty, AddressType::Matrix);
        }
        other => panic!("{:?}", other),
    }
    match manager.try_recv().unwrap() {
        CommsMessage::NewOnChainIdentity(ident) => {
            assert_eq!(ident.address().as_str(), ALICE)
        }
        other => panic!("{:?}", other),
    }
    match manager.try_recv().unwrap() {
        CommsMessage::ValidAccount { network_address } => {
            assert!(network_address.same(&address(ALICE, 1)))
        }
        other => panic!("{:?}", other),
    }
    match manager.try_recv().unwrap() {
        CommsMessage::InvalidAccount { network_address } => {
            assert!(network_address.same(&address("5Fbob", 2)))
        }
        other => panic!("{:?}", other),
    }
    match manager.try_recv().unwrap() {
        CommsMessage::TrackRoomId { pub_key, room_id } => {
            assert!(pub_key.same(address(ALICE, 1).pub_key()));
            assert_eq!(room_id.as_str(), "!room:matrix.org");
        }
        other => panic!("{:?}", other),
    }
    assert!(manager.try_recv().is_none());
    assert!(chat.try_recv().is_none());
    assert!(mail.try_recv().is_none());
}

#[test]
fn mailboxes_are_kept_apart() {
    let mut manager = IdentityManager::new(vec![]);
    let chat = manager.register_comms(AddressType::Matrix);
    let mail = manager.register_comms(AddressType::Email);
    manager
        .inform(AddressType::Email, address(ALICE, 1), Challenge::new("c2"), None)
        .unwrap();
    assert!(chat.try_recv().is_none());
    let (_, challenge, _) = mail.try_recv().unwrap().into_inform().unwrap();
    assert_eq!(challenge.as_str(), "c2");
}

#[test]
fn sending_without_mailbox_is_a_fault() {
    let mut manager = IdentityManager::new(vec![]);
    let _chat = manager.register_comms(AddressType::Matrix);
    assert!(matches!(
        manager.inform(AddressType::Email, address(ALICE, 1), Challenge::new("c1"), None),
        Err(Fatal::NoEndpoint(AddressType::Email))
    ));
    assert!(matches!(
        manager.invalid_request(AddressType::Web),
        Err(Fatal::NoEndpoint(AddressType::Web))
    ));
}

#[test]
fn sending_to_a_dropped_receiver_is_a_fault_that_returns_the_message() {
    let mut manager = IdentityManager::new(vec![]);
    let chat = manager.register_comms(AddressType::Matrix);
    drop(chat);
    match manager.inform(AddressType::Matrix, address(ALICE, 1), Challenge::new("c1"), None) {
        Err(Fatal::Disconnected(CommsMessage::Inform { network_address, challenge, room_id })) => {
            assert!(network_address.same(&address(ALICE, 1)));
            assert_eq!(challenge.as_str(), "c1");
            assert!(room_id.is_none());
        }
        other => panic!("{:?}", other),
    }
    assert!(matches!(
        manager.invalid_request(AddressType::Matrix),
        Err(Fatal::Disconnected(CommsMessage::InvalidRequest))
    ));
    let mut manager = IdentityManager::new(vec![]);
    let chat = manager.register_comms(AddressType::Matrix);
    drop(manager);
    match chat.request_account_state(Address::new("@alice:matrix.org"), AddressType::Matrix) {
        Err(Fatal::Disconnected(CommsMessage::RequestAccountState { account, account_ty })) => {
            assert_eq!(account.as_str(), "@alice:matrix.org");
            assert_eq!(account_ty, AddressType::Matrix);
        }
        other => panic!("{:?}", other),
    }
}

#[test]
fn registering_an_account_type_again_replaces_its_mailbox() {
    let mut manager = IdentityManager::new(vec![]);
    let first = manager.register_comms(AddressType::Matrix);
    let second = manager.register_comms(AddressType::Matrix);
    manager
        .inform(AddressType::Matrix, address(ALICE, 1), Challenge::new("c1"), None)
        .unwrap();
    assert!(first.try_recv().is_none());
    let (_, challenge, _) = second.try_recv().unwrap().into_inform().unwrap();
    assert_eq!(challenge.as_str(), "c1");
    assert!(second.try_recv().is_none());
}

#[test]
fn verify_matrix() {
    let alice = keypair(1);
    let mut manager = IdentityManager::new(vec![]);
    let matrix = manager.register_comms(AddressType::Matrix);
    let mut ident = OnChainIdentity::new(address(ALICE, 1));
    ident.matrix = Some(AccountState::new(Address::new("@alice:matrix.org"), AddressType::Matrix));
    let c1 = ident.matrix.as_ref().unwrap().challenge.as_str().to_string();

    // The claim reaches the registry, which stores it and informs the chat
    // channel.
    matrix.new_on_chain_identity(ident).unwrap();
    let effects = manager.handle_message(manager.try_recv().unwrap()).unwrap();
    assert_eq!(effects.len(), 2);
    let mut stored = Vec::new();
    for effect in effects {
        match effect {
            Effect::StoreIdentity { identity } => {
                stored.push((identity.pub_key().to_bytes(), identity));
            }
            Effect::Inform { to, network_address, challenge, resume } => {
                assert_eq!(stored.len(), 1);
                assert!(resume);
                manager.inform(to, network_address, challenge, None).unwrap();
            }
            other => panic!("{:?}", other),
        }
    }
    assert_eq!(stored[0].0, alice.public.to_bytes());
    let (who, challenge, room) = matrix.try_recv().unwrap().into_inform().unwrap();
    assert_eq!(who.address().as_str(), ALICE);
    assert_eq!(challenge.as_str(), c1);
    assert!(room.is_none());
    assert!(matrix.try_recv().is_none());

    // The channel asks the claimant, who signs the challenge.
    let pairs = vec![(who, challenge)];
    let mut verifier = Verifier2::new(&pairs);
    assert!(verifier.init_message_builder(true).contains(&c1));
    let response = format!(
        "0x{}",
        hex::encode(alice.sign_simple(b"substrate", c1.as_bytes()).to_bytes())
    );
    verifier.verify(&response);
    assert_eq!(verifier.valid_verifications().len(), 1);
    assert!(verifier.invalid_verifications().is_empty());
    assert_eq!(
        verifier.response_message_builder(),
        format!(
            "The following address has been verified:\n\n- Address:\n{}\n- Challenge:\n{}",
            ALICE, c1
        )
    );

    // The outcome is stored as accepted and announced to the registry.
    let changes = verification_handler(&verifier, &AddressType::Matrix);
    assert_eq!(changes.len(), 1);
    assert_eq!(changes[0].address().as_str(), ALICE);
    assert_eq!(changes[0].status, ChallengeStatus::Accepted);
    assert_eq!(changes[0].account_ty, AddressType::Matrix);
    match changes[0].notification() {
        CommsMessage::ValidAccount { network_address } => {
            matrix.valid_feedback(network_address).unwrap()
        }
        other => panic!("{:?}", other),
    }
    let effects = manager.handle_message(manager.try_recv().unwrap()).unwrap();
    assert_eq!(effects.len(), 1);
    match &effects[0] {
        Effect::StoreIdentity { identity } => {
            assert_eq!(identity.address().as_str(), ALICE);
            let chat = identity.matrix.as_ref().unwrap();
            assert_eq!(chat.account().as_str(), "@alice:matrix.org");
            assert_eq!(chat.account_validity(), AccountValidity::Valid);
            assert!(chat.is_confirmed());
            assert_eq!(chat.challenge.as_str(), c1);
        }
        other => panic!("{:?}", other),
    }
    assert!(manager.try_recv().is_none());
}

#[test]
fn a_message_that_was_taken_is_sent() {
    assert!(matches!(delivered(Ok(())), Ok(())));
}

#[test]
fn a_message_that_came_back_is_a_fault_that_carries_it() {
    let back = CommsMessage::RequestAccountState {
        account: Address::new("@alice:matrix.org"),
        account_ty: AddressType::Matrix,
    };
    match delivered(Err(back)) {
        Err(Fatal::Disconnected(CommsMessage::RequestAccountState { account, account_ty })) => {
            assert_eq!(account.as_str(), "@alice:matrix.org");
            assert_eq!(account_ty, AddressType::Matrix);
        }
        other => panic!("{:?}", other),
    }
    assert!(matches!(
        delivered(Err(CommsMessage::InvalidRequest)),
        Err(Fatal::Disconnected(CommsMessage::InvalidRequest))
    ));
}

#[test]
fn a_look_into_a_mailbox_yields_the_message_or_nothing() {
    match arrived(Ok(CommsMessage::ValidAccount { network_address: address(ALICE, 1) })) {
        Some(CommsMessage::ValidAccount { network_address }) => {
            assert!(network_address.same(&address(ALICE, 1)))
        }
        other => panic!("{:?}", other),
    }
    assert!(arrived(Err(TryRecvError::Empty)).is_none());
    assert!(arrived(Err(TryRecvError::Disconnected)).is_none());
}

#[test]
fn receiving_without_senders_yields_nothing() {
    let mut manager = IdentityManager::new(vec![]);
    let chat = manager.register_comms(AddressType::Matrix);
    manager
        .inform(AddressType::Matrix, address(ALICE, 1), Challenge::new("c1"), None)
        .unwrap();
    drop(manager);
    let (_, challenge, _) = chat.try_recv().unwrap().into_inform().unwrap();
    assert_eq!(challenge.as_str(), "c1");
    assert!(chat.try_recv().is_none());
    assert!(chat.try_recv().is_none());
}

#[test]
fn installed_mailbox_sends_into_its_channel() {
    let mut manager = IdentityManager::new(vec![]);
    let (tx, rx) = unbounded();
    let watch = rx.clone();
    let chat = manager.install(AddressType::Matrix, tx, rx);
    assert_eq!(chat.address_ty(), AddressType::Matrix);
    manager
        .inform(AddressType::Matrix, address(ALICE, 1), Challenge::new("c1"), None)
        .unwrap();
    let (_, challenge, _) = watch.try_recv().unwrap().into_inform().unwrap();
    assert_eq!(challenge.as_str(), "c1");
    manager.invalid_request(AddressType::Matrix).unwrap();
    assert!(matches!(chat.try_recv(), Some(CommsMessage::InvalidRequest)));
    assert!(watch.try_recv().is_err());
}

#[test]
fn installing_again_replaces_one_mailbox_and_keeps_the_others() {
    let mut manager = IdentityManager::new(vec![]);
    let (mail_tx, mail_rx) = unbounded();
    let (old_tx, old_rx) = unbounded();
    let (new_tx, new_rx) = unbounded();
    let mail = manager.install(AddressType::Email, mail_tx, mail_rx);
    let first = manager.install(AddressType::Matrix, old_tx, old_rx);
    let second = manager.install(AddressType::Matrix, new_tx, new_rx);
    manager
        .inform(AddressType::Matrix, address(ALICE, 1), Challenge::new("c1"), None)
        .unwrap();
    manager
        .inform(AddressType::Email, address(ALICE, 1), Challenge::new("c2"), None)
        .unwrap();
    assert!(first.try_recv().is_none());
    let (_, challenge, _) = second.try_recv().unwrap().into_inform().unwrap();
    assert_eq!(challenge.as_str(), "c1");
    assert!(second.try_recv().is_none());
    let (_, challenge, _) = mail.try_recv().unwrap().into_inform().unwrap();
    assert_eq!(challenge.as_str(), "c2");
    assert!(mail.try_recv().is_none());
}

#[test]
fn mailbox_is_found_by_its_account_type() {
    let mut manager = IdentityManager::new(vec![]);
    assert!(manager.mailbox(AddressType::Matrix).is_none());
    let chat = manager.register_comms(AddressType::Matrix);
    let mail = manager.register_comms(AddressType::Email);
    assert!(manager.mailbox(AddressType::Web).is_none());
    manager
        .mailbox(AddressType::Email)
        .unwrap()
        .inform(address(ALICE, 1), Challenge::new("c2"), None)
        .unwrap();
    manager.mailbox(AddressType::Matrix).unwrap().invalid_request().unwrap();
    let (_, challenge, _) = mail.try_recv().unwrap().into_inform().unwrap();
    assert_eq!(challenge.as_str(), "c2");
    assert!(mail.try_recv().is_none());
    assert!(matches!(chat.try_recv(), Some(CommsMessage::InvalidRequest)));
    assert!(chat.try_recv().is_none());
}

#[test]
fn status_changes_are_announced_to_the_registry() {
    let pairs = vec![
        (address(ALICE, 1), Challenge::new("c1")),
        (address("5Fbob", 2), Challenge::new("c2")),
    ];
    let mut verifier = Verifier2::new(&pairs);
    verifier.settle(&[true, false]);
    let mut manager = IdentityManager::new(vec![]);
    let chat = manager.register_comms(AddressType::Matrix);
    for change in verification_handler(&verifier, &AddressType::Matrix) {
        chat.notify_status_change(&change).unwrap();
    }
    match manager.try_recv().unwrap() {
        CommsMessage::ValidAccount { network_address } => {
            assert!(network_address.same(&address(ALICE, 1)))
        }
        other => panic!("{:?}", other),
    }
    match manager.try_recv().unwrap() {
        CommsMessage::InvalidAccount { network_address } => {
            assert!(network_address.same(&address("5Fbob", 2)))
        }
        other => panic!("{:?}", other),
    }
    assert!(manager.try_recv().is_none());
    drop(manager);
    let change = &verification_handler(&verifier, &AddressType::Matrix)[0];
    assert!(matches!(
        chat.notify_status_change(change),
        Err(Fatal::Disconnected(CommsMessage::ValidAccount { .. }))
    ));
}
