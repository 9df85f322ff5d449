//! Pending identities: one claimed network address with the state of each
//! of its off-chain accounts.

use crate::primitives::{Address, AddressType, Challenge, NetAccount, NetworkAddress, PubKey};
use vstd::prelude::*;

verus! {

/// What is known of an account's ownership.
#[derive(Clone, Copy, Debug, PartialEq, Eq, Structural)]
pub enum AccountValidity {
    Unknown,
    Valid,
    Invalid,
}

/// What an account state holds.
pub struct AccountStateView {
    pub account: Seq<char>,
    pub account_ty: AddressType,
    pub account_validity: AccountValidity,
    pub challenge: Seq<char>,
    pub confirmed: bool,
}

/// The state of one off-chain account of an identity: the account, what is
/// known of its ownership, and the challenge issued for it.
#[derive(Debug)]
pub struct AccountState {
    account: Address,
    account_ty: AddressType,
    account_validity: AccountValidity,
    pub challenge: Challenge,
    confirmed: bool,
}

impl View for AccountState {
    type V = AccountStateView;

    closed spec fn view(&self) -> AccountStateView {
        AccountStateView {
            account: self.account@,
            account_ty: self.account_ty,
            account_validity: self.account_validity,
            challenge: self.challenge@,
            confirmed: self.confirmed,
        }
    }
}

impl Clone for AccountState {
    fn clone(&self) -> (res: Self)
        ensures
            res == *self,
    {
        AccountState {
            account: self.account.clone(),
            account_ty: self.account_ty,
            account_validity: self.account_validity,
            challenge: self.challenge.clone(),
            confirmed: self.confirmed,
        }
    }
}

impl AccountState {
    /// A state is fresh while nothing is known of the account's ownership.
    pub open spec fn is_fresh(&self) -> bool {
        self@.account_validity == AccountValidity::Unknown && !self@.confirmed
    }

    /// The state after a verdict on the account. A verdict never withdraws a
    /// confirmation, and nothing but the verdict changes.
    pub closed spec fn judged(self, valid: bool) -> AccountState {
        AccountState {
            account_validity: if valid {
                AccountValidity::Valid
            } else {
                AccountValidity::Invalid
            },
            confirmed: self.confirmed || valid,
            ..self
        }
    }

    /// The challenge that was issued for the account.
    pub closed spec fn issued(&self) -> Challenge {
        self.challenge
    }

    /// What a verdict changes, by field.
    pub proof fn lemma_judged(self, valid: bool)
        ensures
            self.issued()@ == self@.challenge,
            self.judged(valid).issued() == self.issued(),
            self.judged(valid)@ == (AccountStateView {
                account_validity: if valid {
                    AccountValidity::Valid
                } else {
                    AccountValidity::Invalid
                },
                confirmed: self@.confirmed || valid,
                ..self@
            }),
    {
    }

    /// The state of a newly claimed account, with a fresh random challenge.
    pub fn new(account: Address, account_ty: AddressType) -> (res: Self)
        ensures
            res@.account == account@,
            res@.account_ty == account_ty,
            res.is_fresh(),
            exists|raw: Seq<u8>|
                raw.len() == 16 && res@.challenge == #[trigger] crate::hexcode::hex_chars(raw),
    {
        AccountState::with_challenge(account, account_ty, Challenge::gen_random())
    }

    /// The state of a newly claimed account under a given challenge.
    pub fn with_challenge(account: Address, account_ty: AddressType, challenge: Challenge) -> (res:
        Self)
        ensures
            res.issued() == challenge,
            res@ == (AccountStateView {
                account: account@,
                account_ty,
                account_validity: AccountValidity::Unknown,
                challenge: challenge@,
                confirmed: false,
            }),
    {
        AccountState {
            account,
            account_ty,
            account_validity: AccountValidity::Unknown,
            challenge,
            confirmed: false,
        }
    }

    /// The state that a stored record describes.
    pub fn from_parts(
        account: Address,
        account_ty: AddressType,
        account_validity: AccountValidity,
        challenge: Challenge,
        confirmed: bool,
    ) -> (res: Self)
        ensures
            res.issued() == challenge,
            res@ == (AccountStateView {
                account: account@,
                account_ty,
                account_validity,
                challenge: challenge@,
                confirmed,
            }),
    {
        AccountState { account, account_ty, account_validity, challenge, confirmed }
    }

    pub fn account(&self) -> (account: &Address)
        ensures
            account@ == self@.account,
    {
        &self.account
    }

    pub fn challenge(&self) -> (challenge: &Challenge)
        ensures
            *challenge == self.issued(),
            challenge@ == self@.challenge,
    {
        &self.challenge
    }

    pub fn account_ty(&self) -> (account_ty: AddressType)
        ensures
            account_ty == self@.account_ty,
    {
        self.account_ty
    }

    pub fn account_validity(&self) -> (validity: AccountValidity)
        ensures
            validity == self@.account_validity,
    {
        self.account_validity
    }

    pub fn is_confirmed(&self) -> (confirmed: bool)
        ensures
            confirmed == self@.confirmed,
    {
        self.confirmed
    }

    /// Records a verdict on the account.
    pub fn judge(&mut self, valid: bool)
        ensures
            *final(self) == old(self).judged(valid),
    {
        if valid {
            self.account_validity = AccountValidity::Valid;
            self.confirmed = true;
        } else {
            self.account_validity = AccountValidity::Invalid;
        }
    }
}

/// One claimed network address with its names and the state of each of its
/// accounts.
#[derive(Debug)]
pub struct OnChainIdentity {
    pub network_address: NetworkAddress,
    pub display_name: Option<String>,
    pub legal_name: Option<String>,
    pub email: Option<AccountState>,
    pub web: Option<AccountState>,
    pub twitter: Option<AccountState>,
    pub matrix: Option<AccountState>,
}

fn clone_name(name: &Option<String>) -> (res: Option<String>)
    ensures
        res == *name,
{
    match name {
        Some(text) => Some(text.clone()),
        None => None,
    }
}

fn clone_state(state: &Option<AccountState>) -> (res: Option<AccountState>)
    ensures
        res == *state,
{
    match state {
        Some(held) => Some(held.clone()),
        None => None,
    }
}

impl Clone for OnChainIdentity {
    fn clone(&self) -> (res: Self)
        ensures
            res == *self,
    {
        OnChainIdentity {
            network_address: self.network_address.clone(),
            display_name: clone_name(&self.display_name),
            legal_name: clone_name(&self.legal_name),
            email: clone_state(&self.email),
            web: clone_state(&self.web),
            twitter: clone_state(&self.twitter),
            matrix: clone_state(&self.matrix),
        }
    }
}

impl OnChainIdentity {
    /// The account state that the identity holds for an account type. Names
    /// have no state of their own.
    pub open spec fn state_of(&self, account_ty: AddressType) -> Option<AccountState> {
        match account_ty {
            AddressType::Email => self.email,
            AddressType::Web => self.web,
            AddressType::Twitter => self.twitter,
            AddressType::Matrix => self.matrix,
            AddressType::LegalName | AddressType::DisplayName => None,
        }
    }

    /// Whether the identity claims the account under the account type.
    pub open spec fn claims(&self, account: Seq<char>, account_ty: AddressType) -> bool {
        self.state_of(account_ty) matches Some(state) && state@.account == account
    }

    /// The identity after a verdict on its chat account. An identity without
    /// chat account is as before.
    pub open spec fn judged(self, valid: bool) -> OnChainIdentity {
        OnChainIdentity {
            matrix: match self.matrix {
                Some(state) => Some(state.judged(valid)),
                None => None,
            },
            ..self
        }
    }

    /// A copy of the identity with a verdict on its chat account.
    pub fn with_verdict(&self, valid: bool) -> (res: OnChainIdentity)
        ensures
            res == self.judged(valid),
    {
        let matrix = match &self.matrix {
            Some(state) => {
                let mut state = state.clone();
                state.judge(valid);
                Some(state)
            },
            None => None,
        };
        OnChainIdentity {
            network_address: self.network_address.clone(),
            display_name: clone_name(&self.display_name),
            legal_name: clone_name(&self.legal_name),
            email: clone_state(&self.email),
            web: clone_state(&self.web),
            twitter: clone_state(&self.twitter),
            matrix,
        }
    }

    /// An identity that claims a network address and nothing else yet.
    pub fn new(network_address: NetworkAddress) -> (res: Self)
        ensures
            res == (OnChainIdentity {
                network_address,
                display_name: None,
                legal_name: None,
                email: None,
                web: None,
                twitter: None,
                matrix: None,
            }),
    {
        OnChainIdentity {
            network_address,
            display_name: None,
            legal_name: None,
            email: None,
            web: None,
            twitter: None,
            matrix: None,
        }
    }

    pub fn address(&self) -> (address: &NetAccount)
        ensures
            *address == self.network_address.address,
    {
        &self.network_address.address
    }

    pub fn pub_key(&self) -> (pub_key: &PubKey)
        ensures
            *pub_key == self.network_address.pub_key,
    {
        &self.network_address.pub_key
    }

    pub fn account_state(&self, account_ty: AddressType) -> (state: Option<&AccountState>)
        ensures
            match state {
                Some(held) => self.state_of(account_ty) == Some(*held),
                None => self.state_of(account_ty) is None,
            },
    {
        match account_ty {
            AddressType::Email => self.email.as_ref(),
            AddressType::Web => self.web.as_ref(),
            AddressType::Twitter => self.twitter.as_ref(),
            AddressType::Matrix => self.matrix.as_ref(),
            AddressType::LegalName => None,
            AddressType::DisplayName => None,
        }
    }

    /// Whether the identity claims the account under the account type.
    pub fn has_account(&self, account: &Address, account_ty: AddressType) -> (found: bool)
        ensures
            found == self.claims(account@, account_ty),
    {
        match self.account_state(account_ty) {
            Some(state) => state.account().same(account),
            None => false,
        }
    }
}

} // verus!
