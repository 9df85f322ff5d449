//! The verification engine: one candidate signature is checked against
//! every outstanding challenge of a session, and the outcome is told in
//! plain text.

use crate::hexcode::{self, digit_value, hex_bytes, is_hex_text};
use crate::comms::CommsMessage;
use crate::primitives::{
    AddressType, Challenge, ChallengeStatus, NetAccount, NetworkAddress, Signature,
};
use vstd::slice::slice_subrange;
use crate::sr25519::signature_decodes;
use vstd::prelude::*;
use vstd::utf8::*;

verus! {

/// Why a response was refused.
#[derive(Clone, Copy, Debug, PartialEq, Eq, Structural)]
pub enum VerifierError {
    InvalidSignature,
}

impl VerifierError {
    pub open spec fn text(self) -> Seq<char> {
        "This is not a valid signature output."@
    }

    pub fn message(&self) -> (text: &'static str)
        ensures
            text@ == self.text(),
    {
        "This is not a valid signature output."
    }
}

/// A text without its `0x` marker: where the text begins with `0x`, these
/// two bytes are left out. Nothing else is, wherever it stands.
pub open spec fn without_marker(text: Seq<u8>) -> Seq<u8> {
    if text.len() >= 2 && text[0] == 0x30 && text[1] == 0x78 {
        text.skip(2)
    } else {
        text
    }
}

/// The signature that a response stands for: once a leading marker is
/// gone, the text must be hexadecimal and the encoding of a signature.
pub open spec fn decoded_signature(response: Seq<u8>) -> Option<Seq<u8>> {
    let digits = without_marker(response);
    if is_hex_text(digits) && signature_decodes(hex_bytes(digits)) {
        Some(hex_bytes(digits))
    } else {
        None
    }
}

/// Whether a signature, given by its bytes, proves the challenge of a pair
/// for the key of its address.
pub open spec fn proves(pair: (NetworkAddress, Challenge), sig: Seq<u8>) -> bool {
    pair.1.signed_by(pair.0.pub_key@, sig)
}

/// The verdict of a signature on each pair, in order.
pub open spec fn verdicts_of(pairs: Seq<(NetworkAddress, Challenge)>, sig: Seq<u8>) -> Seq<bool> {
    Seq::new(pairs.len(), |i: int| proves(pairs[i], sig))
}

/// The verdict on the item at a position. A position without a verdict
/// counts as refused.
pub open spec fn verdict_at(verdicts: Seq<bool>, i: int) -> bool {
    0 <= i < verdicts.len() && verdicts[i]
}

/// The items whose verdict is the wanted one, in the order of the items.
pub open spec fn chosen<T>(items: Seq<T>, verdicts: Seq<bool>, want: bool) -> Seq<T>
    decreases items.len(),
{
    if items.len() == 0 {
        Seq::empty()
    } else {
        let before = chosen(items.drop_last(), verdicts, want);
        if verdict_at(verdicts, items.len() - 1) == want {
            before.push(items.last())
        } else {
            before
        }
    }
}

/// The positions below `n` whose verdict is the wanted one, ascending.
pub open spec fn positions(n: nat, verdicts: Seq<bool>, want: bool) -> Seq<int>
    decreases n,
{
    if n == 0 {
        Seq::empty()
    } else {
        let before = positions((n - 1) as nat, verdicts, want);
        if verdict_at(verdicts, n - 1) == want {
            before.push(n - 1)
        } else {
            before
        }
    }
}

/// The text behind a leading `0x` marker, and the whole text where it has
/// none.
pub fn strip_marker(text: &[u8]) -> (digits: &[u8])
    ensures
        digits@ == without_marker(text@),
{
    if text.len() >= 2 && text[0] == 0x30 && text[1] == 0x78 {
        let digits = slice_subrange(text, 2, text.len());
        assert(digits@ =~= text@.skip(2));
        digits
    } else {
        text
    }
}

/// The outstanding challenges of one verification session and what has been
/// found of them so far.
pub struct Verifier2<'a> {
    challenges: &'a [(NetworkAddress, Challenge)],
    valid: Vec<(&'a NetworkAddress, &'a Challenge)>,
    invalid: Vec<(&'a NetworkAddress, &'a Challenge)>,
}

/// The pairs behind a list of references.
pub open spec fn pairs_of(held: Seq<(&NetworkAddress, &Challenge)>) -> Seq<
    (NetworkAddress, Challenge),
> {
    held.map_values(|p: (&NetworkAddress, &Challenge)| (*p.0, *p.1))
}

impl<'a> Verifier2<'a> {
    /// The pairs awaiting proof, in the order they were given.
    pub closed spec fn challenges(&self) -> Seq<(NetworkAddress, Challenge)> {
        self.challenges@
    }

    /// The pairs found valid so far, in the order they were found.
    pub closed spec fn valid(&self) -> Seq<(NetworkAddress, Challenge)> {
        pairs_of(self.valid@)
    }

    /// The pairs found invalid so far, in the order they were found.
    pub closed spec fn invalid(&self) -> Seq<(NetworkAddress, Challenge)> {
        pairs_of(self.invalid@)
    }

    pub fn new(challenges: &'a [(NetworkAddress, Challenge)]) -> (res: Self)
        ensures
            res.challenges() == challenges@,
            res.valid() == Seq::<(NetworkAddress, Challenge)>::empty(),
            res.invalid() == Seq::<(NetworkAddress, Challenge)>::empty(),
    {
        let res = Verifier2 { challenges: challenges, valid: Vec::new(), invalid: Vec::new() };
        assert(res.valid() =~= Seq::<(NetworkAddress, Challenge)>::empty());
        assert(res.invalid() =~= Seq::<(NetworkAddress, Challenge)>::empty());
        res
    }

    /// Reads a signature from the text of a response.
    pub fn create_signature(&self, input: &str) -> (r: Result<Signature, VerifierError>)
        ensures
            match r {
                Ok(sig) => decoded_signature(encode_utf8(input@)) == Some(sig@),
                Err(_) => decoded_signature(encode_utf8(input@)) is None,
            },
    {
        let digits = strip_marker(input.as_bytes());
        match hexcode::decode(digits) {
            Err(_) => Err(VerifierError::InvalidSignature),
            Ok(bytes) => match Signature::from_bytes(bytes.as_slice()) {
                Some(sig) => Ok(sig),
                None => Err(VerifierError::InvalidSignature),
            },
        }
    }

    /// Files every outstanding pair under the verdict it was given: under
    /// the valid pairs where the verdict at its position is `true`, under
    /// the invalid ones otherwise.
    pub fn settle(&mut self, verdicts: &[bool])
        ensures
            final(self).challenges() == old(self).challenges(),
            final(self).valid() == old(self).valid() + chosen(
                old(self).challenges(),
                verdicts@,
                true,
            ),
            final(self).invalid() == old(self).invalid() + chosen(
                old(self).challenges(),
                verdicts@,
                false,
            ),
    {
        let challenges: &'a [(NetworkAddress, Challenge)] = self.challenges;
        let ghost valid_before = self.valid();
        let ghost invalid_before = self.invalid();
        let mut i: usize = 0;
        assert(self.valid() =~= valid_before + chosen(challenges@.take(0), verdicts@, true));
        assert(self.invalid() =~= invalid_before + chosen(challenges@.take(0), verdicts@, false));
        while i < challenges.len()
            invariant
                i <= challenges.len(),
                self.challenges == challenges,
                self.valid() == valid_before + chosen(challenges@.take(i as int), verdicts@, true),
                self.invalid() == invalid_before + chosen(
                    challenges@.take(i as int),
                    verdicts@,
                    false,
                ),
            decreases challenges.len() - i,
        {
            let pair = &challenges[i];
            let verdict = i < verdicts.len() && verdicts[i];
            let ghost valid_held = self.valid@;
            let ghost invalid_held = self.invalid@;
            proof {
                let next = challenges@.take(i + 1);
                assert(next.drop_last() =~= challenges@.take(i as int));
                assert(next.last() == challenges@[i as int]);
                assert(verdict == verdict_at(verdicts@, i as int));
            }
            if verdict {
                self.valid.push((&pair.0, &pair.1));
                assert(pairs_of(self.valid@) =~= pairs_of(valid_held).push(*pair));
            } else {
                self.invalid.push((&pair.0, &pair.1));
                assert(pairs_of(self.invalid@) =~= pairs_of(invalid_held).push(*pair));
            }
            i += 1;
            assert(self.valid() =~= valid_before + chosen(
                challenges@.take(i as int),
                verdicts@,
                true,
            ));
            assert(self.invalid() =~= invalid_before + chosen(
                challenges@.take(i as int),
                verdicts@,
                false,
            ));
        }
        assert(challenges@.take(i as int) =~= challenges@);
    }

    /// Checks a signature against every outstanding pair.
    pub fn check(&self, sig: &Signature) -> (verdicts: Vec<bool>)
        ensures
            verdicts@ == verdicts_of(self.challenges(), sig@),
    {
        let mut verdicts: Vec<bool> = Vec::new();
        let mut i: usize = 0;
        while i < self.challenges.len()
            invariant
                i <= self.challenges.len(),
                verdicts@.len() == i,
                forall|k: int| 0 <= k < i ==> verdicts@[k] == proves(self.challenges@[k], sig@),
            decreases self.challenges.len() - i,
        {
            let pair = &self.challenges[i];
            let verdict = pair.1.verify_challenge(pair.0.pub_key(), sig);
            verdicts.push(verdict);
            i += 1;
        }
        assert(verdicts@ =~= verdicts_of(self.challenges(), sig@));
        verdicts
    }

    /// Checks a response against every outstanding pair and files each pair
    /// as valid or invalid. A response that is no signature changes nothing.
    pub fn verify(&mut self, response: &str)
        ensures
            final(self).challenges() == old(self).challenges(),
            match decoded_signature(encode_utf8(response@)) {
                Some(sig) => {
                    &&& final(self).valid() == old(self).valid() + chosen(
                        old(self).challenges(),
                        verdicts_of(old(self).challenges(), sig),
                        true,
                    )
                    &&& final(self).invalid() == old(self).invalid() + chosen(
                        old(self).challenges(),
                        verdicts_of(old(self).challenges(), sig),
                        false,
                    )
                },
                None => {
                    &&& final(self).valid() == old(self).valid()
                    &&& final(self).invalid() == old(self).invalid()
                },
            },
    {
        let sig = if let Ok(sig) = self.create_signature(response) {
            sig
        } else {
            return ;
        };
        let verdicts = self.check(&sig);
        self.settle(verdicts.as_slice());
    }

    /// The addresses found valid so far.
    pub fn valid_verifications(&self) -> (found: Vec<&'a NetworkAddress>)
        ensures
            found@.len() == self.valid().len(),
            forall|k: int| 0 <= k < found@.len() ==> *found@[k] == self.valid()[k].0,
    {
        let mut found: Vec<&'a NetworkAddress> = Vec::new();
        let mut i: usize = 0;
        while i < self.valid.len()
            invariant
                i <= self.valid.len(),
                found@.len() == i,
                forall|k: int| 0 <= k < i ==> *found@[k] == pairs_of(self.valid@)[k].0,
            decreases self.valid.len() - i,
        {
            let address: &'a NetworkAddress = self.valid[i].0;
            found.push(address);
            i += 1;
        }
        found
    }

    /// The addresses found invalid so far.
    pub fn invalid_verifications(&self) -> (found: Vec<&'a NetworkAddress>)
        ensures
            found@.len() == self.invalid().len(),
            forall|k: int| 0 <= k < found@.len() ==> *found@[k] == self.invalid()[k].0,
    {
        let mut found: Vec<&'a NetworkAddress> = Vec::new();
        let mut i: usize = 0;
        while i < self.invalid.len()
            invariant
                i <= self.invalid.len(),
                found@.len() == i,
                forall|k: int| 0 <= k < i ==> *found@[k] == pairs_of(self.invalid@)[k].0,
            decreases self.invalid.len() - i,
        {
            let address: &'a NetworkAddress = self.invalid[i].0;
            found.push(address);
            i += 1;
        }
        found
    }
}

/// The warning that opens a first message to a claimant.
pub const SAFETY_NOTICE: &'static str =
    "[!!] NEVER EXPOSE YOUR PRIVATE KEYS TO ANYONE [!!]\n\nThis contact address was discovered in the Polkadot on-chain naming system and the issuer has requested the Web3 Registrar service to judge this account.If you did not issue this request then just ignore this message.\n\n";

/// The instruction for a single challenge.
pub const SIGN_ONE: &'static str = "Please sign the challenge with the corresponding address:\n";

/// The instruction for several challenges.
pub const SIGN_EACH: &'static str = "Please sign each challenge with the corresponding address:\n";

/// The reference that closes a challenge prompt.
pub const GUIDE: &'static str = "\n\nRefer to the Polkadot Wiki guide https://wiki.polkadot.network/";

/// The whole result when nothing was verified.
pub const SIGNATURE_INVALID: &'static str =
    "The signature is invalid. Refer to the Polkadot Wiki guide.";

/// Heads a single verified address.
pub const VERIFIED_ONE: &'static str = "The following address has been verified:\n";

/// Heads several verified addresses.
pub const VERIFIED_MANY: &'static str = "The following addresses have been verified:\n";

/// Heads the addresses that are still open.
pub const PENDING: &'static str = "\n\nPending/Unconfirmed address(-es) for this account:\n";

/// The lines that show one pair.
pub open spec fn block(pair: (NetworkAddress, Challenge)) -> Seq<char> {
    "\n- Address:\n"@ + pair.0.address@ + "\n- Challenge:\n"@ + pair.1@
}

/// The blocks of a list of pairs, one after the other.
pub open spec fn blocks(pairs: Seq<(NetworkAddress, Challenge)>) -> Seq<char>
    decreases pairs.len(),
{
    if pairs.len() == 0 {
        Seq::empty()
    } else {
        blocks(pairs.drop_last()) + block(pairs.last())
    }
}

/// The prompt that asks a claimant to sign the outstanding challenges.
pub open spec fn challenge_prompt(
    pairs: Seq<(NetworkAddress, Challenge)>,
    send_context: bool,
) -> Seq<char> {
    let notice = if send_context {
        SAFETY_NOTICE@
    } else {
        Seq::empty()
    };
    let instruction = if pairs.len() > 1 {
        SIGN_EACH@
    } else {
        SIGN_ONE@
    };
    notice + instruction + blocks(pairs) + GUIDE@
}

/// The summary of what a response has proved and what is still open.
pub open spec fn result_summary(
    valid: Seq<(NetworkAddress, Challenge)>,
    invalid: Seq<(NetworkAddress, Challenge)>,
) -> Seq<char> {
    if valid.len() == 0 {
        SIGNATURE_INVALID@
    } else {
        let head = if valid.len() == 1 {
            VERIFIED_ONE@
        } else {
            VERIFIED_MANY@
        };
        let open_pairs = if invalid.len() == 0 {
            Seq::empty()
        } else {
            PENDING@ + blocks(invalid)
        };
        head + blocks(valid) + open_pairs
    }
}

/// Appends the block of one pair to a message.
fn push_block(message: &mut String, address: &NetworkAddress, challenge: &Challenge)
    ensures
        final(message)@ == old(message)@ + block((*address, *challenge)),
{
    let ghost before = message@;
    message.append("\n- Address:\n");
    message.append(address.address().as_str());
    message.append("\n- Challenge:\n");
    message.append(challenge.as_str());
    assert(message@ =~= before + block((*address, *challenge)));
}

/// Appends the blocks of a list of held pairs to a message.
fn push_blocks(message: &mut String, held: &Vec<(&NetworkAddress, &Challenge)>)
    ensures
        final(message)@ == old(message)@ + blocks(pairs_of(held@)),
{
    let ghost before = message@;
    let ghost pairs = pairs_of(held@);
    let mut i: usize = 0;
    assert(message@ =~= before + blocks(pairs.take(0)));
    while i < held.len()
        invariant
            i <= held.len(),
            pairs == pairs_of(held@),
            message@ == before + blocks(pairs.take(i as int)),
        decreases held.len() - i,
    {
        proof {
            let next = pairs.take(i + 1);
            assert(next.drop_last() =~= pairs.take(i as int));
            assert(next.last() == pairs[i as int]);
        }
        push_block(message, held[i].0, held[i].1);
        i += 1;
        assert(message@ =~= before + blocks(pairs.take(i as int)));
    }
    assert(pairs.take(i as int) =~= pairs);
}

impl<'a> Verifier2<'a> {
    /// The prompt for the outstanding challenges, with the safety notice in
    /// front where a conversation begins.
    pub fn init_message_builder(&self, send_context: bool) -> (message: String)
        ensures
            message@ == challenge_prompt(self.challenges(), send_context),
    {
        let mut message = String::new();
        if send_context {
            message.append(SAFETY_NOTICE);
        }
        if self.challenges.len() > 1 {
            message.append(SIGN_EACH);
        } else {
            message.append(SIGN_ONE);
        }
        let ghost head = message@;
        let ghost pairs = self.challenges@;
        let mut i: usize = 0;
        assert(message@ =~= head + blocks(pairs.take(0)));
        while i < self.challenges.len()
            invariant
                i <= self.challenges.len(),
                pairs == self.challenges@,
                message@ == head + blocks(pairs.take(i as int)),
            decreases self.challenges.len() - i,
        {
            proof {
                let next = pairs.take(i + 1);
                assert(next.drop_last() =~= pairs.take(i as int));
                assert(next.last() == pairs[i as int]);
            }
            let pair = &self.challenges[i];
            push_block(&mut message, &pair.0, &pair.1);
            i += 1;
            assert(message@ =~= head + blocks(pairs.take(i as int)));
        }
        assert(pairs.take(i as int) =~= pairs);
        message.append(GUIDE);
        assert(message@ =~= challenge_prompt(self.challenges(), send_context));
        message
    }

    /// The summary of what has been found valid and what is still open.
    pub fn response_message_builder(&self) -> (message: String)
        ensures
            message@ == result_summary(self.valid(), self.invalid()),
    {
        let mut message = String::new();
        if self.valid.len() == 0 {
            message.append(SIGNATURE_INVALID);
            assert(message@ =~= SIGNATURE_INVALID@);
            return message;
        } else if self.valid.len() == 1 {
            message.append(VERIFIED_ONE);
        } else {
            message.append(VERIFIED_MANY);
        }
        push_blocks(&mut message, &self.valid);
        if self.invalid.len() != 0 {
            message.append(PENDING);
            push_blocks(&mut message, &self.invalid);
        }
        assert(message@ =~= result_summary(self.valid(), self.invalid()));
        message
    }
}

/// A change of a challenge's status, to be stored and then announced.
#[derive(Debug)]
pub struct StatusChange {
    pub network_address: NetworkAddress,
    pub account_ty: AddressType,
    pub status: ChallengeStatus,
}

impl StatusChange {
    /// The message that announces the change to the registry.
    pub open spec fn announcement(self) -> CommsMessage {
        match self.status {
            ChallengeStatus::Accepted => CommsMessage::ValidAccount {
                network_address: self.network_address,
            },
            ChallengeStatus::Rejected => CommsMessage::InvalidAccount {
                network_address: self.network_address,
            },
        }
    }

    /// The address whose challenge changed its status.
    pub fn address(&self) -> (address: &NetAccount)
        ensures
            *address == self.network_address.address,
    {
        &self.network_address.address
    }

    /// The message that announces the change to the registry.
    pub fn notification(&self) -> (message: CommsMessage)
        ensures
            message == self.announcement(),
    {
        match self.status {
            ChallengeStatus::Accepted => CommsMessage::ValidAccount {
                network_address: self.network_address.clone(),
            },
            ChallengeStatus::Rejected => CommsMessage::InvalidAccount {
                network_address: self.network_address.clone(),
            },
        }
    }
}

/// The status changes that a list of pairs gives rise to, one per pair.
pub open spec fn changes(
    pairs: Seq<(NetworkAddress, Challenge)>,
    account_ty: AddressType,
    status: ChallengeStatus,
) -> Seq<StatusChange> {
    pairs.map_values(
        |p: (NetworkAddress, Challenge)| StatusChange { network_address: p.0, account_ty, status },
    )
}

/// Appends the status change of every held pair.
fn push_changes(
    out: &mut Vec<StatusChange>,
    held: &Vec<(&NetworkAddress, &Challenge)>,
    account_ty: AddressType,
    status: ChallengeStatus,
)
    ensures
        final(out)@ == old(out)@ + changes(pairs_of(held@), account_ty, status),
{
    let ghost before = out@;
    let ghost all = changes(pairs_of(held@), account_ty, status);
    let mut i: usize = 0;
    assert(out@ =~= before + all.take(0));
    while i < held.len()
        invariant
            i <= held.len(),
            all == changes(pairs_of(held@), account_ty, status),
            out@ == before + all.take(i as int),
        decreases held.len() - i,
    {
        let network_address = held[i].0.clone();
        out.push(StatusChange { network_address, account_ty, status });
        i += 1;
        assert(out@ =~= before + all.take(i as int));
    }
    assert(all.take(i as int) =~= all);
}

/// What follows from a verification: every address found valid is accepted,
/// then every address found invalid is rejected. Each change is to be
/// stored first and announced after.
pub fn verification_handler(verifier: &Verifier2, account_ty: &AddressType) -> (out: Vec<
    StatusChange,
>)
    ensures
        out@ == changes(verifier.valid(), *account_ty, ChallengeStatus::Accepted) + changes(
            verifier.invalid(),
            *account_ty,
            ChallengeStatus::Rejected,
        ),
{
    let mut out: Vec<StatusChange> = Vec::new();
    push_changes(&mut out, &verifier.valid, *account_ty, ChallengeStatus::Accepted);
    push_changes(&mut out, &verifier.invalid, *account_ty, ChallengeStatus::Rejected);
    out
}

/// The positions of a part are in range, carry the wanted verdict, miss no
/// position that carries it, and ascend.
pub proof fn lemma_positions(n: nat, verdicts: Seq<bool>, want: bool)
    ensures
        positions(n, verdicts, want).len() <= n,
        forall|k: int|
            0 <= k < positions(n, verdicts, want).len() ==> {
                &&& 0 <= #[trigger] positions(n, verdicts, want)[k] < n
                &&& verdict_at(verdicts, positions(n, verdicts, want)[k]) == want
            },
        forall|i: int|
            0 <= i < n && verdict_at(verdicts, i) == want ==> #[trigger] positions(
                n,
                verdicts,
                want,
            ).contains(i),
        forall|a: int, b: int|
            0 <= a < b < positions(n, verdicts, want).len() ==> #[trigger] positions(
                n,
                verdicts,
                want,
            )[a] < #[trigger] positions(n, verdicts, want)[b],
    decreases n,
{
    if n > 0 {
        let before = positions((n - 1) as nat, verdicts, want);
        let all = positions(n, verdicts, want);
        lemma_positions((n - 1) as nat, verdicts, want);
        assert forall|i: int| 0 <= i < n && verdict_at(verdicts, i) == want implies all.contains(
            i,
        ) by {
            if i == n - 1 {
                assert(all[all.len() - 1] == i);
            } else {
                assert(before.contains(i));
                let k = choose|k: int| 0 <= k < before.len() && before[k] == i;
                assert(all[k] == i);
            }
        }
    }
}

/// Each part holds the items at its positions, in that order.
pub proof fn lemma_chosen_by_position<T>(items: Seq<T>, verdicts: Seq<bool>, want: bool)
    ensures
        chosen(items, verdicts, want) == positions(items.len(), verdicts, want).map_values(
            |i: int| items[i],
        ),
    decreases items.len(),
{
    let by_position = positions(items.len(), verdicts, want).map_values(|i: int| items[i]);
    if items.len() > 0 {
        let shorter = items.drop_last();
        lemma_chosen_by_position(shorter, verdicts, want);
        lemma_positions(shorter.len(), verdicts, want);
        let before = positions(shorter.len(), verdicts, want);
        assert(before.map_values(|i: int| shorter[i]) =~= before.map_values(|i: int| items[i]));
    }
    assert(chosen(items, verdicts, want) =~= by_position);
}

/// A verdict on every item splits the items in two: every position falls
/// in exactly one part, the parts hold nothing else, and each part keeps
/// the order of the items.
pub proof fn lemma_partition<T>(items: Seq<T>, verdicts: Seq<bool>)
    ensures
        chosen(items, verdicts, true).len() + chosen(items, verdicts, false).len() == items.len(),
        forall|i: int|
            0 <= i < items.len() ==> (#[trigger] positions(items.len(), verdicts, true).contains(i)
                != positions(items.len(), verdicts, false).contains(i)),
        forall|part: bool, k: int|
            0 <= k < chosen(items, verdicts, part).len() ==> {
                &&& 0 <= positions(items.len(), verdicts, part)[k] < items.len()
                &&& #[trigger] chosen(items, verdicts, part)[k] == items[positions(
                    items.len(),
                    verdicts,
                    part,
                )[k]]
            },
        forall|part: bool, a: int, b: int|
            0 <= a < b < chosen(items, verdicts, part).len() ==> positions(
                items.len(),
                verdicts,
                part,
            )[a] < positions(items.len(), verdicts, part)[b],
    decreases items.len(),
{
    let n = items.len();
    lemma_positions(n, verdicts, true);
    lemma_positions(n, verdicts, false);
    lemma_chosen_by_position(items, verdicts, true);
    lemma_chosen_by_position(items, verdicts, false);
    assert forall|i: int| 0 <= i < n implies (#[trigger] positions(n, verdicts, true).contains(i)
        != positions(n, verdicts, false).contains(i)) by {
        if verdict_at(verdicts, i) {
            assert(positions(n, verdicts, true).contains(i));
            if positions(n, verdicts, false).contains(i) {
                let k = choose|k: int|
                    0 <= k < positions(n, verdicts, false).len() && positions(n, verdicts, false)[k]
                        == i;
                assert(verdict_at(verdicts, positions(n, verdicts, false)[k]) == false);
            }
        } else {
            assert(positions(n, verdicts, false).contains(i));
            if positions(n, verdicts, true).contains(i) {
                let k = choose|k: int|
                    0 <= k < positions(n, verdicts, true).len() && positions(n, verdicts, true)[k]
                        == i;
                assert(verdict_at(verdicts, positions(n, verdicts, true)[k]) == true);
            }
        }
    }
    assert forall|part: bool, k: int| 0 <= k < chosen(items, verdicts, part).len() implies {
        &&& 0 <= positions(n, verdicts, part)[k] < n
        &&& #[trigger] chosen(items, verdicts, part)[k] == items[positions(n, verdicts, part)[k]]
    } by {
        lemma_positions(n, verdicts, part);
        lemma_chosen_by_position(items, verdicts, part);
    }
    assert forall|part: bool, a: int, b: int|
        0 <= a < b < chosen(items, verdicts, part).len() implies positions(n, verdicts, part)[a]
        < positions(n, verdicts, part)[b] by {
        lemma_positions(n, verdicts, part);
        lemma_chosen_by_position(items, verdicts, part);
    }
    if n > 0 {
        lemma_partition(items.drop_last(), verdicts);
    }
}

/// One signature splits the outstanding pairs: every pair is found either
/// valid or invalid, and no pair is found both.
pub proof fn lemma_signature_partitions(pairs: Seq<(NetworkAddress, Challenge)>, sig: Seq<u8>)
    ensures
        forall|i: int|
            0 <= i < pairs.len() ==> (chosen(pairs, verdicts_of(pairs, sig), true).contains(
                #[trigger] pairs[i],
            ) != chosen(pairs, verdicts_of(pairs, sig), false).contains(pairs[i])),
        forall|pair: (NetworkAddress, Challenge)|
            #[trigger] chosen(pairs, verdicts_of(pairs, sig), true).contains(pair) ==> pairs.contains(
                pair,
            ) && proves(pair, sig),
        forall|pair: (NetworkAddress, Challenge)|
            #[trigger] chosen(pairs, verdicts_of(pairs, sig), false).contains(pair)
                ==> pairs.contains(pair) && !proves(pair, sig),
{
    let verdicts = verdicts_of(pairs, sig);
    let n = pairs.len();
    lemma_partition(pairs, verdicts);
    lemma_positions(n, verdicts, true);
    lemma_positions(n, verdicts, false);
    lemma_chosen_by_position(pairs, verdicts, true);
    lemma_chosen_by_position(pairs, verdicts, false);
    assert forall|part: bool, pair: (NetworkAddress, Challenge)| #[trigger]
        chosen(pairs, verdicts, part).contains(pair) implies pairs.contains(pair) && proves(
        pair,
        sig,
    ) == part by {
        let k = choose|k: int|
            0 <= k < chosen(pairs, verdicts, part).len() && chosen(pairs, verdicts, part)[k]
                == pair;
        let i = positions(n, verdicts, part)[k];
        assert(pairs[i] == pair);
        assert(verdict_at(verdicts, i) == part);
    }
    assert forall|i: int| 0 <= i < n implies (chosen(pairs, verdicts, true).contains(
        #[trigger] pairs[i],
    ) != chosen(pairs, verdicts, false).contains(pairs[i])) by {
        let part = verdict_at(verdicts, i);
        assert(positions(n, verdicts, part).contains(i));
        let k = choose|k: int|
            0 <= k < positions(n, verdicts, part).len() && positions(n, verdicts, part)[k] == i;
        assert(chosen(pairs, verdicts, part)[k] == pairs[i]);
        assert(chosen(pairs, verdicts, part).contains(pairs[i]));
        if chosen(pairs, verdicts, !part).contains(pairs[i]) {
            assert(proves(pairs[i], sig) == !part);
        }
    }
}

/// A response that is no hexadecimal text behind its leading marker stands
/// for no signature.
pub proof fn lemma_malformed_response(response: Seq<u8>)
    requires
        !is_hex_text(without_marker(response)),
    ensures
        decoded_signature(response) is None,
{
}

/// A marker is taken as such in front of a response only: a response with
/// an `x` anywhere behind its leading marker stands for no signature.
pub proof fn lemma_marker_inside(response: Seq<u8>, at: int)
    requires
        0 <= at < without_marker(response).len(),
        without_marker(response)[at] == 0x78,
    ensures
        decoded_signature(response) is None,
{
    assert(digit_value(without_marker(response)[at]) < 0);
}

} // verus!
