use vstd::prelude::*;
use crate::deployment::{
    lemma_record_ceases_to_live, lemma_record_comes_to_life, live_ids, DeploymentView,
};
use crate::error::ErrorCode;
use crate::identity::Pubkey;
use crate::machine::{accepted, minted_ids, refusal, run, step, Operation};
use crate::records::{byte_len, Lifecycle, ProgramState, MAX_ADDRESS_LEN};
use crate::universal_nft_core::{pause_error, unpause_error};

verus! {

/// An operation, accepted or refused, keeps the invariant of the deployment:
/// every entry stays under its own key and well formed, and the supply stays
/// the number of live records.
pub proof fn law_step_keeps_invariant(d: DeploymentView, op: Operation)
    requires
        d.wf(),
    ensures
        step(d, op).wf(),
{
    if refusal(d, op) is None {
        let after = accepted(d, op);
        match op {
            Operation::Mint { mint, recipient, uri, slot, unix_timestamp } => {
                let id = d.next_id(mint, slot);
                lemma_record_comes_to_life(d.records, id, after.records[id]);
            },
            Operation::Receive { token_id, .. } => {
                lemma_record_comes_to_life(d.records, token_id, after.records[token_id]);
            },
            Operation::Revert { token_id, .. } => {
                lemma_record_comes_to_life(d.records, token_id, after.records[token_id]);
            },
            Operation::Burn { token_id, .. } => {
                lemma_record_ceases_to_live(d.records, token_id, after.records[token_id]);
            },
            Operation::Transfer { token_id, .. } => {
                lemma_record_ceases_to_live(d.records, token_id, after.records[token_id]);
            },
            _ => {},
        }
    }
}

/// No operation removes a record, and none removes or changes an entry of the
/// origin ledger: what a mint has written stays as it was written.
pub proof fn law_step_keeps_what_is_stored(d: DeploymentView, op: Operation)
    requires
        d.wf(),
    ensures
        forall|id: u64|
            d.records.contains_key(id) ==> #[trigger] step(d, op).records.contains_key(id),
        forall|id: u64| #[trigger]
            d.origins.contains_key(id) ==> step(d, op).origins.contains_key(id) && step(
                d,
                op,
            ).origins[id] == d.origins[id],
        forall|c: u64| #[trigger]
            d.connections.contains_key(c) ==> step(d, op).connections.contains_key(c) && step(
                d,
                op,
            ).connections[c] == d.connections[c],
{
}

/// Whatever operations are asked of a deployment, in whatever order, its
/// invariant holds afterwards, no record is gone, and the origin ledger's
/// entries are what they were.
pub proof fn law_run_keeps_invariant(start: DeploymentView, ops: Seq<Operation>)
    requires
        start.wf(),
    ensures
        run(start, ops).wf(),
        forall|id: u64|
            start.records.contains_key(id) ==> #[trigger] run(start, ops).records.contains_key(
                id,
            ),
        forall|id: u64| #[trigger]
            start.origins.contains_key(id) ==> run(start, ops).origins.contains_key(id) && run(
                start,
                ops,
            ).origins[id] == start.origins[id],
    decreases ops.len(),
{
    if ops.len() > 0 {
        let before = run(start, ops.drop_last());
        law_run_keeps_invariant(start, ops.drop_last());
        law_step_keeps_invariant(before, ops.last());
        law_step_keeps_what_is_stored(before, ops.last());
        assert forall|id: u64| start.records.contains_key(id) implies #[trigger] run(
            start,
            ops,
        ).records.contains_key(id) by {
            assert(before.records.contains_key(id));
        }
        assert forall|id: u64| #[trigger] start.origins.contains_key(id) implies run(
            start,
            ops,
        ).origins.contains_key(id) && run(start, ops).origins[id] == start.origins[id] by {
            assert(before.origins.contains_key(id));
        }
    }
}

/// Whatever operations are asked of a deployment, in whatever order, the
/// identifiers that its mints issue are pairwise distinct, and none of them
/// was held by a record before.
pub proof fn law_issued_ids_are_distinct(start: DeploymentView, ops: Seq<Operation>)
    requires
        start.wf(),
    ensures
        forall|i: int, j: int|
            0 <= i < j < minted_ids(start, ops).len() ==> minted_ids(start, ops)[i] != minted_ids(
                start,
                ops,
            )[j],
        forall|i: int|
            0 <= i < minted_ids(start, ops).len() ==> {
                &&& !start.records.contains_key(#[trigger] minted_ids(start, ops)[i])
                &&& run(start, ops).records.contains_key(minted_ids(start, ops)[i])
            },
    decreases ops.len(),
{
    if ops.len() > 0 {
        let earlier = ops.drop_last();
        let before = run(start, earlier);
        let after = run(start, ops);
        let ids_before = minted_ids(start, earlier);
        let ids = minted_ids(start, ops);
        let op = ops.last();
        law_issued_ids_are_distinct(start, earlier);
        law_run_keeps_invariant(start, earlier);
        law_step_keeps_what_is_stored(before, op);
        if ids != ids_before {
            let new_id = ids.last();
            assert(ids == ids_before.push(new_id));
            assert(!before.records.contains_key(new_id));
            assert(after.records.contains_key(new_id));
            assert(!start.records.contains_key(new_id)) by {
                if start.records.contains_key(new_id) {
                    assert(run(start, earlier).records.contains_key(new_id));
                }
            }
            assert forall|i: int| 0 <= i < ids.len() implies {
                &&& !start.records.contains_key(#[trigger] ids[i])
                &&& after.records.contains_key(ids[i])
            } by {
                if i < ids_before.len() {
                    assert(ids[i] == ids_before[i]);
                    assert(before.records.contains_key(ids_before[i]));
                }
            }
            assert forall|i: int, j: int| 0 <= i < j < ids.len() implies ids[i] != ids[j] by {
                if j < ids_before.len() {
                    assert(ids[i] == ids_before[i] && ids[j] == ids_before[j]);
                } else {
                    assert(ids[j] == new_id);
                    assert(ids[i] == ids_before[i]);
                    assert(before.records.contains_key(ids_before[i]));
                }
            }
        } else {
            assert forall|i: int| 0 <= i < ids.len() implies {
                &&& !start.records.contains_key(#[trigger] ids[i])
                &&& after.records.contains_key(ids[i])
            } by {
                assert(before.records.contains_key(ids_before[i]));
            }
        }
    }
}

/// A mint followed at once by the recipient's burn of the new asset leaves the
/// supply as it was before the mint, and the record burned for good.
pub proof fn law_mint_then_burn_keeps_supply(
    d: DeploymentView,
    mint: Pubkey,
    recipient: Pubkey,
    uri: String,
    slot: u64,
    unix_timestamp: i64,
)
    requires
        d.mint_error(mint, uri@, slot) is None,
    ensures
        ({
            let id = d.next_id(mint, slot);
            let minted = d.after_mint(mint, recipient, uri, slot, unix_timestamp);
            &&& minted.state.total_supply == d.state.total_supply + 1
            &&& minted.burn_error(recipient, id) is None
            &&& minted.after_burn(id).state.total_supply == d.state.total_supply
            &&& minted.after_burn(id).records[id].lifecycle() == Lifecycle::Burned
        }),
{
}

/// Where the program is not paused and the asset is live, a transfer that
/// anyone but the owner requests is refused as unauthorized, and the
/// deployment is left as it was: supply, record and all.
pub proof fn law_transfer_by_stranger_is_unauthorized(
    d: DeploymentView,
    caller: Pubkey,
    token_id: u64,
    receiver: String,
    destination_chain_id: u64,
    unix_timestamp: i64,
)
    requires
        !d.state.is_paused,
        d.records.contains_key(token_id),
        !d.records[token_id].is_burned,
        d.records[token_id].owner@ != caller@,
    ensures
        ({
            let op = Operation::Transfer {
                owner: caller,
                token_id,
                receiver,
                destination_chain_id,
                unix_timestamp,
            };
            &&& refusal(d, op) == Some(ErrorCode::Unauthorized)
            &&& step(d, op) == d
        }),
{
}

/// An outbound transfer followed by its revert to the owner restores the
/// deployment exactly: the record is active with the same owner and nothing
/// pending, and the supply is what it was.
pub proof fn law_revert_restores(
    d: DeploymentView,
    owner: Pubkey,
    token_id: u64,
    receiver: String,
    destination_chain_id: u64,
    unix_timestamp: i64,
)
    requires
        d.wf(),
        d.transfer_error(owner, token_id, receiver@) is None,
    ensures
        ({
            let sent = d.after_transfer(token_id, destination_chain_id, receiver, unix_timestamp);
            &&& sent.records[token_id].lifecycle() == Lifecycle::PendingOutbound
            &&& sent.state.total_supply == d.state.total_supply - 1
            &&& sent.revert_error(token_id) is None
            &&& sent.after_revert(token_id, d.records[token_id].owner) == d
        }),
{
    let sent = d.after_transfer(token_id, destination_chain_id, receiver, unix_timestamp);
    let back = sent.after_revert(token_id, d.records[token_id].owner);
    assert(back.records =~= d.records);
}

/// An asset that leaves one deployment and arrives at another is live at the
/// destination and no longer at the source: as long as the relay does not
/// also ask the source to revert, the asset is live on one chain only.
pub proof fn law_transfer_hands_the_asset_over(
    source: DeploymentView,
    destination: DeploymentView,
    owner: Pubkey,
    token_id: u64,
    receiver: String,
    destination_chain_id: u64,
    sent_at: i64,
    recipient: Pubkey,
    source_chain_id: u64,
    received_at: i64,
)
    requires
        source.wf(),
        source.transfer_error(owner, token_id, receiver@) is None,
        destination.receive_error(token_id, source.records[token_id].uri@) is None,
    ensures
        ({
            let sent = source.after_transfer(token_id, destination_chain_id, receiver, sent_at);
            let arrived = destination.after_receive(
                recipient,
                token_id,
                source.records[token_id].uri,
                source_chain_id,
                received_at,
            );
            &&& live_ids(source.records).contains(token_id)
            &&& !live_ids(destination.records).contains(token_id)
            &&& !live_ids(sent.records).contains(token_id)
            &&& live_ids(arrived.records).contains(token_id)
            &&& arrived.records[token_id].uri == source.records[token_id].uri
            &&& arrived.records[token_id].original_chain == Some(source_chain_id)
        }),
{
}

/// An inbound receive of an identifier that no record holds creates exactly
/// one record, active and marked with the sending chain, changes no other
/// record, and raises the supply by one.
pub proof fn law_receive_creates_one_record(
    d: DeploymentView,
    recipient: Pubkey,
    token_id: u64,
    uri: String,
    sender_chain_id: u64,
    unix_timestamp: i64,
)
    requires
        d.receive_error(token_id, uri@) is None,
    ensures
        ({
            let r = d.after_receive(recipient, token_id, uri, sender_chain_id, unix_timestamp);
            &&& !d.records.contains_key(token_id)
            &&& r.records.dom() == d.records.dom().insert(token_id)
            &&& forall|id: u64|
                d.records.contains_key(id) ==> #[trigger] r.records[id] == d.records[id]
            &&& r.records[token_id].lifecycle() == Lifecycle::Active
            &&& r.records[token_id].owner == recipient
            &&& r.records[token_id].original_chain == Some(sender_chain_id)
            &&& r.state.total_supply == d.state.total_supply + 1
        }),
{
    let r = d.after_receive(recipient, token_id, uri, sender_chain_id, unix_timestamp);
    assert(r.records.dom() =~= d.records.dom().insert(token_id));
}

/// While the program is paused, every mint is refused as paused. Once the
/// authority has lifted the pause, the deployment is what it was before the
/// pause, so a mint is accepted exactly if it would have been then.
pub proof fn law_pause_blocks_mint(
    d: DeploymentView,
    authority: Pubkey,
    mint: Pubkey,
    uri: Seq<char>,
    slot: u64,
)
    requires
        pause_error(d.state, authority) is None,
    ensures
        ({
            let paused = d.with_state(ProgramState { is_paused: true, ..d.state });
            &&& paused.mint_error(mint, uri, slot) == Some(ErrorCode::ContractPaused)
            &&& unpause_error(paused.state, authority) is None
            &&& paused.with_state(ProgramState { is_paused: false, ..paused.state }) == d
        }),
{
}

/// While the program is paused, every operation but the lifting of the pause
/// is refused, whoever asks for it, and leaves the deployment as it was.
pub proof fn law_pause_refuses_all_but_unpause(d: DeploymentView, op: Operation)
    requires
        d.state.is_paused,
        !(op is Unpause),
    ensures
        refusal(d, op) is Some,
        step(d, op) == d,
{
}

/// A chain that is connected cannot be connected again: whoever asks, and
/// with whatever address, the second request is refused. The authority with
/// a valid address is told that the entry exists.
pub proof fn law_second_connect_is_refused(
    d: DeploymentView,
    authority: Pubkey,
    chain_id: u64,
    contract_address: String,
    second_caller: Pubkey,
    second_address: Seq<char>,
)
    requires
        d.connect_error(authority, chain_id, contract_address@) is None,
    ensures
        ({
            let connected = d.after_connect(chain_id, contract_address);
            &&& connected.connect_error(second_caller, chain_id, second_address) is Some
            &&& connected.connect_error(authority, chain_id, contract_address@) == Some(
                ErrorCode::AlreadyExists,
            )
            &&& second_caller@ == authority@ && 0 < second_address.len() && byte_len(
                second_address,
            ) <= MAX_ADDRESS_LEN ==> connected.connect_error(
                second_caller,
                chain_id,
                second_address,
            ) == Some(ErrorCode::AlreadyExists)
        }),
{
}

} // verus!
