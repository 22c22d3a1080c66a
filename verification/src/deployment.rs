use std::collections::HashMap;
use vstd::prelude::*;
use crate::error::ErrorCode;
use crate::events::{
    ChainConnected, ContractPaused, ContractUnpaused, GasLimitUpdated, GatewayUpdated, LedgerCall,
    ProgramInitialized, TokenBurned, TokenMinted, TokenTransfer, TokenTransferReceived,
    TokenTransferReverted,
};
use crate::identity::Pubkey;
use crate::laws::law_step_keeps_invariant;
use crate::machine::{emitted, ledger_call, refusal, step, Emitted, Operation};
use crate::records::{ChainConnection, EnumerableData, NFTOrigin, NftData, ProgramState};
use crate::token_id::token_id_sum;
use crate::universal_nft_core::{
    admin_error, burn_token, burn_token_error, check_cross_chain_receive, check_safe_mint,
    check_transfer_request, transfer_request_error,
    fresh_record, handle_cross_chain_receive, handle_cross_chain_receive_error, initial_state,
    initialize, initialize_error, pause, pause_error, record_in_flight, record_restored,
    revert_transfer, revert_transfer_error, safe_mint, safe_mint_error, set_connected,
    set_connected_error, set_gas_limit, set_gas_limit_error, set_gateway, state_after_mint,
    state_with_one_less, state_with_one_more, transfer_cross_chain, transfer_cross_chain_error,
    unpause, unpause_error,
};

verus! {

broadcast use vstd::std_specs::hash::group_hash_axioms;

/// The identifiers of the records that are live: present and not burned.
pub open spec fn live_ids(records: Map<u64, NftData>) -> Set<u64> {
    records.dom().filter(|id: u64| !records[id].is_burned)
}

/// Everything that a deployment has stored, as mathematical maps: the
/// configuration, the connection registry by chain identifier, and the asset
/// records, origin ledger and owner index by asset identifier.
pub struct DeploymentView {
    pub state: ProgramState,
    pub connections: Map<u64, ChainConnection>,
    pub records: Map<u64, NftData>,
    pub origins: Map<u64, NFTOrigin>,
    pub index: Map<u64, EnumerableData>,
}

impl DeploymentView {
    /// The invariant of a deployment. Every entry is stored under its own key
    /// and is well formed; an identifier in the origin ledger or in the index
    /// has a record; and the supply is the number of live records.
    pub open spec fn wf(self) -> bool {
        &&& self.state.wf()
        &&& self.records.dom().finite()
        &&& forall|c: u64|
            #![trigger self.connections.contains_key(c)]
            self.connections.contains_key(c) ==> self.connections[c].chain_id == c
                && self.connections[c].is_active && self.connections[c].wf()
        &&& forall|id: u64|
            #![trigger self.records.contains_key(id)]
            self.records.contains_key(id) ==> self.records[id].token_id == id
                && self.records[id].wf()
        &&& forall|id: u64|
            #![trigger self.origins.contains_key(id)]
            self.origins.contains_key(id) ==> self.origins[id].token_id == id
                && self.records.contains_key(id)
        &&& forall|id: u64|
            #![trigger self.index.contains_key(id)]
            self.index.contains_key(id) ==> self.index[id].token_id == id
                && self.records.contains_key(id)
        &&& self.state.total_supply == live_ids(self.records).len()
    }

    /// The identifiers that mints have issued so far.
    pub open spec fn issued(self) -> Set<u64> {
        self.origins.dom()
    }

    /// With another configuration.
    pub open spec fn with_state(self, state: ProgramState) -> DeploymentView {
        DeploymentView { state, ..self }
    }

    /// Why connecting a chain is rejected, if it is.
    pub open spec fn connect_error(self, authority: Pubkey, chain_id: u64, address: Seq<char>)
        -> Option<ErrorCode> {
        if set_connected_error(self.state, authority, address) is Some {
            set_connected_error(self.state, authority, address)
        } else if self.connections.contains_key(chain_id) {
            Some(ErrorCode::AlreadyExists)
        } else {
            None
        }
    }

    /// With one more chain connected.
    pub open spec fn after_connect(self, chain_id: u64, contract_address: String)
        -> DeploymentView {
        DeploymentView {
            connections: self.connections.insert(
                chain_id,
                ChainConnection { chain_id, contract_address, is_active: true },
            ),
            ..self
        }
    }

    /// Why a mint is rejected, if it is.
    pub open spec fn mint_error(self, mint: Pubkey, uri: Seq<char>, slot: u64) -> Option<
        ErrorCode,
    > {
        if safe_mint_error(self.state, mint, uri, slot) is Some {
            safe_mint_error(self.state, mint, uri, slot)
        } else if self.records.contains_key(
            token_id_sum(mint@, slot, self.state.next_token_id) as u64,
        ) {
            Some(ErrorCode::AlreadyExists)
        } else {
            None
        }
    }

    /// The identifier that a mint issues.
    pub open spec fn next_id(self, mint: Pubkey, slot: u64) -> u64 {
        token_id_sum(mint@, slot, self.state.next_token_id) as u64
    }

    /// With one more asset minted.
    pub open spec fn after_mint(
        self,
        mint: Pubkey,
        recipient: Pubkey,
        uri: String,
        slot: u64,
        unix_timestamp: i64,
    ) -> DeploymentView {
        let id = self.next_id(mint, slot);
        DeploymentView {
            state: state_after_mint(self.state),
            connections: self.connections,
            records: self.records.insert(
                id,
                fresh_record(id, uri, recipient, None, unix_timestamp),
            ),
            origins: self.origins.insert(
                id,
                NFTOrigin {
                    original_mint: mint,
                    token_id: id,
                    block_number: slot,
                    mint_timestamp: unix_timestamp,
                },
            ),
            index: self.index.insert(
                id,
                EnumerableData { token_id: id, owner: recipient, index_in_owner_list: 0 },
            ),
        }
    }

    /// Why a local burn is rejected, if it is.
    pub open spec fn burn_error(self, authority: Pubkey, token_id: u64) -> Option<ErrorCode> {
        if self.state.is_paused {
            Some(ErrorCode::ContractPaused)
        } else if !self.records.contains_key(token_id) {
            Some(ErrorCode::NotFound)
        } else {
            burn_token_error(self.state, self.records[token_id], authority, token_id)
        }
    }

    /// With one asset burned for good.
    pub open spec fn after_burn(self, token_id: u64) -> DeploymentView {
        DeploymentView {
            state: state_with_one_less(self.state),
            records: self.records.insert(
                token_id,
                NftData { is_burned: true, ..self.records[token_id] },
            ),
            ..self
        }
    }

    /// Why starting an outbound transfer is rejected, if it is.
    pub open spec fn transfer_error(self, owner: Pubkey, token_id: u64, receiver: Seq<char>)
        -> Option<ErrorCode> {
        if self.state.is_paused {
            Some(ErrorCode::ContractPaused)
        } else if !self.records.contains_key(token_id) {
            Some(ErrorCode::NotFound)
        } else if transfer_request_error(self.state, self.records[token_id], owner, receiver)
            is Some {
            transfer_request_error(self.state, self.records[token_id], owner, receiver)
        } else if !self.origins.contains_key(token_id) {
            Some(ErrorCode::NotFound)
        } else {
            transfer_cross_chain_error(
                self.state,
                self.records[token_id],
                self.origins[token_id],
                owner,
                token_id,
                receiver,
            )
        }
    }

    /// With one asset in flight to another chain.
    pub open spec fn after_transfer(
        self,
        token_id: u64,
        destination_chain_id: u64,
        receiver: String,
        unix_timestamp: i64,
    ) -> DeploymentView {
        DeploymentView {
            state: state_with_one_less(self.state),
            records: self.records.insert(
                token_id,
                record_in_flight(
                    self.records[token_id],
                    destination_chain_id,
                    receiver,
                    unix_timestamp,
                ),
            ),
            ..self
        }
    }

    /// Why an inbound receive is rejected, if it is.
    pub open spec fn receive_error(self, token_id: u64, uri: Seq<char>) -> Option<ErrorCode> {
        if handle_cross_chain_receive_error(self.state, uri) is Some {
            handle_cross_chain_receive_error(self.state, uri)
        } else if self.records.contains_key(token_id) {
            Some(ErrorCode::AlreadyExists)
        } else {
            None
        }
    }

    /// With one asset received from another chain.
    pub open spec fn after_receive(
        self,
        recipient: Pubkey,
        token_id: u64,
        uri: String,
        sender_chain_id: u64,
        unix_timestamp: i64,
    ) -> DeploymentView {
        DeploymentView {
            state: state_with_one_more(self.state),
            records: self.records.insert(
                token_id,
                fresh_record(token_id, uri, recipient, Some(sender_chain_id), unix_timestamp),
            ),
            index: self.index.insert(
                token_id,
                EnumerableData { token_id, owner: recipient, index_in_owner_list: 0 },
            ),
            ..self
        }
    }

    /// Why a revert is rejected, if it is.
    pub open spec fn revert_error(self, token_id: u64) -> Option<ErrorCode> {
        if self.state.is_paused {
            Some(ErrorCode::ContractPaused)
        } else if !self.records.contains_key(token_id) {
            Some(ErrorCode::NotFound)
        } else {
            revert_transfer_error(self.state, self.records[token_id], token_id)
        }
    }

    /// With one outbound transfer undone.
    pub open spec fn after_revert(self, token_id: u64, original_owner: Pubkey) -> DeploymentView {
        DeploymentView {
            state: state_with_one_more(self.state),
            records: self.records.insert(
                token_id,
                record_restored(self.records[token_id], original_owner),
            ),
            ..self
        }
    }
}

/// A record that comes to life adds one to the number of live records.
pub proof fn lemma_record_comes_to_life(records: Map<u64, NftData>, id: u64, record: NftData)
    requires
        records.dom().finite(),
        !record.is_burned,
        !records.contains_key(id) || records[id].is_burned,
    ensures
        live_ids(records.insert(id, record)).len() == live_ids(records).len() + 1,
        records.insert(id, record).dom().finite(),
{
    records.dom().lemma_len_filter(|i: u64| !records[i].is_burned);
    assert(live_ids(records.insert(id, record)) =~= live_ids(records).insert(id));
    assert(!live_ids(records).contains(id));
}

/// A live record that is burned takes one from the number of live records.
pub proof fn lemma_record_ceases_to_live(records: Map<u64, NftData>, id: u64, record: NftData)
    requires
        records.dom().finite(),
        record.is_burned,
        records.contains_key(id),
        !records[id].is_burned,
    ensures
        live_ids(records.insert(id, record)).len() == live_ids(records).len() - 1,
        live_ids(records).len() >= 1,
        records.insert(id, record).dom().finite(),
{
    records.dom().lemma_len_filter(|i: u64| !records[i].is_burned);
    assert(live_ids(records.insert(id, record)) =~= live_ids(records).remove(id));
    assert(live_ids(records).contains(id));
}

/// A deployment: the configuration together with the stores that it governs.
/// Each operation finds the entries that it needs, applies the transition, and
/// stores the result only if every check has passed.
///
/// `mint`, `burn`, `transfer`, `receive`, `revert` and `apply` store the
/// result at once and hand back the call that the token ledger is owed: they
/// are for a caller whose ledger call is made in the same all-or-nothing
/// transaction. A caller that must see the ledger's answer first uses `stage`,
/// makes the call, and then `conclude`, which stores everything or nothing.
#[derive(Debug)]
pub struct Deployment {
    state: ProgramState,
    connections: HashMap<u64, ChainConnection>,
    records: HashMap<u64, NftData>,
    origins: HashMap<u64, NFTOrigin>,
    index: HashMap<u64, EnumerableData>,
}

impl View for Deployment {
    type V = DeploymentView;

    closed spec fn view(&self) -> DeploymentView {
        DeploymentView {
            state: self.state,
            connections: self.connections@,
            records: self.records@,
            origins: self.origins@,
            index: self.index@,
        }
    }
}

impl Deployment {
    /// The invariant of a deployment.
    pub open spec fn wf(&self) -> bool {
        self@.wf()
    }

    /// Creates a deployment with no chains connected and no assets. The caller
    /// becomes the authority.
    pub fn initialize(
        initial_owner: Pubkey,
        name: String,
        symbol: String,
        gateway_address: Pubkey,
        gas_limit: u64,
        uniswap_router: Pubkey,
    ) -> (r: Result<(Deployment, ProgramInitialized), ErrorCode>)
        ensures
            match r {
                Ok((deployment, event)) => {
                    &&& initialize_error(name@, symbol@) is None
                    &&& deployment.wf()
                    &&& deployment@ == (DeploymentView {
                        state: initial_state(
                            initial_owner,
                            name,
                            symbol,
                            gateway_address,
                            gas_limit,
                            uniswap_router,
                        ),
                        connections: Map::empty(),
                        records: Map::empty(),
                        origins: Map::empty(),
                        index: Map::empty(),
                    })
                    &&& event == (ProgramInitialized {
                        authority: initial_owner,
                        name,
                        symbol,
                        gateway: gateway_address,
                    })
                },
                Err(e) => initialize_error(name@, symbol@) == Some(e),
            },
    {
        match initialize(initial_owner, name, symbol, gateway_address, gas_limit, uniswap_router) {
            Ok((state, event)) => {
                let deployment = Deployment {
                    state,
                    connections: HashMap::new(),
                    records: HashMap::new(),
                    origins: HashMap::new(),
                    index: HashMap::new(),
                };
                proof {
                    assert(live_ids(deployment.records@) =~= Set::<u64>::empty());
                }
                Ok((deployment, event))
            },
            Err(e) => Err(e),
        }
    }

    /// The view of a deployment, field by field.
    proof fn lemma_view_by_fields(&self)
        ensures
            self@.state == self.state,
            self@.connections == self.connections@,
            self@.records == self.records@,
            self@.origins == self.origins@,
            self@.index == self.index@,
    {
    }

    /// The configuration.
    pub fn state(&self) -> (state: &ProgramState)
        ensures
            *state == self@.state,
    {
        &self.state
    }

    /// The number of live assets.
    pub fn total_supply(&self) -> (n: u64)
        ensures
            n == self@.state.total_supply,
            self.wf() ==> n == live_ids(self@.records).len(),
    {
        self.state.total_supply
    }

    /// Whether the program is paused.
    pub fn is_paused(&self) -> (paused: bool)
        ensures
            paused == self@.state.is_paused,
    {
        self.state.is_paused
    }

    /// The registry entry of a chain, if the chain is connected.
    pub fn connection(&self, chain_id: u64) -> (entry: Option<&ChainConnection>)
        ensures
            match entry {
                Some(c) => self@.connections.contains_key(chain_id) && *c
                    == self@.connections[chain_id],
                None => !self@.connections.contains_key(chain_id),
            },
    {
        self.connections.get(&chain_id)
    }

    /// The record of an asset, if there is one.
    pub fn record(&self, token_id: u64) -> (entry: Option<&NftData>)
        ensures
            match entry {
                Some(n) => self@.records.contains_key(token_id) && *n == self@.records[token_id],
                None => !self@.records.contains_key(token_id),
            },
    {
        self.records.get(&token_id)
    }

    /// The origin ledger's entry for an identifier, if a mint issued it here.
    pub fn origin(&self, token_id: u64) -> (entry: Option<&NFTOrigin>)
        ensures
            match entry {
                Some(o) => self@.origins.contains_key(token_id) && *o == self@.origins[token_id],
                None => !self@.origins.contains_key(token_id),
            },
    {
        self.origins.get(&token_id)
    }

    /// The owner index's entry for an identifier, if there is one.
    pub fn index_entry(&self, token_id: u64) -> (entry: Option<&EnumerableData>)
        ensures
            match entry {
                Some(x) => self@.index.contains_key(token_id) && *x == self@.index[token_id],
                None => !self@.index.contains_key(token_id),
            },
    {
        self.index.get(&token_id)
    }
}

impl Deployment {
    /// Replaces the relay endpoint.
    pub fn set_gateway(&mut self, authority: &Pubkey, gateway_address: Pubkey) -> (r: Result<
        GatewayUpdated,
        ErrorCode,
    >)
        requires
            old(self).wf(),
        ensures
            final(self).wf(),
            match r {
                Ok(event) => {
                    &&& admin_error(old(self)@.state, *authority) is None
                    &&& final(self)@ == old(self)@.with_state(
                        ProgramState { gateway: gateway_address, ..old(self)@.state },
                    )
                    &&& event == (GatewayUpdated { new_gateway: gateway_address })
                },
                Err(e) => {
                    &&& admin_error(old(self)@.state, *authority) == Some(e)
                    &&& final(self)@ == old(self)@
                },
            },
    {
        let r = set_gateway(&mut self.state, authority, gateway_address);
        proof {
            old(self).lemma_view_by_fields();
            self.lemma_view_by_fields();
        }
        r
    }

    /// Replaces the gas limit, which must be positive.
    pub fn set_gas_limit(&mut self, authority: &Pubkey, gas_limit: u64) -> (r: Result<
        GasLimitUpdated,
        ErrorCode,
    >)
        requires
            old(self).wf(),
        ensures
            final(self).wf(),
            match r {
                Ok(event) => {
                    &&& set_gas_limit_error(old(self)@.state, *authority, gas_limit) is None
                    &&& final(self)@ == old(self)@.with_state(
                        ProgramState { gas_limit, ..old(self)@.state },
                    )
                    &&& event == (GasLimitUpdated { new_gas_limit: gas_limit })
                },
                Err(e) => {
                    &&& set_gas_limit_error(old(self)@.state, *authority, gas_limit) == Some(e)
                    &&& final(self)@ == old(self)@
                },
            },
    {
        let r = set_gas_limit(&mut self.state, authority, gas_limit);
        proof {
            old(self).lemma_view_by_fields();
            self.lemma_view_by_fields();
        }
        r
    }

    /// Pauses the program.
    pub fn pause(&mut self, authority: &Pubkey) -> (r: Result<ContractPaused, ErrorCode>)
        requires
            old(self).wf(),
        ensures
            final(self).wf(),
            match r {
                Ok(event) => {
                    &&& pause_error(old(self)@.state, *authority) is None
                    &&& final(self)@ == old(self)@.with_state(
                        ProgramState { is_paused: true, ..old(self)@.state },
                    )
                    &&& event == (ContractPaused { by: *authority })
                },
                Err(e) => {
                    &&& pause_error(old(self)@.state, *authority) == Some(e)
                    &&& final(self)@ == old(self)@
                },
            },
    {
        let r = pause(&mut self.state, authority);
        proof {
            old(self).lemma_view_by_fields();
            self.lemma_view_by_fields();
        }
        r
    }

    /// Lifts the pause.
    pub fn unpause(&mut self, authority: &Pubkey) -> (r: Result<ContractUnpaused, ErrorCode>)
        requires
            old(self).wf(),
        ensures
            final(self).wf(),
            match r {
                Ok(event) => {
                    &&& unpause_error(old(self)@.state, *authority) is None
                    &&& final(self)@ == old(self)@.with_state(
                        ProgramState { is_paused: false, ..old(self)@.state },
                    )
                    &&& event == (ContractUnpaused { by: *authority })
                },
                Err(e) => {
                    &&& unpause_error(old(self)@.state, *authority) == Some(e)
                    &&& final(self)@ == old(self)@
                },
            },
    {
        let r = unpause(&mut self.state, authority);
        proof {
            old(self).lemma_view_by_fields();
            self.lemma_view_by_fields();
        }
        r
    }

    /// Connects a remote chain to its counterpart contract. A chain can be
    /// connected once: a second entry for the same chain is refused.
    pub fn connect(&mut self, authority: &Pubkey, chain_id: u64, contract_address: String) -> (r:
        Result<ChainConnected, ErrorCode>)
        requires
            old(self).wf(),
        ensures
            final(self).wf(),
            match r {
                Ok(event) => {
                    &&& old(self)@.connect_error(*authority, chain_id, contract_address@) is None
                    &&& final(self)@ == old(self)@.after_connect(chain_id, contract_address)
                    &&& event == (ChainConnected { chain_id, contract_address })
                },
                Err(e) => {
                    &&& old(self)@.connect_error(*authority, chain_id, contract_address@) == Some(
                        e,
                    )
                    &&& final(self)@ == old(self)@
                },
            },
    {
        let (connection, event) = match set_connected(
            &self.state,
            authority,
            chain_id,
            contract_address,
        ) {
            Ok(made) => made,
            Err(e) => {
                return Err(e);
            },
        };
        if self.connections.contains_key(&chain_id) {
            return Err(ErrorCode::AlreadyExists);
        }
        self.connections.insert(chain_id, connection);
        proof {
            old(self).lemma_view_by_fields();
            self.lemma_view_by_fields();
        }
        Ok(event)
    }

    /// Mints a new asset to `recipient`, backed by the issuance unit `mint`,
    /// and returns the event, which carries the identifier. The identifier is
    /// one that no record holds; a mint whose identifier is taken is refused.
    pub fn mint(
        &mut self,
        mint: &Pubkey,
        recipient: &Pubkey,
        uri: String,
        slot: u64,
        unix_timestamp: i64,
    ) -> (r: Result<(TokenMinted, LedgerCall), ErrorCode>)
        requires
            old(self).wf(),
        ensures
            final(self).wf(),
            match r {
                Ok((event, ledger_call)) => {
                    &&& old(self)@.mint_error(*mint, uri@, slot) is None
                    &&& final(self)@ == old(self)@.after_mint(
                        *mint,
                        *recipient,
                        uri,
                        slot,
                        unix_timestamp,
                    )
                    &&& event == (TokenMinted {
                        recipient: *recipient,
                        token_id: old(self)@.next_id(*mint, slot),
                        uri,
                    })
                    &&& ledger_call == (LedgerCall::MintOne { recipient: *recipient })
                    &&& !old(self)@.issued().contains(event.token_id)
                    &&& final(self)@.issued() == old(self)@.issued().insert(event.token_id)
                },
                Err(e) => {
                    &&& old(self)@.mint_error(*mint, uri@, slot) == Some(e)
                    &&& final(self)@ == old(self)@
                },
            },
    {
        let id: u64 = match check_safe_mint(&self.state, mint, &uri, slot) {
            Ok(id) => id,
            Err(e) => {
                return Err(e);
            },
        };
        if self.records.contains_key(&id) {
            return Err(ErrorCode::AlreadyExists);
        }
        let minted = match safe_mint(&mut self.state, mint, recipient, uri, slot, unix_timestamp) {
            Ok(minted) => minted,
            Err(e) => {
                return Err(e);
            },
        };
        proof {
            lemma_record_comes_to_life(self.records@, id, minted.nft_data);
        }
        self.records.insert(id, minted.nft_data);
        self.origins.insert(id, minted.nft_origin);
        self.index.insert(id, minted.enumerable_data);
        proof {
            old(self).lemma_view_by_fields();
            self.lemma_view_by_fields();
        }
        Ok((minted.event, minted.ledger_call))
    }

    /// Burns an asset for good, on its owner's request.
    pub fn burn(&mut self, authority: &Pubkey, token_id: u64) -> (r: Result<
        (TokenBurned, LedgerCall),
        ErrorCode,
    >)
        requires
            old(self).wf(),
        ensures
            final(self).wf(),
            match r {
                Ok((event, ledger_call)) => {
                    &&& old(self)@.burn_error(*authority, token_id) is None
                    &&& final(self)@ == old(self)@.after_burn(token_id)
                    &&& event == (TokenBurned { owner: *authority, token_id })
                    &&& ledger_call == (LedgerCall::BurnOne { holder: *authority })
                },
                Err(e) => {
                    &&& old(self)@.burn_error(*authority, token_id) == Some(e)
                    &&& final(self)@ == old(self)@
                },
            },
    {
        if self.state.is_paused {
            return Err(ErrorCode::ContractPaused);
        }
        let mut record = match self.records.remove(&token_id) {
            Some(record) => record,
            None => {
                proof {
                    assert(self.records@ =~= old(self).records@);
                    old(self).lemma_view_by_fields();
                    self.lemma_view_by_fields();
                }
                return Err(ErrorCode::NotFound);
            },
        };
        let r = burn_token(&mut self.state, &mut record, authority, token_id);
        proof {
            if r is Ok {
                lemma_record_ceases_to_live(old(self).records@, token_id, record);
            }
        }
        self.records.insert(token_id, record);
        proof {
            assert(self.records@ =~= old(self).records@.insert(token_id, record));
            if r is Err {
                assert(self.records@ =~= old(self).records@);
            }
            old(self).lemma_view_by_fields();
            self.lemma_view_by_fields();
        }
        r
    }

    /// Starts the transfer of an asset to another chain, on its owner's
    /// request, and returns the intent for the relay. The identifier is
    /// checked against the origin ledger, so only an asset minted here can
    /// leave. The destination is not held against the connection registry:
    /// that is left to the relay.
    pub fn transfer(
        &mut self,
        owner: &Pubkey,
        token_id: u64,
        receiver: String,
        destination_chain_id: u64,
        unix_timestamp: i64,
    ) -> (r: Result<(TokenTransfer, LedgerCall), ErrorCode>)
        requires
            old(self).wf(),
        ensures
            final(self).wf(),
            match r {
                Ok((event, ledger_call)) => {
                    &&& old(self)@.transfer_error(*owner, token_id, receiver@) is None
                    &&& final(self)@ == old(self)@.after_transfer(
                        token_id,
                        destination_chain_id,
                        receiver,
                        unix_timestamp,
                    )
                    &&& event == (TokenTransfer {
                        receiver,
                        destination: destination_chain_id,
                        token_id,
                        uri: old(self)@.records[token_id].uri,
                    })
                    &&& ledger_call == (LedgerCall::BurnOne { holder: *owner })
                },
                Err(e) => {
                    &&& old(self)@.transfer_error(*owner, token_id, receiver@) == Some(e)
                    &&& final(self)@ == old(self)@
                },
            },
    {
        if self.state.is_paused {
            return Err(ErrorCode::ContractPaused);
        }
        match self.records.get(&token_id) {
            Some(record) => {
                match check_transfer_request(&self.state, record, owner, &receiver) {
                    Ok(()) => {},
                    Err(e) => {
                        return Err(e);
                    },
                }
            },
            None => {
                return Err(ErrorCode::NotFound);
            },
        }
        let origin: NFTOrigin = match self.origins.get(&token_id) {
            Some(origin) => *origin,
            None => {
                return Err(ErrorCode::NotFound);
            },
        };
        let mut record = match self.records.remove(&token_id) {
            Some(record) => record,
            None => {
                proof {
                    assert(self.records@ =~= old(self).records@);
                    old(self).lemma_view_by_fields();
                    self.lemma_view_by_fields();
                }
                return Err(ErrorCode::NotFound);
            },
        };
        let r = transfer_cross_chain(
            &mut self.state,
            &mut record,
            &origin,
            owner,
            token_id,
            receiver,
            destination_chain_id,
            unix_timestamp,
        );
        proof {
            if r is Ok {
                lemma_record_ceases_to_live(old(self).records@, token_id, record);
            }
        }
        self.records.insert(token_id, record);
        proof {
            assert(self.records@ =~= old(self).records@.insert(token_id, record));
            if r is Err {
                assert(self.records@ =~= old(self).records@);
            }
            old(self).lemma_view_by_fields();
            self.lemma_view_by_fields();
        }
        r
    }

    /// Recreates an asset that the relay reports as sent from another chain.
    /// The identifier must be one that no record holds; exactly one record is
    /// created, and the supply grows by one.
    pub fn receive(
        &mut self,
        recipient: &Pubkey,
        token_id: u64,
        uri: String,
        sender_chain_id: u64,
        original_sender: String,
        unix_timestamp: i64,
    ) -> (r: Result<(TokenTransferReceived, LedgerCall), ErrorCode>)
        requires
            old(self).wf(),
        ensures
            final(self).wf(),
            match r {
                Ok((event, ledger_call)) => {
                    &&& old(self)@.receive_error(token_id, uri@) is None
                    &&& final(self)@ == old(self)@.after_receive(
                        *recipient,
                        token_id,
                        uri,
                        sender_chain_id,
                        unix_timestamp,
                    )
                    &&& event == (TokenTransferReceived { recipient: *recipient, token_id, uri })
                    &&& ledger_call == (LedgerCall::MintOne { recipient: *recipient })
                },
                Err(e) => {
                    &&& old(self)@.receive_error(token_id, uri@) == Some(e)
                    &&& final(self)@ == old(self)@
                },
            },
    {
        match check_cross_chain_receive(&self.state, &uri) {
            Ok(()) => {},
            Err(e) => {
                return Err(e);
            },
        }
        if self.records.contains_key(&token_id) {
            return Err(ErrorCode::AlreadyExists);
        }
        let received = match handle_cross_chain_receive(
            &mut self.state,
            recipient,
            token_id,
            uri,
            sender_chain_id,
            original_sender,
            unix_timestamp,
        ) {
            Ok(received) => received,
            Err(e) => {
                return Err(e);
            },
        };
        proof {
            lemma_record_comes_to_life(self.records@, token_id, received.nft_data);
        }
        self.records.insert(token_id, received.nft_data);
        self.index.insert(token_id, received.enumerable_data);
        proof {
            old(self).lemma_view_by_fields();
            self.lemma_view_by_fields();
        }
        Ok((received.event, received.ledger_call))
    }

    /// Undoes an outbound transfer that the relay could not deliver: the
    /// record is active again and owned by `original_owner`. Refused while
    /// the program is paused.
    pub fn revert(&mut self, token_id: u64, original_owner: Pubkey) -> (r: Result<
        (TokenTransferReverted, LedgerCall),
        ErrorCode,
    >)
        requires
            old(self).wf(),
        ensures
            final(self).wf(),
            match r {
                Ok((event, ledger_call)) => {
                    &&& old(self)@.revert_error(token_id) is None
                    &&& final(self)@ == old(self)@.after_revert(token_id, original_owner)
                    &&& event == (TokenTransferReverted {
                        owner: original_owner,
                        token_id,
                        uri: old(self)@.records[token_id].uri,
                    })
                    &&& ledger_call == (LedgerCall::MintOne { recipient: original_owner })
                },
                Err(e) => {
                    &&& old(self)@.revert_error(token_id) == Some(e)
                    &&& final(self)@ == old(self)@
                },
            },
    {
        if self.state.is_paused {
            return Err(ErrorCode::ContractPaused);
        }
        let mut record = match self.records.remove(&token_id) {
            Some(record) => record,
            None => {
                proof {
                    assert(self.records@ =~= old(self).records@);
                    old(self).lemma_view_by_fields();
                    self.lemma_view_by_fields();
                }
                return Err(ErrorCode::NotFound);
            },
        };
        let r = revert_transfer(&mut self.state, &mut record, token_id, original_owner);
        proof {
            if r is Ok {
                lemma_record_comes_to_life(old(self).records@, token_id, record);
            }
        }
        self.records.insert(token_id, record);
        proof {
            assert(self.records@ =~= old(self).records@.insert(token_id, record));
            if r is Err {
                assert(self.records@ =~= old(self).records@);
            }
            old(self).lemma_view_by_fields();
            self.lemma_view_by_fields();
        }
        r
    }
}

/// An operation that was accepted and is not stored yet. It holds the event
/// to emit once the operation is stored, the call that the token ledger is
/// owed before that, and the configuration and the entries that the operation
/// writes. The deployment it was staged on is untouched until `conclude`
/// stores it.
#[derive(Debug)]
pub struct Staged {
    event: Emitted,
    ledger_call: Option<LedgerCall>,
    state: ProgramState,
    connection: Option<ChainConnection>,
    record: Option<NftData>,
    origin: Option<NFTOrigin>,
    index: Option<EnumerableData>,
}

impl Staged {
    /// The event to emit once the operation is stored.
    pub closed spec fn emits(self) -> Emitted {
        self.event
    }

    /// What the token ledger is to do before the operation is stored.
    pub closed spec fn asks(self) -> Option<LedgerCall> {
        self.ledger_call
    }

    /// The event to emit once the operation is stored.
    pub fn event(&self) -> (event: &Emitted)
        ensures
            *event == self.emits(),
    {
        &self.event
    }

    /// What the token ledger is to do before the operation is stored.
    pub fn ledger_call(&self) -> (call: Option<LedgerCall>)
        ensures
            call == self.asks(),
    {
        self.ledger_call
    }

    /// The deployment `d` with the staged configuration and entries stored,
    /// each entry under its own key.
    pub closed spec fn stored_in(self, d: DeploymentView) -> DeploymentView {
        DeploymentView {
            state: self.state,
            connections: match self.connection {
                Some(c) => d.connections.insert(c.chain_id, c),
                None => d.connections,
            },
            records: match self.record {
                Some(r) => d.records.insert(r.token_id, r),
                None => d.records,
            },
            origins: match self.origin {
                Some(o) => d.origins.insert(o.token_id, o),
                None => d.origins,
            },
            index: match self.index {
                Some(x) => d.index.insert(x.token_id, x),
                None => d.index,
            },
        }
    }
}

impl Deployment {
    fn stage_set_gateway(&self, authority: &Pubkey, gateway_address: Pubkey) -> (r: Result<
        Staged,
        ErrorCode,
    >)
        ensures
            match r {
                Ok(staged) => {
                    &&& admin_error(self@.state, *authority) is None
                    &&& staged.stored_in(self@) == self@.with_state(
                        ProgramState { gateway: gateway_address, ..self@.state },
                    )
                    &&& staged.emits() == Emitted::GatewayUpdated(
                        GatewayUpdated { new_gateway: gateway_address },
                    )
                    &&& staged.asks() is None
                },
                Err(e) => admin_error(self@.state, *authority) == Some(e),
            },
    {
        proof {
            self.lemma_view_by_fields();
        }
        let mut state = self.state.duplicate();
        match set_gateway(&mut state, authority, gateway_address) {
            Ok(event) => Ok(
                Staged {
                    event: Emitted::GatewayUpdated(event),
                    ledger_call: None,
                    state,
                    connection: None,
                    record: None,
                    origin: None,
                    index: None,
                },
            ),
            Err(e) => Err(e),
        }
    }

    fn stage_set_gas_limit(&self, authority: &Pubkey, gas_limit: u64) -> (r: Result<
        Staged,
        ErrorCode,
    >)
        ensures
            match r {
                Ok(staged) => {
                    &&& set_gas_limit_error(self@.state, *authority, gas_limit) is None
                    &&& staged.stored_in(self@) == self@.with_state(
                        ProgramState { gas_limit, ..self@.state },
                    )
                    &&& staged.emits() == Emitted::GasLimitUpdated(
                        GasLimitUpdated { new_gas_limit: gas_limit },
                    )
                    &&& staged.asks() is None
                },
                Err(e) => set_gas_limit_error(self@.state, *authority, gas_limit) == Some(e),
            },
    {
        proof {
            self.lemma_view_by_fields();
        }
        let mut state = self.state.duplicate();
        match set_gas_limit(&mut state, authority, gas_limit) {
            Ok(event) => Ok(
                Staged {
                    event: Emitted::GasLimitUpdated(event),
                    ledger_call: None,
                    state,
                    connection: None,
                    record: None,
                    origin: None,
                    index: None,
                },
            ),
            Err(e) => Err(e),
        }
    }

    fn stage_pause(&self, authority: &Pubkey) -> (r: Result<Staged, ErrorCode>)
        ensures
            match r {
                Ok(staged) => {
                    &&& pause_error(self@.state, *authority) is None
                    &&& staged.stored_in(self@) == self@.with_state(
                        ProgramState { is_paused: true, ..self@.state },
                    )
                    &&& staged.emits() == Emitted::ContractPaused(ContractPaused { by: *authority })
                    &&& staged.asks() is None
                },
                Err(e) => pause_error(self@.state, *authority) == Some(e),
            },
    {
        proof {
            self.lemma_view_by_fields();
        }
        let mut state = self.state.duplicate();
        match pause(&mut state, authority) {
            Ok(event) => Ok(
                Staged {
                    event: Emitted::ContractPaused(event),
                    ledger_call: None,
                    state,
                    connection: None,
                    record: None,
                    origin: None,
                    index: None,
                },
            ),
            Err(e) => Err(e),
        }
    }

    fn stage_unpause(&self, authority: &Pubkey) -> (r: Result<Staged, ErrorCode>)
        ensures
            match r {
                Ok(staged) => {
                    &&& unpause_error(self@.state, *authority) is None
                    &&& staged.stored_in(self@) == self@.with_state(
                        ProgramState { is_paused: false, ..self@.state },
                    )
                    &&& staged.emits() == Emitted::ContractUnpaused(
                        ContractUnpaused { by: *authority },
                    )
                    &&& staged.asks() is None
                },
                Err(e) => unpause_error(self@.state, *authority) == Some(e),
            },
    {
        proof {
            self.lemma_view_by_fields();
        }
        let mut state = self.state.duplicate();
        match unpause(&mut state, authority) {
            Ok(event) => Ok(
                Staged {
                    event: Emitted::ContractUnpaused(event),
                    ledger_call: None,
                    state,
                    connection: None,
                    record: None,
                    origin: None,
                    index: None,
                },
            ),
            Err(e) => Err(e),
        }
    }

    fn stage_connect(&self, authority: &Pubkey, chain_id: u64, contract_address: String) -> (r:
        Result<Staged, ErrorCode>)
        ensures
            match r {
                Ok(staged) => {
                    &&& self@.connect_error(*authority, chain_id, contract_address@) is None
                    &&& staged.stored_in(self@) == self@.after_connect(chain_id, contract_address)
                    &&& staged.emits() == Emitted::ChainConnected(
                        ChainConnected { chain_id, contract_address },
                    )
                    &&& staged.asks() is None
                },
                Err(e) => self@.connect_error(*authority, chain_id, contract_address@) == Some(e),
            },
    {
        proof {
            self.lemma_view_by_fields();
        }
        match set_connected(&self.state, authority, chain_id, contract_address) {
            Ok((connection, event)) => {
                if self.connections.contains_key(&chain_id) {
                    return Err(ErrorCode::AlreadyExists);
                }
                Ok(
                    Staged {
                        event: Emitted::ChainConnected(event),
                        ledger_call: None,
                        state: self.state.duplicate(),
                        connection: Some(connection),
                        record: None,
                        origin: None,
                        index: None,
                    },
                )
            },
            Err(e) => Err(e),
        }
    }

    fn stage_mint(
        &self,
        mint: &Pubkey,
        recipient: &Pubkey,
        uri: String,
        slot: u64,
        unix_timestamp: i64,
    ) -> (r: Result<Staged, ErrorCode>)
        ensures
            match r {
                Ok(staged) => {
                    &&& self@.mint_error(*mint, uri@, slot) is None
                    &&& staged.stored_in(self@) == self@.after_mint(
                        *mint,
                        *recipient,
                        uri,
                        slot,
                        unix_timestamp,
                    )
                    &&& staged.emits() == Emitted::TokenMinted(
                        TokenMinted {
                            recipient: *recipient,
                            token_id: self@.next_id(*mint, slot),
                            uri,
                        },
                    )
                    &&& staged.asks() == Some(LedgerCall::MintOne { recipient: *recipient })
                },
                Err(e) => self@.mint_error(*mint, uri@, slot) == Some(e),
            },
    {
        proof {
            self.lemma_view_by_fields();
        }
        let mut state = self.state.duplicate();
        match safe_mint(&mut state, mint, recipient, uri, slot, unix_timestamp) {
            Ok(minted) => {
                if self.records.contains_key(&minted.nft_data.token_id) {
                    return Err(ErrorCode::AlreadyExists);
                }
                Ok(
                    Staged {
                        event: Emitted::TokenMinted(minted.event),
                        ledger_call: Some(minted.ledger_call),
                        state,
                        connection: None,
                        record: Some(minted.nft_data),
                        origin: Some(minted.nft_origin),
                        index: Some(minted.enumerable_data),
                    },
                )
            },
            Err(e) => Err(e),
        }
    }

    fn stage_burn(&self, authority: &Pubkey, token_id: u64) -> (r: Result<Staged, ErrorCode>)
        requires
            self.wf(),
        ensures
            match r {
                Ok(staged) => {
                    &&& self@.burn_error(*authority, token_id) is None
                    &&& staged.stored_in(self@) == self@.after_burn(token_id)
                    &&& staged.emits() == Emitted::TokenBurned(
                        TokenBurned { owner: *authority, token_id },
                    )
                    &&& staged.asks() == Some(LedgerCall::BurnOne { holder: *authority })
                },
                Err(e) => self@.burn_error(*authority, token_id) == Some(e),
            },
    {
        proof {
            self.lemma_view_by_fields();
        }
        if self.state.is_paused {
            return Err(ErrorCode::ContractPaused);
        }
        let mut record = match self.records.get(&token_id) {
            Some(record) => record.duplicate(),
            None => {
                return Err(ErrorCode::NotFound);
            },
        };
        let mut state = self.state.duplicate();
        match burn_token(&mut state, &mut record, authority, token_id) {
            Ok((event, call)) => Ok(
                Staged {
                    event: Emitted::TokenBurned(event),
                    ledger_call: Some(call),
                    state,
                    connection: None,
                    record: Some(record),
                    origin: None,
                    index: None,
                },
            ),
            Err(e) => Err(e),
        }
    }

    fn stage_transfer(
        &self,
        owner: &Pubkey,
        token_id: u64,
        receiver: String,
        destination_chain_id: u64,
        unix_timestamp: i64,
    ) -> (r: Result<Staged, ErrorCode>)
        requires
            self.wf(),
        ensures
            match r {
                Ok(staged) => {
                    &&& self@.transfer_error(*owner, token_id, receiver@) is None
                    &&& staged.stored_in(self@) == self@.after_transfer(
                        token_id,
                        destination_chain_id,
                        receiver,
                        unix_timestamp,
                    )
                    &&& staged.emits() == Emitted::TokenTransfer(
                        TokenTransfer {
                            receiver,
                            destination: destination_chain_id,
                            token_id,
                            uri: self@.records[token_id].uri,
                        },
                    )
                    &&& staged.asks() == Some(LedgerCall::BurnOne { holder: *owner })
                },
                Err(e) => self@.transfer_error(*owner, token_id, receiver@) == Some(e),
            },
    {
        proof {
            self.lemma_view_by_fields();
        }
        if self.state.is_paused {
            return Err(ErrorCode::ContractPaused);
        }
        let mut record = match self.records.get(&token_id) {
            Some(record) => record.duplicate(),
            None => {
                return Err(ErrorCode::NotFound);
            },
        };
        match check_transfer_request(&self.state, &record, owner, &receiver) {
            Ok(()) => {},
            Err(e) => {
                return Err(e);
            },
        }
        let origin: NFTOrigin = match self.origins.get(&token_id) {
            Some(origin) => *origin,
            None => {
                return Err(ErrorCode::NotFound);
            },
        };
        let mut state = self.state.duplicate();
        match transfer_cross_chain(
            &mut state,
            &mut record,
            &origin,
            owner,
            token_id,
            receiver,
            destination_chain_id,
            unix_timestamp,
        ) {
            Ok((event, call)) => Ok(
                Staged {
                    event: Emitted::TokenTransfer(event),
                    ledger_call: Some(call),
                    state,
                    connection: None,
                    record: Some(record),
                    origin: None,
                    index: None,
                },
            ),
            Err(e) => Err(e),
        }
    }

    fn stage_receive(
        &self,
        recipient: &Pubkey,
        token_id: u64,
        uri: String,
        sender_chain_id: u64,
        original_sender: String,
        unix_timestamp: i64,
    ) -> (r: Result<Staged, ErrorCode>)
        ensures
            match r {
                Ok(staged) => {
                    &&& self@.receive_error(token_id, uri@) is None
                    &&& staged.stored_in(self@) == self@.after_receive(
                        *recipient,
                        token_id,
                        uri,
                        sender_chain_id,
                        unix_timestamp,
                    )
                    &&& staged.emits() == Emitted::TokenTransferReceived(
                        TokenTransferReceived { recipient: *recipient, token_id, uri },
                    )
                    &&& staged.asks() == Some(LedgerCall::MintOne { recipient: *recipient })
                },
                Err(e) => self@.receive_error(token_id, uri@) == Some(e),
            },
    {
        proof {
            self.lemma_view_by_fields();
        }
        let mut state = self.state.duplicate();
        match handle_cross_chain_receive(
            &mut state,
            recipient,
            token_id,
            uri,
            sender_chain_id,
            original_sender,
            unix_timestamp,
        ) {
            Ok(received) => {
                if self.records.contains_key(&token_id) {
                    return Err(ErrorCode::AlreadyExists);
                }
                Ok(
                    Staged {
                        event: Emitted::TokenTransferReceived(received.event),
                        ledger_call: Some(received.ledger_call),
                        state,
                        connection: None,
                        record: Some(received.nft_data),
                        origin: None,
                        index: Some(received.enumerable_data),
                    },
                )
            },
            Err(e) => Err(e),
        }
    }

    fn stage_revert(&self, token_id: u64, original_owner: Pubkey) -> (r: Result<Staged, ErrorCode>)
        requires
            self.wf(),
        ensures
            match r {
                Ok(staged) => {
                    &&& self@.revert_error(token_id) is None
                    &&& staged.stored_in(self@) == self@.after_revert(token_id, original_owner)
                    &&& staged.emits() == Emitted::TokenTransferReverted(
                        TokenTransferReverted {
                            owner: original_owner,
                            token_id,
                            uri: self@.records[token_id].uri,
                        },
                    )
                    &&& staged.asks() == Some(LedgerCall::MintOne { recipient: original_owner })
                },
                Err(e) => self@.revert_error(token_id) == Some(e),
            },
    {
        proof {
            self.lemma_view_by_fields();
        }
        if self.state.is_paused {
            return Err(ErrorCode::ContractPaused);
        }
        let mut record = match self.records.get(&token_id) {
            Some(record) => record.duplicate(),
            None => {
                return Err(ErrorCode::NotFound);
            },
        };
        let mut state = self.state.duplicate();
        match revert_transfer(&mut state, &mut record, token_id, original_owner) {
            Ok((event, call)) => Ok(
                Staged {
                    event: Emitted::TokenTransferReverted(event),
                    ledger_call: Some(call),
                    state,
                    connection: None,
                    record: Some(record),
                    origin: None,
                    index: None,
                },
            ),
            Err(e) => Err(e),
        }
    }

    /// Decides on an operation without storing anything. For an accepted
    /// operation the result holds what `step` would store, the event, and the
    /// call that the token ledger is owed; the caller makes that call and
    /// hands its outcome to `conclude`. A refused operation gives the reason.
    pub fn stage(&self, op: Operation) -> (r: Result<Staged, ErrorCode>)
        requires
            self.wf(),
        ensures
            match r {
                Ok(staged) => {
                    &&& refusal(self@, op) is None
                    &&& staged.stored_in(self@) == step(self@, op)
                    &&& staged.stored_in(self@).wf()
                    &&& staged.emits() == emitted(self@, op)
                    &&& staged.asks() == ledger_call(op)
                },
                Err(e) => refusal(self@, op) == Some(e),
            },
    {
        proof {
            law_step_keeps_invariant(self@, op);
        }
        match op {
            Operation::SetGateway { authority, gateway_address } => self.stage_set_gateway(
                &authority,
                gateway_address,
            ),
            Operation::SetGasLimit { authority, gas_limit } => self.stage_set_gas_limit(
                &authority,
                gas_limit,
            ),
            Operation::Pause { authority } => self.stage_pause(&authority),
            Operation::Unpause { authority } => self.stage_unpause(&authority),
            Operation::Connect { authority, chain_id, contract_address } => self.stage_connect(
                &authority,
                chain_id,
                contract_address,
            ),
            Operation::Mint { mint, recipient, uri, slot, unix_timestamp } => self.stage_mint(
                &mint,
                &recipient,
                uri,
                slot,
                unix_timestamp,
            ),
            Operation::Burn { authority, token_id } => self.stage_burn(&authority, token_id),
            Operation::Transfer {
                owner,
                token_id,
                receiver,
                destination_chain_id,
                unix_timestamp,
            } => self.stage_transfer(
                &owner,
                token_id,
                receiver,
                destination_chain_id,
                unix_timestamp,
            ),
            Operation::Receive {
                recipient,
                token_id,
                uri,
                sender_chain_id,
                original_sender,
                unix_timestamp,
            } => self.stage_receive(
                &recipient,
                token_id,
                uri,
                sender_chain_id,
                original_sender,
                unix_timestamp,
            ),
            Operation::Revert { token_id, original_owner } => self.stage_revert(
                token_id,
                original_owner,
            ),
        }
    }

    /// Ends a staged operation once the outcome of its calls on the token
    /// ledger and the descriptor service is known. If they succeeded, the
    /// staged changes are stored, all of them, and the event is returned. If
    /// one of them failed, nothing is stored and nothing is emitted. The
    /// operation must have been staged on the deployment as it stands.
    pub fn conclude(&mut self, staged: Staged, collaborators_succeeded: bool) -> (r: Option<
        Emitted,
    >)
        requires
            old(self).wf(),
            staged.stored_in(old(self)@).wf(),
        ensures
            final(self).wf(),
            collaborators_succeeded ==> final(self)@ == staged.stored_in(old(self)@) && r == Some(
                staged.emits(),
            ),
            !collaborators_succeeded ==> final(self)@ == old(self)@ && r is None,
    {
        if !collaborators_succeeded {
            return None;
        }
        self.state = staged.state;
        match staged.connection {
            Some(c) => {
                self.connections.insert(c.chain_id, c);
            },
            None => {},
        }
        match staged.record {
            Some(r) => {
                self.records.insert(r.token_id, r);
            },
            None => {},
        }
        match staged.origin {
            Some(o) => {
                self.origins.insert(o.token_id, o);
            },
            None => {},
        }
        match staged.index {
            Some(x) => {
                self.index.insert(x.token_id, x);
            },
            None => {},
        }
        proof {
            old(self).lemma_view_by_fields();
            self.lemma_view_by_fields();
        }
        Some(staged.event)
    }
}

} // verus!
