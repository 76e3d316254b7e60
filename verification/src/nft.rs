//! Names as tokens.
use vstd::prelude::*;

use crate::account::{label_under, named_account, AccountId, FullName};
use crate::asset_gate::{ft_balance_fanout, ft_balances_clear, BalanceGate, FT_BALANCE_TGAS};
use crate::callbacks::rotated;
use crate::common::{PromiseError, RotationCause};
use crate::error::ContractError;
use crate::events::Event;
use crate::host::{
    logged, quiet, Call, Callback, Dispatch, Env, NftRotation, NftTransferCall, PromiseOrValue, Reply,
};
use crate::marketplace::{TRANSFER_CB_TGAS, TRANSFER_FORCE_TGAS, TRANSFER_GATE_CB_TGAS};
use crate::registry::{assert_one_yocto, TlaRegistry};
use crate::text::{decimal_text, json_text};
use crate::types::{NftContractMetadata, SubAccountEntry, TokenMetadata, MAX_PAGE_LIMIT, NFT_SPEC};

verus! {

pub const NFT_ON_TRANSFER_TGAS: u64 = 25;

/// Funds the return rotation that it may ask for, a forced transfer and its callback, besides its own
/// execution.
pub const RESOLVE_TRANSFER_TGAS: u64 = 80;

/// What the callback of a transfer that calls its receiver needs for itself and what follows it.
pub const ROTATION_CALL_TGAS: u64 = TRANSFER_CB_TGAS + NFT_ON_TRANSFER_TGAS + RESOLVE_TRANSFER_TGAS;

/// The balance gate's callback funds the longest chain that can follow it.
pub proof fn gate_callback_funds_a_transfer_call()
    ensures
        TRANSFER_FORCE_TGAS + ROTATION_CALL_TGAS <= TRANSFER_GATE_CB_TGAS,
        TRANSFER_FORCE_TGAS + TRANSFER_CB_TGAS <= RESOLVE_TRANSFER_TGAS,
{
}

#[derive(Debug)]
pub struct Token {
    pub token_id: AccountId,
    pub owner_id: AccountId,
    pub metadata: Option<TokenMetadata>,
}

/// A page of an owner's tokens, and the name that the next page starts at.
#[derive(Debug)]
pub struct TokenPage {
    pub tokens: Vec<Token>,
    pub next: Option<AccountId>,
}

/// Metadata that still goes by the contract's own account.
pub open spec fn is_initial_metadata(m: NftContractMetadata, account: AccountId) -> bool {
    &&& m.spec@ == NFT_SPEC@
    &&& m.name@ == account@
    &&& m.symbol@ == account@
    &&& m.icon is None
    &&& m.base_uri is None
    &&& m.reference is None
    &&& m.reference_hash is None
}

pub(crate) fn initial_metadata(env: &Env) -> (r: NftContractMetadata)
    ensures
        is_initial_metadata(r, env.current),
{
    NftContractMetadata {
        spec: NFT_SPEC.to_owned(),
        name: env.current.text(),
        symbol: env.current.text(),
        icon: None,
        base_uri: None,
        reference: None,
        reference_hash: None,
    }
}

/// The lease of a name, as a token carries it.
pub open spec fn lease_text(sub: SubAccountEntry) -> Seq<char> {
    crate::text::json_object(
        "rented_at"@,
        crate::text::decimal(sub.rented_at as nat),
        "expires_at"@,
        crate::text::decimal(sub.expires_at as nat),
    )
}

/// A token that stands for the name `id` with that row.
pub open spec fn is_token(t: Token, id: AccountId, sub: SubAccountEntry) -> bool {
    &&& t.token_id == id
    &&& t.owner_id == sub.owner
    &&& t.metadata matches Some(m)
    &&& m.title matches Some(title)
    &&& title@ == id@
    &&& m.copies == Some(1u64)
    &&& m.extra matches Some(extra)
    &&& extra@ == lease_text(sub)
    &&& m.description is None
    &&& m.media is None
    &&& m.media_hash is None
    &&& m.issued_at is None
    &&& m.expires_at is None
    &&& m.starts_at is None
    &&& m.updated_at is None
    &&& m.reference is None
    &&& m.reference_hash is None
}

fn token_of(token_id: &AccountId, sub: &SubAccountEntry) -> (r: Token)
    ensures
        is_token(r, *token_id, *sub),
{
    proof {
        reveal_strlit("expires_at");
        reveal_strlit("rented_at");
        crate::text::lemma_decimal_is_digits(sub.expires_at as nat);
        crate::text::lemma_decimal_is_digits(sub.rented_at as nat);
        assert(crate::text::is_plain("expires_at"@));
        assert(crate::text::is_plain("rented_at"@));
        assert("rented_at"@[0] != "expires_at"@[0]);
    }
    let expires_at = decimal_text(sub.expires_at);
    let rented_at = decimal_text(sub.rented_at);
    Token {
        token_id: *token_id,
        owner_id: sub.owner,
        metadata: Some(
            TokenMetadata {
                title: Some(token_id.text()),
                description: None,
                media: None,
                media_hash: None,
                copies: Some(1),
                issued_at: None,
                expires_at: None,
                starts_at: None,
                updated_at: None,
                extra: Some(json_text("rented_at", rented_at.as_str(), "expires_at", expires_at.as_str())),
                reference: None,
                reference_hash: None,
            },
        ),
    }
}

/// The rotation that a transfer waits for.
pub open spec fn is_rotation(
    r: NftRotation,
    tla_id: AccountId,
    name: Seq<char>,
    from: AccountId,
    to: AccountId,
    memo: Option<String>,
    cause: RotationCause,
) -> bool {
    r.tla_id == tla_id && r.name@ == name && r.from == from && r.to == to && r.memo == memo && r.cause == cause
}

/// The rotation that a transfer with a message waits for.
pub open spec fn is_rotation_call(
    r: NftTransferCall,
    tla_id: AccountId,
    name: Seq<char>,
    from: AccountId,
    to: AccountId,
    memo: Option<String>,
    msg: String,
    cause: RotationCause,
) -> bool {
    r.tla_id == tla_id && r.name@ == name && r.from == from && r.to == to && r.memo == memo && r.msg == msg && r.cause
        == cause
}

/// Where a page of `n` items starts.
pub open spec fn page_start(n: nat, from: nat) -> int {
    if from < n {
        from as int
    } else {
        n as int
    }
}

/// Where a page of `n` items ends.
pub open spec fn page_end(n: nat, from: nat, limit: nat) -> int {
    if page_start(n, from) + limit < n {
        page_start(n, from) + limit
    } else {
        n as int
    }
}

/// The page of a sequence.
pub open spec fn page_of<T>(s: Seq<T>, from: nat, limit: nat) -> Seq<T> {
    s.subrange(page_start(s.len(), from), page_end(s.len(), from, limit))
}

/// The bounds of a page of `n` items.
pub(crate) fn page_bounds(n: usize, from: u64, limit: u64) -> (r: (usize, usize))
    ensures
        r.0 == page_start(n as nat, from as nat),
        r.1 == page_end(n as nat, from as nat, limit as nat),
        r.0 <= r.1 <= n,
{
    let start: usize = if from < n as u64 {
        from as usize
    } else {
        n
    };
    let left: usize = n - start;
    let taken: usize = if limit < left as u64 {
        limit as usize
    } else {
        left
    };
    (start, start + taken)
}

/// How many tokens a page shows.
pub open spec fn token_limit(limit: Option<u64>) -> u64 {
    match limit {
        Some(limit) => if limit < MAX_PAGE_LIMIT {
            limit
        } else {
            MAX_PAGE_LIMIT
        },
        None => MAX_PAGE_LIMIT,
    }
}

fn clamp_limit(limit: Option<u64>) -> (r: u64)
    ensures
        r == token_limit(limit),
{
    match limit {
        Some(limit) => {
            if limit < MAX_PAGE_LIMIT {
                limit
            } else {
                MAX_PAGE_LIMIT
            }
        },
        None => MAX_PAGE_LIMIT,
    }
}

/// The index that a page starts at; one beyond a machine word is beyond every page.
pub open spec fn token_start(from_index: Option<u128>) -> u64 {
    match from_index {
        Some(i) => if i < u64::MAX {
            i as u64
        } else {
            u64::MAX
        },
        None => 0,
    }
}

fn start_index(from_index: Option<u128>) -> (r: u64)
    ensures
        r == token_start(from_index),
{
    match from_index {
        Some(i) => {
            if i < u64::MAX as u128 {
                i as u64
            } else {
                u64::MAX
            }
        },
        None => 0,
    }
}

impl TlaRegistry {
    /// The tokens of the listed names that are rented, in order.
    pub open spec fn are_tokens(self, tokens: Seq<Token>, names: Seq<AccountId>) -> bool {
        let held = names.filter(|k: AccountId| self.sub_accounts@.has(k));
        &&& tokens.len() == held.len()
        &&& forall|i: int| 0 <= i < held.len() ==> is_token(#[trigger] tokens[i], held[i], self.sub_accounts@[held[i]])
    }

    // ---- reading tokens -----------------------------------------------------------------------

    pub fn nft_token(&self, token_id: String) -> (r: Option<Token>)
        ensures
            ({
                let id = AccountId::of(token_id@);
                if crate::account::is_account_id(token_id@) && self.sub_accounts@.has(id) {
                    r matches Some(t) && is_token(t, id, self.sub_accounts@[id])
                } else {
                    r is None
                }
            }),
    {
        match AccountId::parse(token_id.as_str()) {
            Some(id) => match self.sub_accounts.get(&id) {
                Some(sub) => Some(token_of(&id, sub)),
                None => None,
            },
            None => None,
        }
    }

    pub fn nft_metadata(&self) -> (r: NftContractMetadata)
        ensures
            r == self.nft_contract_metadata,
    {
        self.nft_contract_metadata.clone()
    }

    pub fn admin_set_nft_metadata(
        &mut self,
        env: &Env,
        name: String,
        symbol: String,
        icon: Option<String>,
        base_uri: Option<String>,
        reference: Option<String>,
    ) -> (r: Result<Reply<()>, ContractError>)
        ensures
            match crate::admin::admin_refusal(*old(self), *env) {
                Some(e) => r == Err::<Reply<()>, _>(e) && *final(self) == *old(self),
                None => {
                    let m = final(self).nft_contract_metadata;
                    &&& r matches Ok(reply)
                    &&& reply.events@ == Seq::<Event>::empty()
                    &&& m.spec@ == NFT_SPEC@
                    &&& m == (NftContractMetadata {
                        spec: m.spec,
                        name,
                        symbol,
                        icon,
                        base_uri,
                        reference,
                        reference_hash: None,
                    })
                    &&& *final(self) == (TlaRegistry { nft_contract_metadata: m, ..*old(self) })
                },
            },
    {
        assert_one_yocto(env)?;
        self.assert_admin(env)?;
        self.nft_contract_metadata = NftContractMetadata {
            spec: NFT_SPEC.to_owned(),
            name,
            symbol,
            icon,
            base_uri,
            reference,
            reference_hash: None,
        };
        Ok(quiet(()))
    }

    pub fn nft_total_supply(&self) -> (r: u128)
        ensures
            r == self.sub_account_count,
    {
        self.sub_account_count as u128
    }

    pub fn nft_supply_for_owner(&self, account_id: AccountId) -> (r: u128)
        ensures
            r == crate::indexes::names_under(self.sub_accounts_by_owner@, account_id).len(),
    {
        match self.sub_accounts_by_owner.get(&account_id) {
            Some(keys) => keys.len() as u128,
            None => 0,
        }
    }

    /// The tokens of `keys[start..end]`.
    fn collect_tokens(&self, keys: &Vec<AccountId>, start: usize, end: usize) -> (r: Vec<Token>)
        requires
            start <= end <= keys@.len(),
        ensures
            self.are_tokens(r@, keys@.subrange(start as int, end as int)),
    {
        let mut tokens: Vec<Token> = Vec::new();
        let mut i: usize = start;
        let ghost pred = |k: AccountId| self.sub_accounts@.has(k);
        proof {
            reveal(Seq::filter);
            assert(keys@.subrange(start as int, start as int).filter(pred) =~= Seq::empty());
        }
        while i < end
            invariant
                start <= i <= end <= keys@.len(),
                pred == (|k: AccountId| self.sub_accounts@.has(k)),
                self.are_tokens(tokens@, keys@.subrange(start as int, i as int)),
            decreases end - i,
        {
            let ghost before = keys@.subrange(start as int, i as int);
            let ghost after = keys@.subrange(start as int, i + 1);
            proof {
                assert(after.drop_last() =~= before);
                assert(after.last() == keys@[i as int]);
                reveal(Seq::filter);
            }
            if let Some(sub) = self.sub_accounts.get(&keys[i]) {
                tokens.push(token_of(&keys[i], sub));
            }
            i += 1;
        }
        tokens
    }

    pub fn nft_tokens(&self, from_index: Option<u128>, limit: Option<u64>) -> (r: Vec<Token>)
        ensures
            ({
                let page = page_of(self.sub_accounts@.keys, token_start(from_index) as nat, token_limit(limit) as nat);
                &&& r@.len() == page.len()
                &&& forall|i: int| 0 <= i < page.len() ==> is_token(#[trigger] r@[i], page[i], self.sub_accounts@[page[i]])
            }),
    {
        let (start, end) = page_bounds(self.sub_accounts.len(), start_index(from_index), clamp_limit(limit));
        let mut tokens: Vec<Token> = Vec::new();
        let mut i: usize = start;
        while i < end
            invariant
                start <= i <= end <= self.sub_accounts@.keys.len(),
                tokens@.len() == i - start,
                forall|j: int| 0 <= j < i - start ==> is_token(
                    #[trigger] tokens@[j],
                    self.sub_accounts@.keys[start + j],
                    self.sub_accounts@[self.sub_accounts@.keys[start + j]],
                ),
            decreases end - i,
        {
            tokens.push(token_of(self.sub_accounts.key_at(i), self.sub_accounts.value_at(i)));
            i += 1;
        }
        tokens
    }

    pub fn nft_tokens_for_owner(&self, account_id: AccountId, from_index: Option<u128>, limit: Option<u64>) -> (r: Vec<
        Token,
    >)
        ensures
            self.are_tokens(
                r@,
                page_of(
                    crate::indexes::names_under(self.sub_accounts_by_owner@, account_id),
                    token_start(from_index) as nat,
                    token_limit(limit) as nat,
                ),
            ),
    {
        match self.sub_accounts_by_owner.get(&account_id) {
            Some(keys) => {
                let (start, end) = page_bounds(keys.len(), start_index(from_index), clamp_limit(limit));
                self.collect_tokens(keys, start, end)
            },
            None => {
                proof {
                    reveal(Seq::filter);
                }
                Vec::new()
            },
        }
    }

    /// A page of an owner's tokens from a name on. A page shows at least one token where one is left,
    /// and the name that it stops before is where the next one starts.
    pub fn nft_tokens_for_owner_page(&self, account_id: AccountId, from: Option<String>, limit: Option<u64>) -> (r: Result<
        TokenPage,
        ContractError,
    >)
        ensures
            ({
                let names = crate::indexes::names_under(self.sub_accounts_by_owner@, account_id);
                let known = from is Some && crate::account::is_account_id(from->0@) && names.contains(
                    AccountId::of(from->0@),
                );
                if from is Some && !known {
                    r == Err::<TokenPage, _>(ContractError::UnknownCursor)
                } else {
                    let start = if from is Some {
                        crate::ordered::position_of(names, AccountId::of(from->0@))
                    } else {
                        0
                    };
                    let size = if token_limit(limit) == 0 {
                        1
                    } else {
                        token_limit(limit) as nat
                    };
                    let end = page_end(names.len(), start as nat, size);
                    &&& r matches Ok(page)
                    &&& self.are_tokens(page.tokens@, names.subrange(start, end))
                    &&& page.next == (if end < names.len() {
                        Some(names[end])
                    } else {
                        None
                    })
                }
            }),
    {
        proof {
            reveal(Seq::filter);
        }
        let mut wanted: Option<AccountId> = None;
        if let Some(text) = from {
            match AccountId::parse(text.as_str()) {
                Some(id) => {
                    wanted = Some(id);
                },
                None => {
                    return Err(ContractError::UnknownCursor);
                },
            }
        }
        self.sub_accounts_by_owner.check_lists();
        let keys = match self.sub_accounts_by_owner.get(&account_id) {
            Some(keys) => keys,
            None => {
                if wanted.is_some() {
                    return Err(ContractError::UnknownCursor);
                }
                assert(crate::indexes::names_under(self.sub_accounts_by_owner@, account_id).subrange(0, 0) =~= Seq::empty());
                return Ok(TokenPage { tokens: Vec::new(), next: None });
            },
        };
        let mut start: usize = 0;
        if let Some(id) = wanted {
            let mut i: usize = 0;
            while i < keys.len() && keys[i] != id
                invariant
                    i <= keys@.len(),
                    forall|j: int| 0 <= j < i ==> keys@[j] != id,
                decreases keys@.len() - i,
            {
                i += 1;
            }
            if i == keys.len() {
                assert(!keys@.contains(id));
                return Err(ContractError::UnknownCursor);
            }
            assert(keys@[i as int] == id && keys@.contains(id));
            assert(crate::ordered::position_of(keys@, id) == i);
            start = i;
        }
        let clamped: u64 = clamp_limit(limit);
        let size: u64 = if clamped == 0 {
            1
        } else {
            clamped
        };
        let (_, end) = page_bounds(keys.len(), start as u64, size);
        let tokens = self.collect_tokens(keys, start, end);
        let next = if end < keys.len() {
            Some(keys[end])
        } else {
            None
        };
        Ok(TokenPage { tokens, next })
    }

    // ---- moving tokens ------------------------------------------------------------------------

    /// The top level account and the label of a token, if there is such a token.
    pub open spec fn token_parts(self, token: Seq<char>) -> Option<(AccountId, Seq<char>)> {
        let id = AccountId::of(token);
        let tla_id = self.sub_accounts@[id].tla_id;
        if crate::account::is_account_id(token) && self.sub_accounts@.has(id) && crate::account::label_of(
            token,
            tla_id@,
        ) is Some {
            Some((tla_id, crate::account::label_of(token, tla_id@)->0))
        } else {
            None
        }
    }

    fn split_token_id(&self, token_id: &str) -> (r: Result<(AccountId, String), ContractError>)
        ensures
            match self.token_parts(token_id@) {
                Some((tla_id, name)) => r matches Ok(parts) && parts.0 == tla_id && parts.1@ == name,
                None => r == Err::<(AccountId, String), _>(ContractError::TokenNotFound),
            },
    {
        let id = match AccountId::parse(token_id) {
            Some(id) => id,
            None => {
                return Err(ContractError::TokenNotFound);
            },
        };
        let tla_id = match self.sub_accounts.get(&id) {
            Some(sub) => sub.tla_id,
            None => {
                return Err(ContractError::TokenNotFound);
            },
        };
        match label_under(&id, &tla_id) {
            Some(name) => Ok((tla_id, name)),
            None => Err(ContractError::TokenNotFound),
        }
    }

    pub open spec fn nft_transfer_refusal(self, env: Env, receiver_id: AccountId, token_id: Seq<char>, approval_id: Option<u64>) -> Option<ContractError> {
        if approval_id is Some {
            Some(ContractError::ApprovalsNotSupported)
        } else {
            match self.token_parts(token_id) {
                None => Some(ContractError::TokenNotFound),
                Some((tla_id, name)) => self.transfer_refusal(env, tla_id, name, receiver_id),
            }
        }
    }

    fn open_nft_transfer(&self, env: &Env, receiver_id: &AccountId, token_id: &str, approval_id: Option<u64>) -> (r: Result<
        (AccountId, String, AccountId, AccountId),
        ContractError,
    >)
        ensures
            match self.nft_transfer_refusal(*env, *receiver_id, token_id@, approval_id) {
                Some(e) => r == Err::<(AccountId, String, AccountId, AccountId), _>(e),
                None => {
                    let parts = self.token_parts(token_id@)->0;
                    &&& r matches Ok(opened)
                    &&& opened.0 == parts.0
                    &&& opened.1@ == parts.1
                    &&& opened.2 == env.predecessor
                    &&& opened.3 == crate::account::sub_account_id(parts.0, parts.1)
                },
            },
    {
        if approval_id.is_some() {
            return Err(ContractError::ApprovalsNotSupported);
        }
        let (tla_id, name) = self.split_token_id(token_id)?;
        let (sub_account, from) = self.assert_transferable(env, &tla_id, name.as_str(), receiver_id)?;
        Ok((tla_id, name, from, sub_account))
    }

    /// How a transfer of a token starts: with the balance queries where it is gated, else with the
    /// rotation.
    pub open spec fn starts_nft_transfer(self, d: Dispatch, env: Env, receiver_id: AccountId, token_id: Seq<char>, memo: Option<String>) -> bool {
        let parts = self.token_parts(token_id)->0;
        let key = crate::account::sub_account_id(parts.0, parts.1);
        let from = env.predecessor;
        let cause = self.cause_for(receiver_id);
        if self.gated(from) {
            &&& d.callback matches Callback::NftBalancesChecked { sub_account, rotation }
            &&& sub_account == key
            &&& is_rotation(rotation, parts.0, parts.1, from, receiver_id, memo, cause)
            &&& crate::rental::asks_balances(d, self.ft_allowlist@.keys, key, d.callback, TRANSFER_GATE_CB_TGAS)
        } else {
            &&& d.callback matches Callback::NftRotationResolved(rotation)
            &&& is_rotation(rotation, parts.0, parts.1, from, receiver_id, memo, cause)
            &&& d == crate::marketplace::hand_over(
                self.hos_extension,
                key,
                from,
                receiver_id,
                cause,
                d.callback,
                TRANSFER_CB_TGAS,
            )
        }
    }

    /// Transfers a token as [`TlaRegistry::transfer_sub_account`] transfers its name.
    pub fn nft_transfer(
        &mut self,
        env: &Env,
        receiver_id: AccountId,
        token_id: String,
        approval_id: Option<u64>,
        memo: Option<String>,
    ) -> (r: Result<Reply<Dispatch>, ContractError>)
        ensures
            *final(self) == *old(self),
            match old(self).nft_transfer_refusal(*env, receiver_id, token_id@, approval_id) {
                Some(e) => r == Err::<Reply<Dispatch>, _>(e),
                None => {
                    &&& r matches Ok(reply)
                    &&& reply.events@ == Seq::<Event>::empty()
                    &&& old(self).starts_nft_transfer(reply.value, *env, receiver_id, token_id@, memo)
                },
            },
    {
        let (tla_id, name, from, sub_account) = self.open_nft_transfer(
            env,
            &receiver_id,
            token_id.as_str(),
            approval_id,
        )?;
        let cause = self.rotation_for_receiver(&receiver_id);
        let rotation = NftRotation { tla_id, name, from, to: receiver_id, memo, cause };
        if !self.venues.contains_key(&from) {
            if let Some(tokens) = ft_balance_fanout(&self.ft_allowlist) {
                return Ok(
                    quiet(
                        Dispatch {
                            call: Call::FtBalances { tokens, account: sub_account },
                            tgas: FT_BALANCE_TGAS,
                            deposit: 0,
                            callback: Callback::NftBalancesChecked { sub_account, rotation },
                            callback_tgas: TRANSFER_GATE_CB_TGAS,
                        },
                    ),
                );
            }
        }
        Ok(quiet(self.dispatch_nft_transfer(sub_account, rotation)))
    }

    fn dispatch_nft_transfer(&self, sub_account: AccountId, rotation: NftRotation) -> (r: Dispatch)
        ensures
            r == crate::marketplace::hand_over(
                self.hos_extension,
                sub_account,
                rotation.from,
                rotation.to,
                rotation.cause,
                Callback::NftRotationResolved(rotation),
                TRANSFER_CB_TGAS,
            ),
    {
        Dispatch {
            call: Call::ForceTransfer {
                extension: self.hos_extension,
                wallet: sub_account,
                new_owner: Some(rotation.to),
                cause: rotation.cause,
                expected: Some(rotation.from),
            },
            tgas: TRANSFER_FORCE_TGAS,
            deposit: 0,
            callback: Callback::NftRotationResolved(rotation),
            callback_tgas: TRANSFER_CB_TGAS,
        }
    }

    fn dispatch_nft_transfer_call(&self, sub_account: AccountId, call: NftTransferCall) -> (r: Dispatch)
        ensures
            r == crate::marketplace::hand_over(
                self.hos_extension,
                sub_account,
                call.from,
                call.to,
                call.cause,
                Callback::NftRotationResolvedCall(call),
                ROTATION_CALL_TGAS,
            ),
    {
        Dispatch {
            call: Call::ForceTransfer {
                extension: self.hos_extension,
                wallet: sub_account,
                new_owner: Some(call.to),
                cause: call.cause,
                expected: Some(call.from),
            },
            tgas: TRANSFER_FORCE_TGAS,
            deposit: 0,
            callback: Callback::NftRotationResolvedCall(call),
            callback_tgas: ROTATION_CALL_TGAS,
        }
    }

    /// Goes on with a token transfer whose account is empty of gated tokens; refuses and logs one that
    /// is not.
    pub fn nft_on_balances_checked(
        &mut self,
        sub_account: AccountId,
        rotation: NftRotation,
        allowlist: Vec<AccountId>,
        balances: Vec<Result<u128, PromiseError>>,
    ) -> (r: Reply<Result<Dispatch, ContractError>>)
        ensures
            *final(self) == *old(self),
            match crate::asset_gate::gate_of(allowlist@, balances@) {
                BalanceGate::Blocked { token, reason } => {
                    &&& r.value == Err::<Dispatch, _>(ContractError::SubAccountHoldsTokens)
                    &&& r.events@ == seq![Event::TransferBlockedByBalance { full_name: sub_account, token, reason }]
                },
                BalanceGate::Clear => {
                    &&& r.value == Ok::<_, ContractError>(
                        crate::marketplace::hand_over(
                            old(self).hos_extension,
                            sub_account,
                            rotation.from,
                            rotation.to,
                            rotation.cause,
                            Callback::NftRotationResolved(rotation),
                            TRANSFER_CB_TGAS,
                        ),
                    )
                    &&& r.events@ == Seq::<Event>::empty()
                },
            },
    {
        if let BalanceGate::Blocked { token, reason } = ft_balances_clear(&allowlist, &balances) {
            return logged(
                Err(ContractError::SubAccountHoldsTokens),
                Event::TransferBlockedByBalance { full_name: sub_account, token, reason },
            );
        }
        quiet(Ok(self.dispatch_nft_transfer(sub_account, rotation)))
    }

    pub open spec fn nft_transfer_call_refusal(self, env: Env, receiver_id: AccountId, token_id: Seq<char>, approval_id: Option<u64>) -> Option<ContractError> {
        if self.marketplace_paused {
            Some(ContractError::MarketplacePaused)
        } else {
            self.nft_transfer_refusal(env, receiver_id, token_id, approval_id)
        }
    }

    /// How a transfer with a message starts.
    pub open spec fn starts_nft_transfer_call(self, d: Dispatch, env: Env, receiver_id: AccountId, token_id: Seq<char>, memo: Option<String>, msg: String) -> bool {
        let parts = self.token_parts(token_id)->0;
        let key = crate::account::sub_account_id(parts.0, parts.1);
        let from = env.predecessor;
        let cause = self.cause_for(receiver_id);
        if self.gated(from) {
            &&& d.callback matches Callback::NftCallBalancesChecked { sub_account, call }
            &&& sub_account == key
            &&& is_rotation_call(call, parts.0, parts.1, from, receiver_id, memo, msg, cause)
            &&& crate::rental::asks_balances(d, self.ft_allowlist@.keys, key, d.callback, TRANSFER_GATE_CB_TGAS)
        } else {
            &&& d.callback matches Callback::NftRotationResolvedCall(call)
            &&& is_rotation_call(call, parts.0, parts.1, from, receiver_id, memo, msg, cause)
            &&& d == crate::marketplace::hand_over(
                self.hos_extension,
                key,
                from,
                receiver_id,
                cause,
                d.callback,
                ROTATION_CALL_TGAS,
            )
        }
    }

    /// Transfers a token to a receiver that is called with a message. A market pause closes this
    /// entrance; taking a name back out is a plain transfer, which stays open.
    pub fn nft_transfer_call(
        &mut self,
        env: &Env,
        receiver_id: AccountId,
        token_id: String,
        approval_id: Option<u64>,
        memo: Option<String>,
        msg: String,
    ) -> (r: Result<Reply<Dispatch>, ContractError>)
        ensures
            *final(self) == *old(self),
            match old(self).nft_transfer_call_refusal(*env, receiver_id, token_id@, approval_id) {
                Some(e) => r == Err::<Reply<Dispatch>, _>(e),
                None => {
                    &&& r matches Ok(reply)
                    &&& reply.events@ == Seq::<Event>::empty()
                    &&& old(self).starts_nft_transfer_call(reply.value, *env, receiver_id, token_id@, memo, msg)
                },
            },
    {
        self.assert_marketplace_open()?;
        let (tla_id, name, from, sub_account) = self.open_nft_transfer(
            env,
            &receiver_id,
            token_id.as_str(),
            approval_id,
        )?;
        let cause = self.rotation_for_receiver(&receiver_id);
        let call = NftTransferCall { tla_id, name, from, to: receiver_id, memo, msg, cause };
        if !self.venues.contains_key(&from) {
            if let Some(tokens) = ft_balance_fanout(&self.ft_allowlist) {
                return Ok(
                    quiet(
                        Dispatch {
                            call: Call::FtBalances { tokens, account: sub_account },
                            tgas: FT_BALANCE_TGAS,
                            deposit: 0,
                            callback: Callback::NftCallBalancesChecked { sub_account, call },
                            callback_tgas: TRANSFER_GATE_CB_TGAS,
                        },
                    ),
                );
            }
        }
        Ok(quiet(self.dispatch_nft_transfer_call(sub_account, call)))
    }

    /// Goes on with a transfer with a message as [`TlaRegistry::nft_on_balances_checked`] does.
    pub fn nft_on_call_balances_checked(
        &mut self,
        sub_account: AccountId,
        call: NftTransferCall,
        allowlist: Vec<AccountId>,
        balances: Vec<Result<u128, PromiseError>>,
    ) -> (r: Reply<Result<Dispatch, ContractError>>)
        ensures
            *final(self) == *old(self),
            match crate::asset_gate::gate_of(allowlist@, balances@) {
                BalanceGate::Blocked { token, reason } => {
                    &&& r.value == Err::<Dispatch, _>(ContractError::SubAccountHoldsTokens)
                    &&& r.events@ == seq![Event::TransferBlockedByBalance { full_name: sub_account, token, reason }]
                },
                BalanceGate::Clear => {
                    &&& r.value == Ok::<_, ContractError>(
                        crate::marketplace::hand_over(
                            old(self).hos_extension,
                            sub_account,
                            call.from,
                            call.to,
                            call.cause,
                            Callback::NftRotationResolvedCall(call),
                            ROTATION_CALL_TGAS,
                        ),
                    )
                    &&& r.events@ == Seq::<Event>::empty()
                },
            },
    {
        if let BalanceGate::Blocked { token, reason } = ft_balances_clear(&allowlist, &balances) {
            return logged(
                Err(ContractError::SubAccountHoldsTokens),
                Event::TransferBlockedByBalance { full_name: sub_account, token, reason },
            );
        }
        quiet(Ok(self.dispatch_nft_transfer_call(sub_account, call)))
    }

    /// Why a rotation is not committed to the ledger, if it is not.
    pub open spec fn commit_refusal(self, key: Option<AccountId>, swapped: Result<bool, PromiseError>) -> Option<ContractError> {
        if swapped != Ok::<bool, PromiseError>(true) {
            Some(ContractError::RotationNotConfirmed)
        } else if key is None || !self.sub_accounts@.has(key->0) {
            Some(ContractError::OwnerIndexOutOfSync)
        } else {
            None
        }
    }

    fn commit_nft_rotation(&mut self, env: &Env, rotation: NftRotation, swapped: Result<bool, PromiseError>) -> (r: Result<
        (AccountId, Vec<Event>),
        ContractError,
    >)
        ensures
            ({
                let key = crate::account::named_account_of(rotation.tla_id, rotation.name@);
                match old(self).commit_refusal(key, swapped) {
                    Some(e) => r == Err::<(AccountId, Vec<Event>), _>(e) && *final(self) == *old(self),
                    None => {
                        &&& r matches Ok(committed)
                        &&& committed.0 == key->0
                        &&& final(self).rotation_landed(
                            *old(self),
                            committed.1@,
                            *env,
                            key->0,
                            rotation.from,
                            rotation.to,
                            old(self).payout_after(key->0, rotation.to, rotation.cause),
                            rotation.memo,
                            Event::SubAccountTransferred {
                                full_name: key->0,
                                tla_id: rotation.tla_id,
                                from: rotation.from,
                                to: rotation.to,
                            },
                        )
                    },
                }
            }),
    {
        if !rotated(&swapped) {
            return Err(ContractError::RotationNotConfirmed);
        }
        let key = match named_account(&rotation.tla_id, rotation.name.as_str()) {
            Some(key) => key,
            None => {
                return Err(ContractError::OwnerIndexOutOfSync);
            },
        };
        let sub = match self.sub_accounts.get(&key) {
            Some(sub) => *sub,
            None => {
                return Err(ContractError::OwnerIndexOutOfSync);
            },
        };
        let payout = if rotation.cause.repoints_payout() {
            rotation.to
        } else {
            sub.payout_account
        };
        let NftRotation { tla_id, name, from, to, memo, cause } = rotation;
        let events = self.land_rotation(
            env,
            &key,
            from,
            to,
            payout,
            memo,
            Event::SubAccountTransferred { full_name: key, tla_id, from, to },
        );
        Ok((key, events))
    }

    /// The rotation is the transfer: one that failed fails this call, because a caller takes an empty
    /// success as proof that the token moved.
    pub fn nft_on_rotation_resolved(&mut self, env: &Env, rotation: NftRotation, swapped: Result<bool, PromiseError>) -> (r: Result<
        Vec<Event>,
        ContractError,
    >)
        ensures
            ({
                let key = crate::account::named_account_of(rotation.tla_id, rotation.name@);
                match old(self).commit_refusal(key, swapped) {
                    Some(e) => r == Err::<Vec<Event>, _>(e) && *final(self) == *old(self),
                    None => {
                        &&& r matches Ok(events)
                        &&& final(self).rotation_landed(
                            *old(self),
                            events@,
                            *env,
                            key->0,
                            rotation.from,
                            rotation.to,
                            old(self).payout_after(key->0, rotation.to, rotation.cause),
                            rotation.memo,
                            Event::SubAccountTransferred {
                                full_name: key->0,
                                tla_id: rotation.tla_id,
                                from: rotation.from,
                                to: rotation.to,
                            },
                        )
                    },
                }
            }),
    {
        let (_, events) = self.commit_nft_rotation(env, rotation, swapped)?;
        Ok(events)
    }

    /// Commits the rotation, and goes on to call the receiver.
    pub fn nft_on_rotation_resolved_call(
        &mut self,
        env: &Env,
        call: NftTransferCall,
        swapped: Result<bool, PromiseError>,
    ) -> (r: Result<Reply<Dispatch>, ContractError>)
        ensures
            ({
                let key = crate::account::named_account_of(call.tla_id, call.name@);
                match old(self).commit_refusal(key, swapped) {
                    Some(e) => r == Err::<Reply<Dispatch>, _>(e) && *final(self) == *old(self),
                    None => {
                        &&& r matches Ok(reply)
                        &&& final(self).rotation_landed(
                            *old(self),
                            reply.events@,
                            *env,
                            key->0,
                            call.from,
                            call.to,
                            old(self).payout_after(key->0, call.to, call.cause),
                            call.memo,
                            Event::SubAccountTransferred {
                                full_name: key->0,
                                tla_id: call.tla_id,
                                from: call.from,
                                to: call.to,
                            },
                        )
                        &&& reply.value == (Dispatch {
                            call: Call::NftOnTransfer {
                                receiver: call.to,
                                sender_id: call.from,
                                previous_owner_id: call.from,
                                token_id: key->0,
                                msg: call.msg,
                            },
                            tgas: NFT_ON_TRANSFER_TGAS,
                            deposit: 0,
                            callback: Callback::NftResolveTransfer {
                                tla_id: call.tla_id,
                                name: call.name,
                                from: call.from,
                                to: call.to,
                            },
                            callback_tgas: RESOLVE_TRANSFER_TGAS,
                        })
                    },
                }
            }),
    {
        let NftTransferCall { tla_id, name, from, to, memo, msg, cause } = call;
        let (token_id, events) = self.commit_nft_rotation(
            env,
            NftRotation { tla_id, name: name.clone(), from, to, memo, cause },
            swapped,
        )?;
        Ok(
            Reply {
                value: Dispatch {
                    call: Call::NftOnTransfer { receiver: to, sender_id: from, previous_owner_id: from, token_id, msg },
                    tgas: NFT_ON_TRANSFER_TGAS,
                    deposit: 0,
                    callback: Callback::NftResolveTransfer { tla_id, name, from, to },
                    callback_tgas: RESOLVE_TRANSFER_TGAS,
                },
                events,
            },
        )
    }

    /// Takes a name back from a receiver that returned it or did not answer, if it still has it.
    pub fn nft_resolve_transfer(
        &mut self,
        tla_id: AccountId,
        name: String,
        from: AccountId,
        to: AccountId,
        returned: Result<bool, PromiseError>,
    ) -> (r: PromiseOrValue<bool>)
        ensures
            *final(self) == *old(self),
            ({
                let key = crate::account::named_account_of(tla_id, name@);
                if returned != Ok::<bool, PromiseError>(false) && key is Some && old(self).owned_by(key->0, to) {
                    r == PromiseOrValue::<bool>::Promise(
                        Dispatch {
                            call: Call::ForceTransfer {
                                extension: old(self).hos_extension,
                                wallet: key->0,
                                new_owner: Some(from),
                                cause: RotationCause::Revert,
                                expected: None,
                            },
                            tgas: TRANSFER_FORCE_TGAS,
                            deposit: 0,
                            callback: Callback::NftReturnResolved { tla_id, name, from: to, to: from },
                            callback_tgas: TRANSFER_CB_TGAS,
                        },
                    )
                } else {
                    r == PromiseOrValue::<bool>::Value(true)
                }
            }),
    {
        let give_back = match returned {
            Ok(back) => back,
            Err(_) => true,
        };
        if !give_back {
            return PromiseOrValue::Value(true);
        }
        let key = match named_account(&tla_id, name.as_str()) {
            Some(key) => key,
            None => {
                return PromiseOrValue::Value(true);
            },
        };
        if !self.still_owned_by(&key, &to) {
            return PromiseOrValue::Value(true);
        }
        PromiseOrValue::Promise(
            Dispatch {
                call: Call::ForceTransfer {
                    extension: self.hos_extension,
                    wallet: key,
                    new_owner: Some(from),
                    cause: RotationCause::Revert,
                    expected: None,
                },
                tgas: TRANSFER_FORCE_TGAS,
                deposit: 0,
                callback: Callback::NftReturnResolved { tla_id, name, from: to, to: from },
                callback_tgas: TRANSFER_CB_TGAS,
            },
        )
    }

    /// The ledger follows a return. The transfer was reported already, so a return that failed is only
    /// logged. Either way the receiver did not keep the token.
    pub fn nft_on_return_resolved(
        &mut self,
        env: &Env,
        tla_id: AccountId,
        name: String,
        from: AccountId,
        to: AccountId,
        swapped: Result<bool, PromiseError>,
    ) -> (r: Reply<bool>)
        ensures
            !r.value,
            ({
                let key = crate::account::named_account_of(tla_id, name@);
                if swapped == Ok::<bool, PromiseError>(true) && key is Some && old(self).sub_accounts@.has(key->0) {
                    final(self).rotation_landed(
                        *old(self),
                        r.events@,
                        *env,
                        key->0,
                        from,
                        to,
                        to,
                        None,
                        Event::SubAccountTransferred { full_name: key->0, tla_id, from, to },
                    )
                } else {
                    &&& r.events@ == seq![
                        Event::TransferFailed { full_name: crate::account::full_name_of(tla_id, name), from, to },
                    ]
                    &&& *final(self) == *old(self)
                }
            }),
    {
        if rotated(&swapped) {
            if let Some(key) = named_account(&tla_id, name.as_str()) {
                if self.sub_accounts.contains_key(&key) {
                    let events = self.land_rotation(
                        env,
                        &key,
                        from,
                        to,
                        to,
                        None,
                        Event::SubAccountTransferred { full_name: key, tla_id, from, to },
                    );
                    return Reply { value: false, events };
                }
            }
        }
        logged(false, Event::TransferFailed { full_name: FullName::of(tla_id, name), from, to })
    }
}

} // verus!
