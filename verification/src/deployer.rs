//! The account that publishes the wallet implementation: code is approved first, waits out a delay
//! in the open, and is then published by anyone who pays for it.
use vstd::prelude::*;

use crate::account::AccountId;
use crate::common::{same_digest, sha256, PromiseError, DEPLOY_AND_MIGRATE_TGAS};
use crate::host::Env;

verus! {

pub const ON_DEPLOYED_TGAS: u64 = 10;

pub const SEAL_CB_TGAS: u64 = 5;

pub const GLOBAL_CODE_COST_PER_BYTE: u128 = 100_000_000_000_000_000_000;

/// Leased accounts reference the implementation by account id, so a publish reaches every one of
/// them at once. The delay gives owners a window to see an approval and act on it before the code
/// changes underneath them: 48 hours.
pub const DEFAULT_APPROVAL_DELAY_NS: u64 = 172_800_000_000_000;

pub const DEPLOYER_STATE_VERSION: u16 = 2;

/// How long a publish in flight holds back the next one: ten minutes.
pub const DEPLOY_LOCK_TTL_NS: u64 = 600_000_000_000;

/// Why a call on the deployer is refused.
#[derive(PartialEq, Eq, Structural, Clone, Copy, Debug)]
pub enum DeployerError {
    OnlyCouncil,
    NoApprovedHash,
    HashMismatch,
    DeployInFlight,
    ApprovalTooYoung,
    InsufficientDeposit,
    EmptyCode,
    CostOverflow,
    RequiresOneYocto,
    CouncilIsSelf,
    CouncilUnchanged,
    NoCouncilRotationPending,
    OnlyPendingCouncil,
    CouncilRotationTooYoung,
    NoApprovedUpgrade,
    UpgradeHashMismatch,
    UpgradeTooYoung,
    NoState,
    StateVersionUnknown,
    UpgradeNotProven,
}

impl DeployerError {
    pub open spec fn text(self) -> Seq<char> {
        match self {
            DeployerError::OnlyCouncil => "only council"@,
            DeployerError::NoApprovedHash => "no approved code hash"@,
            DeployerError::HashMismatch => "code does not match the approved hash"@,
            DeployerError::DeployInFlight => "another deploy is in flight"@,
            DeployerError::ApprovalTooYoung => "approved code must wait out the delay before publishing"@,
            DeployerError::InsufficientDeposit => "attached deposit below global storage cost"@,
            DeployerError::EmptyCode => "code must not be empty"@,
            DeployerError::CostOverflow => "storage cost overflow"@,
            DeployerError::RequiresOneYocto => "requires an attached deposit of exactly 1 yoctoNEAR"@,
            DeployerError::CouncilIsSelf => "council must not be this account, which ends with no keys"@,
            DeployerError::CouncilUnchanged => "the pending council must differ from the current one"@,
            DeployerError::NoCouncilRotationPending => "no council rotation has been approved"@,
            DeployerError::OnlyPendingCouncil => "only the incoming council"@,
            DeployerError::CouncilRotationTooYoung => "an approved council rotation must wait out the delay before it commits"@,
            DeployerError::NoApprovedUpgrade => "no approved upgrade hash"@,
            DeployerError::UpgradeHashMismatch => "code does not match the approved upgrade hash"@,
            DeployerError::UpgradeTooYoung => "an approved upgrade must wait out the delay before it installs"@,
            DeployerError::NoState => "no state to migrate"@,
            DeployerError::StateVersionUnknown => "state version is not the one this code understands"@,
            DeployerError::UpgradeNotProven => "the upgrade path has not been exercised on this account yet"@,
        }
    }

    pub fn message(&self) -> (r: &'static str)
        ensures
            r@ == self.text(),
    {
        match self {
            DeployerError::OnlyCouncil => "only council",
            DeployerError::NoApprovedHash => "no approved code hash",
            DeployerError::HashMismatch => "code does not match the approved hash",
            DeployerError::DeployInFlight => "another deploy is in flight",
            DeployerError::ApprovalTooYoung => "approved code must wait out the delay before publishing",
            DeployerError::InsufficientDeposit => "attached deposit below global storage cost",
            DeployerError::EmptyCode => "code must not be empty",
            DeployerError::CostOverflow => "storage cost overflow",
            DeployerError::RequiresOneYocto => "requires an attached deposit of exactly 1 yoctoNEAR",
            DeployerError::CouncilIsSelf => "council must not be this account, which ends with no keys",
            DeployerError::CouncilUnchanged => "the pending council must differ from the current one",
            DeployerError::NoCouncilRotationPending => "no council rotation has been approved",
            DeployerError::OnlyPendingCouncil => "only the incoming council",
            DeployerError::CouncilRotationTooYoung => "an approved council rotation must wait out the delay before it commits",
            DeployerError::NoApprovedUpgrade => "no approved upgrade hash",
            DeployerError::UpgradeHashMismatch => "code does not match the approved upgrade hash",
            DeployerError::UpgradeTooYoung => "an approved upgrade must wait out the delay before it installs",
            DeployerError::NoState => "no state to migrate",
            DeployerError::StateVersionUnknown => "state version is not the one this code understands",
            DeployerError::UpgradeNotProven => "the upgrade path has not been exercised on this account yet",
        }
    }
}

/// What the deployer logs.
#[derive(Debug)]
#[allow(inconsistent_fields)]
pub enum DeployerEvent {
    HashApproved { hash: [u8; 32], by: AccountId },
    ImplDeployed { hash: [u8; 32], size: u64 },
    DeployFailed { hash: [u8; 32] },
    SelfUpgraded,
    UpgradeApproved { hash: [u8; 32], by: AccountId },
    KeyDeleted { public_key: String, by: AccountId },
    KeyDeleteFailed { public_key: String, by: AccountId },
    CouncilRotationApproved { new_council: AccountId, by: AccountId },
    CouncilRotationCancelled { by: AccountId },
    CouncilRotated { new_council: AccountId, by: AccountId },
}

/// What the deployer asks of the chain.
#[derive(Debug)]
#[allow(inconsistent_fields)]
pub enum DeployerDispatch {
    /// Publish `code` under `account`, then call `gd_on_deployed` with the rest.
    Publish {
        account: AccountId,
        code: Vec<u8>,
        hash: [u8; 32],
        size: u64,
        payer: AccountId,
        attached: u128,
        balance_before: u128,
        callback_tgas: u64,
    },
    /// Deploy `code` on `account`, then migrate on whatever gas is left beyond `reserved_tgas`.
    DeployAndMigrate { account: AccountId, code: Vec<u8>, reserved_tgas: u64 },
    /// Delete a key of `account`, then call `gd_on_key_deleted`.
    DeleteKey { account: AccountId, public_key: String, by: AccountId, callback_tgas: u64 },
}

/// How a publish ended: whether it stands, and what goes back to whom.
#[derive(Debug)]
pub struct DeployOutcome {
    pub published: bool,
    pub refund: Option<(AccountId, u128)>,
    pub event: DeployerEvent,
}

#[derive(Clone, Copy, Debug)]
pub struct DeployerView {
    pub council: AccountId,
    pub approval_delay_ns: u64,
    pub production_delay: bool,
}

#[derive(Clone, Copy, Debug)]
pub struct ImplDeployer {
    pub state_version: u16,
    pub council: AccountId,
    pub current_hash: Option<[u8; 32]>,
    pub approved_hash: Option<[u8; 32]>,
    pub approved_at: Option<u64>,
    pub approval_delay_ns: u64,
    pub deploy_locked_until: u64,
    pub approved_upgrade_hash: Option<[u8; 32]>,
    pub approved_upgrade_at: Option<u64>,
    pub upgrade_proven: bool,
    pub pending_council: Option<AccountId>,
    pub pending_council_at: Option<u64>,
}

/// The state from before a council could be rotated.
#[derive(Clone, Copy, Debug)]
pub struct ImplDeployerV1 {
    pub state_version: u16,
    pub council: AccountId,
    pub current_hash: Option<[u8; 32]>,
    pub approved_hash: Option<[u8; 32]>,
    pub approved_at: Option<u64>,
    pub approval_delay_ns: u64,
    pub deploy_locked_until: u64,
    pub approved_upgrade_hash: Option<[u8; 32]>,
    pub approved_upgrade_at: Option<u64>,
    pub upgrade_proven: bool,
}

impl From<ImplDeployerV1> for ImplDeployer {
    fn from(v1: ImplDeployerV1) -> (r: Self) {
        ImplDeployer {
            state_version: DEPLOYER_STATE_VERSION,
            council: v1.council,
            current_hash: v1.current_hash,
            approved_hash: v1.approved_hash,
            approved_at: v1.approved_at,
            approval_delay_ns: v1.approval_delay_ns,
            deploy_locked_until: v1.deploy_locked_until,
            approved_upgrade_hash: v1.approved_upgrade_hash,
            approved_upgrade_at: v1.approved_upgrade_at,
            upgrade_proven: v1.upgrade_proven,
            pending_council: None,
            pending_council_at: None,
        }
    }
}

impl vstd::std_specs::convert::FromSpecImpl<ImplDeployerV1> for ImplDeployer {
    open spec fn obeys_from_spec() -> bool {
        true
    }

    open spec fn from_spec(v1: ImplDeployerV1) -> Self {
        ImplDeployer {
            state_version: DEPLOYER_STATE_VERSION,
            council: v1.council,
            current_hash: v1.current_hash,
            approved_hash: v1.approved_hash,
            approved_at: v1.approved_at,
            approval_delay_ns: v1.approval_delay_ns,
            deploy_locked_until: v1.deploy_locked_until,
            approved_upgrade_hash: v1.approved_upgrade_hash,
            approved_upgrade_at: v1.approved_upgrade_at,
            upgrade_proven: v1.upgrade_proven,
            pending_council: None,
            pending_council_at: None,
        }
    }
}

/// A deployer's state as it was read back.
#[derive(Clone, Copy, Debug)]
pub enum StoredDeployer {
    V1(ImplDeployerV1),
    Current(ImplDeployer),
}

/// How a deployer's state of some version is to be read.
#[derive(PartialEq, Eq, Structural, Clone, Copy, Debug)]
pub enum DeployerReader {
    V1,
    Current,
}

/// Picks the reader for the version that a state starts with.
pub fn reader_for(version: Option<u16>) -> (r: Result<DeployerReader, DeployerError>)
    ensures
        r == (match version {
            None => Err(DeployerError::NoState),
            Some(v) => if v == DEPLOYER_STATE_VERSION {
                Ok(DeployerReader::Current)
            } else if v == 1 {
                Ok(DeployerReader::V1)
            } else {
                Err(DeployerError::StateVersionUnknown)
            },
        }),
{
    match version {
        None => Err(DeployerError::NoState),
        Some(v) => {
            if v == DEPLOYER_STATE_VERSION {
                Ok(DeployerReader::Current)
            } else if v == 1 {
                Ok(DeployerReader::V1)
            } else {
                Err(DeployerError::StateVersionUnknown)
            }
        },
    }
}

/// Why a call that only the council may make, with one yocto attached, is refused, if it is.
pub open spec fn council_refusal(env: Env, council: AccountId) -> Option<DeployerError> {
    if env.deposit != 1 {
        Some(DeployerError::RequiresOneYocto)
    } else if env.predecessor != council {
        Some(DeployerError::OnlyCouncil)
    } else {
        None
    }
}

fn assert_one_yocto(env: &Env) -> (r: Result<(), DeployerError>)
    ensures
        r == (if env.deposit == 1 {
            Ok(())
        } else {
            Err(DeployerError::RequiresOneYocto)
        }),
{
    if env.deposit == 1 {
        Ok(())
    } else {
        Err(DeployerError::RequiresOneYocto)
    }
}

impl ImplDeployer {
    /// Picks a stored state up. A publish that was in flight, and an approval, do not survive. That
    /// the migration ran proves that the account can be upgraded without a key.
    pub fn migrate(stored: StoredDeployer) -> (r: (ImplDeployer, DeployerEvent))
        ensures
            r.1 == DeployerEvent::SelfUpgraded,
            r.0 == (ImplDeployer {
                approved_hash: None,
                approved_at: None,
                deploy_locked_until: 0,
                upgrade_proven: true,
                ..(match stored {
                    StoredDeployer::Current(current) => current,
                    StoredDeployer::V1(v1) => <ImplDeployer as vstd::std_specs::convert::FromSpec<
                        ImplDeployerV1,
                    >>::from_spec(v1),
                })
            }),
    {
        let mut current = match stored {
            StoredDeployer::Current(current) => current,
            StoredDeployer::V1(v1) => ImplDeployer::from(v1),
        };
        current.approved_hash = None;
        current.approved_at = None;
        current.deploy_locked_until = 0;
        current.upgrade_proven = true;
        (current, DeployerEvent::SelfUpgraded)
    }

    /// Omitting `approval_delay_ns` takes the 48 hour default. Passing zero removes the window owners
    /// have to see an approval before their code changes, which suits a sandbox and nothing else, so
    /// `config` reports whether the deployed value is production grade.
    pub fn new(env: &Env, council: AccountId, approval_delay_ns: Option<u64>) -> (r: Result<
        ImplDeployer,
        DeployerError,
    >)
        ensures
            r == (if council == env.current {
                Err(DeployerError::CouncilIsSelf)
            } else {
                Ok(
                    ImplDeployer {
                        state_version: DEPLOYER_STATE_VERSION,
                        council,
                        current_hash: None,
                        approved_hash: None,
                        approved_at: None,
                        approval_delay_ns: match approval_delay_ns {
                            Some(ns) => ns,
                            None => DEFAULT_APPROVAL_DELAY_NS,
                        },
                        deploy_locked_until: 0,
                        approved_upgrade_hash: None,
                        approved_upgrade_at: None,
                        upgrade_proven: false,
                        pending_council: None,
                        pending_council_at: None,
                    },
                )
            }),
    {
        if council == env.current {
            return Err(DeployerError::CouncilIsSelf);
        }
        let delay: u64 = match approval_delay_ns {
            Some(ns) => ns,
            None => DEFAULT_APPROVAL_DELAY_NS,
        };
        Ok(
            ImplDeployer {
                state_version: DEPLOYER_STATE_VERSION,
                council,
                current_hash: None,
                approved_hash: None,
                approved_at: None,
                approval_delay_ns: delay,
                deploy_locked_until: 0,
                approved_upgrade_hash: None,
                approved_upgrade_at: None,
                upgrade_proven: false,
                pending_council: None,
                pending_council_at: None,
            },
        )
    }

    fn assert_council(&self, env: &Env) -> (r: Result<(), DeployerError>)
        ensures
            r == (if env.predecessor == self.council {
                Ok(())
            } else {
                Err(DeployerError::OnlyCouncil)
            }),
    {
        if env.predecessor == self.council {
            Ok(())
        } else {
            Err(DeployerError::OnlyCouncil)
        }
    }

    /// Approves code by its digest, and starts its delay anew.
    pub fn gd_approve(&mut self, env: &Env, hash: [u8; 32]) -> (r: Result<DeployerEvent, DeployerError>)
        ensures
            match council_refusal(*env, old(self).council) {
                Some(e) => r == Err::<DeployerEvent, _>(e) && *final(self) == *old(self),
                None => {
                    &&& r == Ok::<_, DeployerError>(
                        DeployerEvent::HashApproved { hash, by: env.predecessor },
                    )
                    &&& *final(self) == (ImplDeployer {
                        approved_hash: Some(hash),
                        approved_at: Some(env.now),
                        ..*old(self)
                    })
                },
            },
    {
        assert_one_yocto(env)?;
        self.assert_council(env)?;
        self.approved_hash = Some(hash);
        self.approved_at = Some(env.now);
        Ok(DeployerEvent::HashApproved { hash, by: env.predecessor })
    }

    /// Why `code`, whose digest is `digest`, may not be published now, if it may not.
    pub open spec fn publish_refusal(self, env: Env, code: Seq<u8>, digest: Seq<u8>) -> Option<DeployerError> {
        if env.now < self.deploy_locked_until {
            Some(DeployerError::DeployInFlight)
        } else if code.len() == 0 {
            Some(DeployerError::EmptyCode)
        } else if self.approved_hash is None {
            Some(DeployerError::NoApprovedHash)
        } else if digest != self.approved_hash->0@ {
            Some(DeployerError::HashMismatch)
        } else if self.approved_at is None {
            Some(DeployerError::NoApprovedHash)
        } else if env.now < crate::common::capped_u64(self.approved_at->0 + self.approval_delay_ns) {
            Some(DeployerError::ApprovalTooYoung)
        } else if code.len() * GLOBAL_CODE_COST_PER_BYTE > u128::MAX {
            Some(DeployerError::CostOverflow)
        } else if env.deposit < code.len() * GLOBAL_CODE_COST_PER_BYTE {
            Some(DeployerError::InsufficientDeposit)
        } else {
            None
        }
    }

    /// What publishing `code` answers, given its digest.
    pub open spec fn publish_answer(
        self,
        after: ImplDeployer,
        r: Result<DeployerDispatch, DeployerError>,
        env: Env,
        code: Vec<u8>,
        digest: Seq<u8>,
    ) -> bool {
        match self.publish_refusal(env, code@, digest) {
            Some(e) => r == Err::<DeployerDispatch, _>(e) && after == self,
            None => {
                &&& r == Ok::<_, DeployerError>(
                    DeployerDispatch::Publish {
                        account: env.current,
                        code,
                        hash: self.approved_hash->0,
                        size: code@.len() as u64,
                        payer: env.predecessor,
                        attached: env.deposit,
                        balance_before: env.balance,
                        callback_tgas: ON_DEPLOYED_TGAS,
                    },
                )
                &&& after == (ImplDeployer {
                    deploy_locked_until: crate::common::capped_u64(env.now + DEPLOY_LOCK_TTL_NS),
                    ..self
                })
            },
        }
    }

    /// Publishes approved code. Anyone may, at their own cost, once the approval has waited out its
    /// delay.
    pub fn gd_deploy(&mut self, env: &Env, code: Vec<u8>) -> (r: Result<DeployerDispatch, DeployerError>)
        ensures
            old(self).publish_answer(*final(self), r, *env, code, crate::common::sha256_of(code@)),
    {
        let digest = sha256(&code);
        self.gd_deploy_with_digest(env, code, digest)
    }

    /// [`ImplDeployer::gd_deploy`] for code whose digest is known.
    pub fn gd_deploy_with_digest(&mut self, env: &Env, code: Vec<u8>, digest: [u8; 32]) -> (r: Result<
        DeployerDispatch,
        DeployerError,
    >)
        ensures
            old(self).publish_answer(*final(self), r, *env, code, digest@),
    {
        if env.now < self.deploy_locked_until {
            return Err(DeployerError::DeployInFlight);
        }
        if code.len() == 0 {
            return Err(DeployerError::EmptyCode);
        }
        let approved = match self.approved_hash {
            Some(hash) => hash,
            None => {
                return Err(DeployerError::NoApprovedHash);
            },
        };
        proof {
            if digest@ == approved@ {
                assert(digest =~= approved);
            }
        }
        if !same_digest(&digest, &approved) {
            return Err(DeployerError::HashMismatch);
        }
        let approved_at: u64 = match self.approved_at {
            Some(at) => at,
            None => {
                return Err(DeployerError::NoApprovedHash);
            },
        };
        if env.now < approved_at.saturating_add(self.approval_delay_ns) {
            return Err(DeployerError::ApprovalTooYoung);
        }
        let size: u64 = code.len() as u64;
        let cost: u128 = match (size as u128).checked_mul(GLOBAL_CODE_COST_PER_BYTE) {
            Some(cost) => cost,
            None => {
                return Err(DeployerError::CostOverflow);
            },
        };
        if env.deposit < cost {
            return Err(DeployerError::InsufficientDeposit);
        }
        self.deploy_locked_until = env.now.saturating_add(DEPLOY_LOCK_TTL_NS);
        Ok(
            DeployerDispatch::Publish {
                account: env.current,
                code,
                hash: approved,
                size,
                payer: env.predecessor,
                attached: env.deposit,
                balance_before: env.balance,
                callback_tgas: ON_DEPLOYED_TGAS,
            },
        )
    }

    /// Settles a publish. What it did not cost goes back to its payer, and all of it when it failed.
    pub fn gd_on_deployed(
        &mut self,
        env: &Env,
        hash: [u8; 32],
        size: u64,
        payer: AccountId,
        attached: u128,
        balance_before: u128,
        result: Result<(), PromiseError>,
    ) -> (r: DeployOutcome)
        ensures
            match result {
                Ok(_) => {
                    let spent = crate::common::floored(balance_before as int, env.balance as int);
                    let excess = crate::common::floored(attached as int, spent);
                    &&& r == (DeployOutcome {
                        published: true,
                        refund: if excess > 0 {
                            Some((payer, excess as u128))
                        } else {
                            None
                        },
                        event: DeployerEvent::ImplDeployed { hash, size },
                    })
                    &&& *final(self) == (ImplDeployer {
                        deploy_locked_until: 0,
                        current_hash: Some(hash),
                        approved_hash: None,
                        approved_at: None,
                        ..*old(self)
                    })
                },
                Err(_) => {
                    &&& r == (DeployOutcome {
                        published: false,
                        refund: Some((payer, attached)),
                        event: DeployerEvent::DeployFailed { hash },
                    })
                    &&& *final(self) == (ImplDeployer { deploy_locked_until: 0, ..*old(self) })
                },
            },
    {
        self.deploy_locked_until = 0;
        match result {
            Ok(_) => {
                self.current_hash = Some(hash);
                self.approved_hash = None;
                self.approved_at = None;
                let spent: u128 = balance_before.saturating_sub(env.balance);
                let excess: u128 = attached.saturating_sub(spent);
                let refund = if excess > 0 {
                    Some((payer, excess))
                } else {
                    None
                };
                DeployOutcome {
                    published: true,
                    refund,
                    event: DeployerEvent::ImplDeployed { hash, size },
                }
            },
            Err(_) => DeployOutcome {
                published: false,
                refund: Some((payer, attached)),
                event: DeployerEvent::DeployFailed { hash },
            },
        }
    }

    /// Approves the deployer's own next code by its digest, and starts its delay anew.
    pub fn approve_self_upgrade(&mut self, env: &Env, hash: [u8; 32]) -> (r: Result<
        DeployerEvent,
        DeployerError,
    >)
        ensures
            match council_refusal(*env, old(self).council) {
                Some(e) => r == Err::<DeployerEvent, _>(e) && *final(self) == *old(self),
                None => {
                    &&& r == Ok::<_, DeployerError>(
                        DeployerEvent::UpgradeApproved { hash, by: env.predecessor },
                    )
                    &&& *final(self) == (ImplDeployer {
                        approved_upgrade_hash: Some(hash),
                        approved_upgrade_at: Some(env.now),
                        ..*old(self)
                    })
                },
            },
    {
        assert_one_yocto(env)?;
        self.assert_council(env)?;
        self.approved_upgrade_hash = Some(hash);
        self.approved_upgrade_at = Some(env.now);
        Ok(DeployerEvent::UpgradeApproved { hash, by: env.predecessor })
    }

    /// Why `code`, whose digest is `digest`, may not replace the deployer's own now, if it may not.
    pub open spec fn upgrade_refusal(self, env: Env, code: Seq<u8>, digest: Seq<u8>) -> Option<DeployerError> {
        if council_refusal(env, self.council) is Some {
            council_refusal(env, self.council)
        } else if code.len() == 0 {
            Some(DeployerError::EmptyCode)
        } else if self.approved_upgrade_hash is None {
            Some(DeployerError::NoApprovedUpgrade)
        } else if digest != self.approved_upgrade_hash->0@ {
            Some(DeployerError::UpgradeHashMismatch)
        } else if self.approved_upgrade_at is None {
            Some(DeployerError::NoApprovedUpgrade)
        } else if env.now < crate::common::capped_u64(self.approved_upgrade_at->0 + self.approval_delay_ns) {
            Some(DeployerError::UpgradeTooYoung)
        } else {
            None
        }
    }

    /// What replacing the deployer's own code answers, given the digest of the new one.
    pub open spec fn upgrade_answer(
        self,
        after: ImplDeployer,
        r: Result<DeployerDispatch, DeployerError>,
        env: Env,
        code: Vec<u8>,
        digest: Seq<u8>,
    ) -> bool {
        match self.upgrade_refusal(env, code@, digest) {
            Some(e) => r == Err::<DeployerDispatch, _>(e) && after == self,
            None => {
                &&& r == Ok::<_, DeployerError>(
                    DeployerDispatch::DeployAndMigrate {
                        account: env.current,
                        code,
                        reserved_tgas: DEPLOY_AND_MIGRATE_TGAS,
                    },
                )
                &&& after == (ImplDeployer {
                    approved_upgrade_hash: None,
                    approved_upgrade_at: None,
                    ..self
                })
            },
        }
    }

    /// Replaces the deployer's own code by the approved one, once its delay has passed.
    pub fn upgrade_self(&mut self, env: &Env, code: Vec<u8>) -> (r: Result<DeployerDispatch, DeployerError>)
        ensures
            old(self).upgrade_answer(*final(self), r, *env, code, crate::common::sha256_of(code@)),
    {
        let digest = sha256(&code);
        self.upgrade_self_with_digest(env, code, digest)
    }

    /// [`ImplDeployer::upgrade_self`] for code whose digest is known.
    pub fn upgrade_self_with_digest(&mut self, env: &Env, code: Vec<u8>, digest: [u8; 32]) -> (r: Result<
        DeployerDispatch,
        DeployerError,
    >)
        ensures
            old(self).upgrade_answer(*final(self), r, *env, code, digest@),
    {
        assert_one_yocto(env)?;
        self.assert_council(env)?;
        if code.len() == 0 {
            return Err(DeployerError::EmptyCode);
        }
        let approved = match self.approved_upgrade_hash {
            Some(hash) => hash,
            None => {
                return Err(DeployerError::NoApprovedUpgrade);
            },
        };
        proof {
            if digest@ == approved@ {
                assert(digest =~= approved);
            }
        }
        if !same_digest(&digest, &approved) {
            return Err(DeployerError::UpgradeHashMismatch);
        }
        let approved_at: u64 = match self.approved_upgrade_at {
            Some(at) => at,
            None => {
                return Err(DeployerError::NoApprovedUpgrade);
            },
        };
        if env.now < approved_at.saturating_add(self.approval_delay_ns) {
            return Err(DeployerError::UpgradeTooYoung);
        }
        self.approved_upgrade_hash = None;
        self.approved_upgrade_at = None;
        Ok(
            DeployerDispatch::DeployAndMigrate {
                account: env.current,
                code,
                reserved_tgas: DEPLOY_AND_MIGRATE_TGAS,
            },
        )
    }

    /// Names the council that may take over, and starts the delay anew.
    pub fn approve_council_rotation(&mut self, env: &Env, new_council: AccountId) -> (r: Result<
        DeployerEvent,
        DeployerError,
    >)
        ensures
            ({
                let refusal = if council_refusal(*env, old(self).council) is Some {
                    council_refusal(*env, old(self).council)
                } else if new_council == old(self).council {
                    Some(DeployerError::CouncilUnchanged)
                } else if new_council == env.current {
                    Some(DeployerError::CouncilIsSelf)
                } else {
                    None
                };
                match refusal {
                    Some(e) => r == Err::<DeployerEvent, _>(e) && *final(self) == *old(self),
                    None => {
                        &&& r == Ok::<_, DeployerError>(
                            DeployerEvent::CouncilRotationApproved { new_council, by: env.predecessor },
                        )
                        &&& *final(self) == (ImplDeployer {
                            pending_council: Some(new_council),
                            pending_council_at: Some(env.now),
                            ..*old(self)
                        })
                    },
                }
            }),
    {
        assert_one_yocto(env)?;
        self.assert_council(env)?;
        if new_council == self.council {
            return Err(DeployerError::CouncilUnchanged);
        }
        if new_council == env.current {
            return Err(DeployerError::CouncilIsSelf);
        }
        self.pending_council = Some(new_council);
        self.pending_council_at = Some(env.now);
        Ok(DeployerEvent::CouncilRotationApproved { new_council, by: env.predecessor })
    }

    pub fn cancel_council_rotation(&mut self, env: &Env) -> (r: Result<DeployerEvent, DeployerError>)
        ensures
            ({
                let refusal = if council_refusal(*env, old(self).council) is Some {
                    council_refusal(*env, old(self).council)
                } else if old(self).pending_council is None {
                    Some(DeployerError::NoCouncilRotationPending)
                } else {
                    None
                };
                match refusal {
                    Some(e) => r == Err::<DeployerEvent, _>(e) && *final(self) == *old(self),
                    None => {
                        &&& r == Ok::<_, DeployerError>(
                            DeployerEvent::CouncilRotationCancelled { by: env.predecessor },
                        )
                        &&& *final(self) == (ImplDeployer {
                            pending_council: None,
                            pending_council_at: None,
                            ..*old(self)
                        })
                    },
                }
            }),
    {
        assert_one_yocto(env)?;
        self.assert_council(env)?;
        if self.pending_council.is_none() {
            return Err(DeployerError::NoCouncilRotationPending);
        }
        self.pending_council = None;
        self.pending_council_at = None;
        Ok(DeployerEvent::CouncilRotationCancelled { by: env.predecessor })
    }

    /// Why a pending rotation may not be committed now, if it may not.
    pub open spec fn rotation_refusal(self, env: Env) -> Option<DeployerError> {
        if env.deposit != 1 {
            Some(DeployerError::RequiresOneYocto)
        } else if self.pending_council is None {
            Some(DeployerError::NoCouncilRotationPending)
        } else if env.predecessor != self.pending_council->0 {
            Some(DeployerError::OnlyPendingCouncil)
        } else if self.pending_council_at is None {
            Some(DeployerError::NoCouncilRotationPending)
        } else if env.now < crate::common::capped_u64(
            self.pending_council_at->0 + DEFAULT_APPROVAL_DELAY_NS,
        ) {
            Some(DeployerError::CouncilRotationTooYoung)
        } else {
            None
        }
    }

    /// The incoming council takes over. The delay is the default one, whatever the delay of
    /// approvals is.
    pub fn commit_council_rotation(&mut self, env: &Env) -> (r: Result<DeployerEvent, DeployerError>)
        ensures
            match old(self).rotation_refusal(*env) {
                Some(e) => r == Err::<DeployerEvent, _>(e) && *final(self) == *old(self),
                None => {
                    &&& r == Ok::<_, DeployerError>(
                        DeployerEvent::CouncilRotated {
                            new_council: env.predecessor,
                            by: env.predecessor,
                        },
                    )
                    &&& *final(self) == (ImplDeployer {
                        council: env.predecessor,
                        pending_council: None,
                        pending_council_at: None,
                        ..*old(self)
                    })
                },
            },
    {
        assert_one_yocto(env)?;
        let pending = match self.pending_council {
            Some(pending) => pending,
            None => {
                return Err(DeployerError::NoCouncilRotationPending);
            },
        };
        if env.predecessor != pending {
            return Err(DeployerError::OnlyPendingCouncil);
        }
        let approved_at: u64 = match self.pending_council_at {
            Some(at) => at,
            None => {
                return Err(DeployerError::NoCouncilRotationPending);
            },
        };
        if env.now < approved_at.saturating_add(DEFAULT_APPROVAL_DELAY_NS) {
            return Err(DeployerError::CouncilRotationTooYoung);
        }
        self.council = pending;
        self.pending_council = None;
        self.pending_council_at = None;
        Ok(DeployerEvent::CouncilRotated { new_council: pending, by: env.predecessor })
    }

    pub fn pending_council(&self) -> (r: Option<(AccountId, u64)>)
        ensures
            r == (if self.pending_council is Some && self.pending_council_at is Some {
                Some((self.pending_council->0, self.pending_council_at->0))
            } else {
                None
            }),
    {
        match self.pending_council {
            Some(council) => match self.pending_council_at {
                Some(at) => Some((council, at)),
                None => None,
            },
            None => None,
        }
    }

    /// Deletes one of the account's keys, once the account has shown that it can be upgraded without
    /// one.
    pub fn gd_delete_key(&mut self, env: &Env, public_key: String) -> (r: Result<
        DeployerDispatch,
        DeployerError,
    >)
        ensures
            *final(self) == *old(self),
            ({
                let refusal = if council_refusal(*env, old(self).council) is Some {
                    council_refusal(*env, old(self).council)
                } else if !old(self).upgrade_proven {
                    Some(DeployerError::UpgradeNotProven)
                } else {
                    None
                };
                match refusal {
                    Some(e) => r == Err::<DeployerDispatch, _>(e),
                    None => r == Ok::<_, DeployerError>(
                        DeployerDispatch::DeleteKey {
                            account: env.current,
                            public_key,
                            by: env.predecessor,
                            callback_tgas: SEAL_CB_TGAS,
                        },
                    ),
                }
            }),
    {
        assert_one_yocto(env)?;
        self.assert_council(env)?;
        if !self.upgrade_proven {
            return Err(DeployerError::UpgradeNotProven);
        }
        Ok(
            DeployerDispatch::DeleteKey {
                account: env.current,
                public_key,
                by: env.predecessor,
                callback_tgas: SEAL_CB_TGAS,
            },
        )
    }

    pub fn gd_on_key_deleted(&mut self, public_key: String, by: AccountId, success: bool) -> (r: (
        bool,
        DeployerEvent,
    ))
        ensures
            *final(self) == *old(self),
            r.0 == success,
            r.1 == (if success {
                DeployerEvent::KeyDeleted { public_key, by }
            } else {
                DeployerEvent::KeyDeleteFailed { public_key, by }
            }),
    {
        if !success {
            return (false, DeployerEvent::KeyDeleteFailed { public_key, by });
        }
        (true, DeployerEvent::KeyDeleted { public_key, by })
    }

    pub fn approved_upgrade_hash(&self) -> (r: Option<[u8; 32]>)
        ensures
            r == self.approved_upgrade_hash,
    {
        self.approved_upgrade_hash
    }

    pub fn approved_upgrade_at(&self) -> (r: Option<u64>)
        ensures
            r == self.approved_upgrade_at,
    {
        self.approved_upgrade_at
    }

    pub fn current_hash(&self) -> (r: Option<[u8; 32]>)
        ensures
            r == self.current_hash,
    {
        self.current_hash
    }

    pub fn approved_hash(&self) -> (r: Option<[u8; 32]>)
        ensures
            r == self.approved_hash,
    {
        self.approved_hash
    }

    pub fn approved_at(&self) -> (r: Option<u64>)
        ensures
            r == self.approved_at,
    {
        self.approved_at
    }

    pub fn approval_delay_ns(&self) -> (r: u64)
        ensures
            r == self.approval_delay_ns,
    {
        self.approval_delay_ns
    }

    pub fn deploy_locked_until(&self) -> (r: u64)
        ensures
            r == self.deploy_locked_until,
    {
        self.deploy_locked_until
    }

    pub fn config(&self) -> (r: DeployerView)
        ensures
            r == (DeployerView {
                council: self.council,
                approval_delay_ns: self.approval_delay_ns,
                production_delay: self.approval_delay_ns >= DEFAULT_APPROVAL_DELAY_NS,
            }),
    {
        DeployerView {
            council: self.council,
            approval_delay_ns: self.approval_delay_ns,
            production_delay: self.approval_delay_ns >= DEFAULT_APPROVAL_DELAY_NS,
        }
    }

    /// What publishing code of `size` bytes costs at the least.
    pub fn deploy_cost(&self, size: u64) -> (r: u128)
        requires
            size * GLOBAL_CODE_COST_PER_BYTE <= u128::MAX,
        ensures
            r == size * GLOBAL_CODE_COST_PER_BYTE,
    {
        size as u128 * GLOBAL_CODE_COST_PER_BYTE
    }
}

/// Whatever is published bears the digest that the council approved, its delay has passed since,
/// and the payer has covered its cost.
pub proof fn only_approved_code_is_published(
    before: ImplDeployer,
    after: ImplDeployer,
    r: Result<DeployerDispatch, DeployerError>,
    env: Env,
    code: Vec<u8>,
    digest: Seq<u8>,
)
    requires
        before.publish_answer(after, r, env, code, digest),
        r is Ok,
    ensures
        before.approved_hash is Some,
        before.approved_hash->0@ == digest,
        before.approved_at is Some,
        env.now >= crate::common::capped_u64(before.approved_at->0 + before.approval_delay_ns),
        env.deposit >= code@.len() * GLOBAL_CODE_COST_PER_BYTE,
{
}

/// While a publish is in flight no other starts, and one that never reports back holds the others
/// back for the lock's life time and no longer.
pub proof fn a_publish_in_flight_holds_back_the_next(
    before: ImplDeployer,
    after: ImplDeployer,
    r: Result<DeployerDispatch, DeployerError>,
    env: Env,
    code: Vec<u8>,
    digest: Seq<u8>,
    later: Env,
    next: Seq<u8>,
    next_digest: Seq<u8>,
)
    requires
        before.publish_answer(after, r, env, code, digest),
        r is Ok,
    ensures
        later.now < env.now + DEPLOY_LOCK_TTL_NS && later.now < u64::MAX ==> after.publish_refusal(
            later,
            next,
            next_digest,
        ) == Some(DeployerError::DeployInFlight),
        later.now >= env.now + DEPLOY_LOCK_TTL_NS ==> after.publish_refusal(later, next, next_digest)
            != Some(DeployerError::DeployInFlight),
{
}

/// The council changes only into the account that the council named, by that account's own call, and
/// not before the delay.
pub proof fn council_changes_only_by_its_heir(before: ImplDeployer, env: Env)
    requires
        before.rotation_refusal(env) is None,
    ensures
        before.pending_council == Some(env.predecessor),
        before.pending_council_at is Some,
        env.now >= crate::common::capped_u64(before.pending_council_at->0 + DEFAULT_APPROVAL_DELAY_NS),
{
}

} // verus!
