//! Publishing wallet code.
use vstd::prelude::*;

use crate::account::AccountId;
use crate::common::{capped_u64, PromiseError};
use crate::deployer::{
    DeployOutcome, DeployerDispatch, DeployerError, DeployerEvent, DeployerReader, DeployerView, ImplDeployer,
    StoredDeployer,
};
use crate::host::Env;

verus! {

/// The council itself calls, with one yocto attached.
pub open spec fn by_council(d: ImplDeployer, env: Env) -> bool {
    env.deposit == 1 && env.predecessor == d.council
}

/// Why a call is not the council's.
pub open spec fn not_council_because(e: DeployerError, d: ImplDeployer, env: Env) -> bool {
    ||| e is RequiresOneYocto && env.deposit != 1
    ||| e is OnlyCouncil && env.predecessor != d.council
}

/// A deployer is set up exactly if its council is another account. Its delay is the one given, or else two days; nothing is approved,
/// published or proven yet.
pub proof fn a_deployer_starts_with_nothing_approved(env: Env, council: AccountId, delay: Option<u64>, r: Result<ImplDeployer, DeployerError>)
    requires
        call_ensures(ImplDeployer::new, (&env, council, delay), r),
    ensures
        r is Ok <==> council != env.current,
        r matches Err(e) ==> e is CouncilIsSelf,
        r matches Ok(d) ==> {
            &&& d.council == council
            &&& delay is Some ==> d.approval_delay_ns == delay->0
            &&& delay is None ==> d.approval_delay_ns == 172_800_000_000_000
            &&& d.current_hash is None
            &&& d.approved_hash is None
            &&& d.approved_at is None
            &&& d.deploy_locked_until == 0
            &&& d.approved_upgrade_hash is None
            &&& d.approved_upgrade_at is None
            &&& !d.upgrade_proven
            &&& d.pending_council is None
            &&& d.pending_council_at is None
            &&& d.state_version == 2
        },
{
}

/// The council approves wallet code, and the deployer's own next code, by digest, from now on; one approval does not touch the other.
pub proof fn the_council_approves_code(
    wallet: &mut ImplDeployer,
    own: &mut ImplDeployer,
    env: Env,
    digest: [u8; 32],
    r: Result<DeployerEvent, DeployerError>,
    s: Result<DeployerEvent, DeployerError>,
)
    requires
        call_ensures(ImplDeployer::gd_approve, (wallet, &env, digest), r),
        call_ensures(ImplDeployer::approve_self_upgrade, (own, &env, digest), s),
    ensures
        r is Ok <==> by_council(*old(wallet), env),
        s is Ok <==> by_council(*old(own), env),
        r is Ok ==> *final(wallet) == (ImplDeployer {
            approved_hash: Some(digest),
            approved_at: Some(env.now),
            ..*old(wallet)
        }),
        s is Ok ==> *final(own) == (ImplDeployer {
            approved_upgrade_hash: Some(digest),
            approved_upgrade_at: Some(env.now),
            ..*old(own)
        }),
        r matches Ok(e) ==> e == (DeployerEvent::HashApproved { hash: digest, by: env.predecessor }),
        s matches Ok(e) ==> e == (DeployerEvent::UpgradeApproved { hash: digest, by: env.predecessor }),
        r matches Err(e) ==> not_council_because(e, *old(wallet), env) && *final(wallet) == *old(wallet),
        s matches Err(e) ==> not_council_because(e, *old(own), env) && *final(own) == *old(own),
{
}

/// What publishing a code of that digest comes to.
pub open spec fn code_is_published(
    after: ImplDeployer,
    d: ImplDeployer,
    env: Env,
    code: Vec<u8>,
    digest: Seq<u8>,
    r: Result<DeployerDispatch, DeployerError>,
) -> bool {
    let cost = code@.len() * 100_000_000_000_000_000_000;
    match r {
        Ok(sent) => {
            &&& env.now >= d.deploy_locked_until
            &&& code@.len() > 0
            &&& d.approved_hash is Some
            &&& d.approved_hash->0@ == digest
            &&& d.approved_at is Some
            &&& env.now >= capped_u64(d.approved_at->0 + d.approval_delay_ns)
            &&& cost <= env.deposit
            &&& sent matches DeployerDispatch::Publish { account, code: c, hash, size, payer, attached, balance_before, .. }
            &&& account == env.current
            &&& c == code
            &&& hash == d.approved_hash->0
            &&& size == code@.len() as u64
            &&& payer == env.predecessor
            &&& attached == env.deposit
            &&& balance_before == env.balance
            &&& after == (ImplDeployer { deploy_locked_until: capped_u64(env.now + 600_000_000_000), ..d })
        },
        Err(e) => {
            &&& after == d
            &&& {
                ||| e is DeployInFlight && env.now < d.deploy_locked_until
                ||| e is EmptyCode && code@.len() == 0
                ||| e is NoApprovedHash && (d.approved_hash is None || d.approved_at is None)
                ||| e is HashMismatch && d.approved_hash->0@ != digest
                ||| e is ApprovalTooYoung && env.now < capped_u64(d.approved_at->0 + d.approval_delay_ns)
                ||| e is CostOverflow && cost > u128::MAX
                ||| e is InsufficientDeposit && env.deposit < cost
            }
        },
    }
}

/// Anyone publishes code exactly if no other publish is in flight, there is some, it bears the approved digest, the delay has passed since the
/// approval, and the deposit covers a ten-thousandth of a NEAR a byte. The next publish then waits for ten minutes at the most.
pub proof fn approved_code_is_published_after_its_delay(
    deployer: &mut ImplDeployer,
    hashed: &mut ImplDeployer,
    env: Env,
    code: Vec<u8>,
    digest: [u8; 32],
    r: Result<DeployerDispatch, DeployerError>,
    s: Result<DeployerDispatch, DeployerError>,
)
    requires
        call_ensures(ImplDeployer::gd_deploy_with_digest, (deployer, &env, code, digest), r),
        call_ensures(ImplDeployer::gd_deploy, (hashed, &env, code), s),
    ensures
        code_is_published(*final(deployer), *old(deployer), env, code, digest@, r),
        code_is_published(*final(hashed), *old(hashed), env, code, crate::common::sha256_of(code@), s),
{
}

/// A publish that went through is the current code, spends its approval, frees the way for the next and gives back what it did not cost; one
/// that failed keeps its approval, frees the way and gives all of it back.
pub proof fn a_publish_is_settled(
    deployer: &mut ImplDeployer,
    env: Env,
    hash: [u8; 32],
    size: u64,
    payer: AccountId,
    attached: u128,
    balance_before: u128,
    result: Result<(), PromiseError>,
    r: DeployOutcome,
)
    requires
        call_ensures(ImplDeployer::gd_on_deployed, (deployer, &env, hash, size, payer, attached, balance_before, result), r),
    ensures
        ({
            let d = *old(deployer);
            let after = *final(deployer);
            let spent: int = if balance_before > env.balance {
                balance_before - env.balance
            } else {
                0
            };
            &&& r.published <==> result is Ok
            &&& result is Ok ==> {
                &&& after == (ImplDeployer {
                    current_hash: Some(hash),
                    approved_hash: None,
                    approved_at: None,
                    deploy_locked_until: 0,
                    ..d
                })
                &&& attached > spent ==> r.refund == Some((payer, (attached - spent) as u128))
                &&& attached <= spent ==> r.refund is None
                &&& r.event == (DeployerEvent::ImplDeployed { hash, size })
            }
            &&& result is Err ==> {
                &&& after == (ImplDeployer { deploy_locked_until: 0, ..d })
                &&& r.refund == Some((payer, attached))
                &&& r.event == (DeployerEvent::DeployFailed { hash })
            }
        }),
{
}

/// What replacing the deployer's own code by one of that digest comes to.
pub open spec fn own_code_is_replaced(
    after: ImplDeployer,
    d: ImplDeployer,
    env: Env,
    code: Vec<u8>,
    digest: Seq<u8>,
    r: Result<DeployerDispatch, DeployerError>,
) -> bool {
    match r {
        Ok(sent) => {
            &&& by_council(d, env)
            &&& code@.len() > 0
            &&& d.approved_upgrade_hash is Some
            &&& d.approved_upgrade_hash->0@ == digest
            &&& d.approved_upgrade_at is Some
            &&& env.now >= capped_u64(d.approved_upgrade_at->0 + d.approval_delay_ns)
            &&& sent == (DeployerDispatch::DeployAndMigrate { account: env.current, code, reserved_tgas: 60 })
            &&& after == (ImplDeployer { approved_upgrade_hash: None, approved_upgrade_at: None, ..d })
        },
        Err(e) => {
            &&& after == d
            &&& {
                ||| not_council_because(e, d, env)
                ||| e is EmptyCode && code@.len() == 0
                ||| e is NoApprovedUpgrade && (d.approved_upgrade_hash is None || d.approved_upgrade_at is None)
                ||| e is UpgradeHashMismatch && d.approved_upgrade_hash->0@ != digest
                ||| e is UpgradeTooYoung && env.now < capped_u64(d.approved_upgrade_at->0 + d.approval_delay_ns)
            }
        },
    }
}

/// The council replaces the deployer's own code exactly by the approved one, once its delay has passed; the approval is spent.
pub proof fn the_deployer_is_replaced_after_its_delay(
    deployer: &mut ImplDeployer,
    hashed: &mut ImplDeployer,
    env: Env,
    code: Vec<u8>,
    digest: [u8; 32],
    r: Result<DeployerDispatch, DeployerError>,
    s: Result<DeployerDispatch, DeployerError>,
)
    requires
        call_ensures(ImplDeployer::upgrade_self_with_digest, (deployer, &env, code, digest), r),
        call_ensures(ImplDeployer::upgrade_self, (hashed, &env, code), s),
    ensures
        own_code_is_replaced(*final(deployer), *old(deployer), env, code, digest@, r),
        own_code_is_replaced(*final(hashed), *old(hashed), env, code, crate::common::sha256_of(code@), s),
{
}

/// The council names an heir, another account than itself and than the deployer, and may take that back; the heir takes over by its own call with
/// one yocto, two days after it was named, whatever the delay of approvals is.
pub proof fn the_council_passes_on(
    naming: &mut ImplDeployer,
    cancelling: &mut ImplDeployer,
    taking: &mut ImplDeployer,
    env: Env,
    heir: AccountId,
    r: Result<DeployerEvent, DeployerError>,
    s: Result<DeployerEvent, DeployerError>,
    t: Result<DeployerEvent, DeployerError>,
)
    requires
        call_ensures(ImplDeployer::approve_council_rotation, (naming, &env, heir), r),
        call_ensures(ImplDeployer::cancel_council_rotation, (cancelling, &env), s),
        call_ensures(ImplDeployer::commit_council_rotation, (taking, &env), t),
    ensures
        ({
            let d = *old(naming);
            let after = *final(naming);
            match r {
                Ok(_) => {
                    &&& by_council(d, env)
                    &&& heir != d.council
                    &&& heir != env.current
                    &&& after == (ImplDeployer {
                        pending_council: Some(heir),
                        pending_council_at: Some(env.now),
                        ..d
                    })
                },
                Err(e) => {
                    &&& after == d
                    &&& {
                        ||| not_council_because(e, d, env)
                        ||| e is CouncilUnchanged && heir == d.council
                        ||| e is CouncilIsSelf && heir == env.current
                    }
                },
            }
        }),
        ({
            let d = *old(cancelling);
            let after = *final(cancelling);
            match s {
                Ok(_) => {
                    &&& by_council(d, env)
                    &&& d.pending_council is Some
                    &&& after == (ImplDeployer { pending_council: None, pending_council_at: None, ..d })
                },
                Err(e) => {
                    &&& after == d
                    &&& {
                        ||| not_council_because(e, d, env)
                        ||| e is NoCouncilRotationPending && d.pending_council is None
                    }
                },
            }
        }),
        ({
            let d = *old(taking);
            let after = *final(taking);
            match t {
                Ok(_) => {
                    &&& env.deposit == 1
                    &&& d.pending_council == Some(env.predecessor)
                    &&& d.pending_council_at is Some
                    &&& env.now >= capped_u64(d.pending_council_at->0 + 172_800_000_000_000)
                    &&& after == (ImplDeployer {
                        council: env.predecessor,
                        pending_council: None,
                        pending_council_at: None,
                        ..d
                    })
                },
                Err(e) => {
                    &&& after == d
                    &&& {
                        ||| e is RequiresOneYocto && env.deposit != 1
                        ||| e is NoCouncilRotationPending && (d.pending_council is None || d.pending_council_at is None)
                        ||| e is OnlyPendingCouncil && d.pending_council != Some(env.predecessor)
                        ||| e is CouncilRotationTooYoung && env.now < capped_u64(
                            d.pending_council_at->0 + 172_800_000_000_000,
                        )
                    }
                },
            }
        }),
{
}

/// The council deletes a key exactly once an upgrade has run, and only a deletion that went through is reported as one.
pub proof fn the_council_deletes_a_key_of_a_proven_deployer(
    deployer: &mut ImplDeployer,
    settled: &mut ImplDeployer,
    env: Env,
    public_key: String,
    by: AccountId,
    success: bool,
    r: Result<DeployerDispatch, DeployerError>,
    s: (bool, DeployerEvent),
)
    requires
        call_ensures(ImplDeployer::gd_delete_key, (deployer, &env, public_key), r),
        call_ensures(ImplDeployer::gd_on_key_deleted, (settled, public_key, by, success), s),
    ensures
        *final(deployer) == *old(deployer),
        *final(settled) == *old(settled),
        r is Ok <==> by_council(*old(deployer), env) && old(deployer).upgrade_proven,
        r matches Ok(sent) ==> {
            &&& sent matches DeployerDispatch::DeleteKey { account, public_key: key, by: who, .. }
            &&& account == env.current
            &&& key == public_key
            &&& who == env.predecessor
        },
        r matches Err(e) ==> not_council_because(e, *old(deployer), env) || e is UpgradeNotProven && !old(
            deployer,
        ).upgrade_proven,
        s.0 == success,
        success ==> s.1 == (DeployerEvent::KeyDeleted { public_key, by }),
        !success ==> s.1 == (DeployerEvent::KeyDeleteFailed { public_key, by }),
{
}

/// A state is read by the version that it starts with: the second as it is, the first by its own reader, and no other.
pub proof fn a_deployer_is_read_by_its_version(version: Option<u16>, r: Result<DeployerReader, DeployerError>)
    requires
        call_ensures(crate::deployer::reader_for, (version,), r),
    ensures
        version == Some(2u16) ==> r == Ok::<_, DeployerError>(DeployerReader::Current),
        version == Some(1u16) ==> r == Ok::<_, DeployerError>(DeployerReader::V1),
        version is None ==> r == Err::<DeployerReader, _>(DeployerError::NoState),
        version is Some && version->0 != 1 && version->0 != 2 ==> r == Err::<DeployerReader, _>(
            DeployerError::StateVersionUnknown,
        ),
{
}

/// A migrated deployer keeps its council, its current code, its delay and the approval of its own next code; a pending publish and the approval of
/// wallet code are dropped, and that it migrated proves that it can be upgraded.
pub proof fn a_migrated_deployer_keeps_its_council_and_code(stored: StoredDeployer, r: (ImplDeployer, DeployerEvent))
    requires
        call_ensures(ImplDeployer::migrate, (stored,), r),
    ensures
        r.1 is SelfUpgraded,
        r.0.upgrade_proven,
        r.0.approved_hash is None && r.0.approved_at is None,
        r.0.deploy_locked_until == 0,
        stored matches StoredDeployer::V1(v1) ==> {
            &&& r.0.council == v1.council
            &&& r.0.current_hash == v1.current_hash
            &&& r.0.approval_delay_ns == v1.approval_delay_ns
            &&& r.0.approved_upgrade_hash == v1.approved_upgrade_hash
            &&& r.0.approved_upgrade_at == v1.approved_upgrade_at
            &&& r.0.pending_council is None
            &&& r.0.pending_council_at is None
            &&& r.0.state_version == 2
        },
        stored matches StoredDeployer::Current(d) ==> r.0 == (ImplDeployer {
            approved_hash: None,
            approved_at: None,
            deploy_locked_until: 0,
            upgrade_proven: true,
            ..d
        }),
{
}

/// The deployer shows its state as it stands, and a delay of two days or more as production grade.
pub proof fn a_deployer_shows_its_state(
    d: ImplDeployer,
    size: u64,
    current: Option<[u8; 32]>,
    approved: Option<[u8; 32]>,
    at: Option<u64>,
    delay: u64,
    locked: u64,
    own: Option<[u8; 32]>,
    own_at: Option<u64>,
    heir: Option<(AccountId, u64)>,
    config: DeployerView,
    cost: u128,
)
    requires
        call_ensures(ImplDeployer::current_hash, (&d,), current),
        call_ensures(ImplDeployer::approved_hash, (&d,), approved),
        call_ensures(ImplDeployer::approved_at, (&d,), at),
        call_ensures(ImplDeployer::approval_delay_ns, (&d,), delay),
        call_ensures(ImplDeployer::deploy_locked_until, (&d,), locked),
        call_ensures(ImplDeployer::approved_upgrade_hash, (&d,), own),
        call_ensures(ImplDeployer::approved_upgrade_at, (&d,), own_at),
        call_ensures(ImplDeployer::pending_council, (&d,), heir),
        call_ensures(ImplDeployer::config, (&d,), config),
        size * 100_000_000_000_000_000_000 <= u128::MAX,
        call_ensures(ImplDeployer::deploy_cost, (&d, size), cost),
    ensures
        current == d.current_hash,
        approved == d.approved_hash,
        at == d.approved_at,
        delay == d.approval_delay_ns,
        locked == d.deploy_locked_until,
        own == d.approved_upgrade_hash,
        own_at == d.approved_upgrade_at,
        heir is Some <==> d.pending_council is Some && d.pending_council_at is Some,
        heir matches Some((account, since)) ==> d.pending_council == Some(account) && d.pending_council_at == Some(since),
        config.council == d.council,
        config.approval_delay_ns == d.approval_delay_ns,
        config.production_delay <==> d.approval_delay_ns >= 172_800_000_000_000,
        cost == size * 100_000_000_000_000_000_000,
{
}

} // verus!
