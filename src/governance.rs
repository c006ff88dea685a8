use vstd::prelude::*;
use vstd::string::StringExecFns;
use crate::error::ErrorCode;
use crate::market::{byte_len, text_len, transition_allowed, transition_error, check_transition, ModerationFlag, PredictionMarket, MIN_QUESTION_LEN, MAX_QUESTION_LEN};
use crate::types::{AccountKey, EmergencyActionType, MarketStatus, ModerationType};

verus! {

/// Whether `k` is among `keys` (compared by bytes).
pub open spec fn has_key(keys: Seq<AccountKey>, k: AccountKey) -> bool {
    exists|i: int| 0 <= i < keys.len() && (#[trigger] keys[i]).bytes@ == k.bytes@
}

/// Whether no key occurs twice in `keys`.
pub open spec fn keys_distinct(keys: Seq<AccountKey>) -> bool {
    forall|i: int, j: int|
        0 <= i < keys.len() && 0 <= j < keys.len() && i != j ==> (#[trigger] keys[i]).bytes@
            != (#[trigger] keys[j]).bytes@
}

pub fn contains_key(keys: &Vec<AccountKey>, k: &AccountKey) -> (r: bool)
    ensures
        r == has_key(keys@, *k),
{
    let mut i: usize = 0;
    while i < keys.len()
        invariant
            0 <= i <= keys@.len(),
            forall|j: int| 0 <= j < i ==> (#[trigger] keys@[j]).bytes@ != k.bytes@,
        decreases keys@.len() - i,
    {
        if keys[i].same_as(k) {
            return true;
        }
        i = i + 1;
    }
    false
}

/// An outside organisation that governance trusts.
pub struct TrustedEntity {
    pub pubkey: AccountKey,
    pub name: String,
    pub organization: String,
    pub verified: bool,
}

/// The signers allowed to approve emergency actions and how many must.
pub struct MultisigGovernance {
    pub authority: AccountKey,
    pub signers: Vec<AccountKey>,
    pub threshold: u8,
    pub trusted_entities: Vec<TrustedEntity>,
    pub emergency_pause_authority: bool,
    pub created_at: i64,
}

/// An emergency action on one market, collecting distinct approvals until
/// the threshold is met, when it takes effect once.
pub struct EmergencyAction {
    pub market: AccountKey,
    pub action_type: EmergencyActionType,
    pub reason: String,
    pub initiator: AccountKey,
    pub created_at: i64,
    pub signatures: Vec<AccountKey>,
    pub executed: bool,
}

impl EmergencyAction {
    /// Approvals are distinct, and an executed action has met the threshold.
    pub open spec fn wf(&self, gov: MultisigGovernance) -> bool {
        &&& keys_distinct(self.signatures@)
        &&& self.executed ==> self.signatures@.len() >= gov.threshold
    }
}

/// Whether no key occurs twice in `keys`.
pub fn all_distinct(keys: &Vec<AccountKey>) -> (r: bool)
    ensures
        r == keys_distinct(keys@),
{
    let mut i: usize = 0;
    while i < keys.len()
        invariant
            0 <= i <= keys@.len(),
            forall|a: int, b: int|
                0 <= a < i && 0 <= b < keys@.len() && a != b ==> (#[trigger] keys@[a]).bytes@
                    != (#[trigger] keys@[b]).bytes@,
        decreases keys@.len() - i,
    {
        let mut j: usize = 0;
        while j < keys.len()
            invariant
                0 <= i < keys@.len(),
                0 <= j <= keys@.len(),
                forall|a: int, b: int|
                    0 <= a < i && 0 <= b < keys@.len() && a != b ==> (#[trigger] keys@[a]).bytes@
                        != (#[trigger] keys@[b]).bytes@,
                forall|b: int| 0 <= b < j && b != i ==> keys@[i as int].bytes@ != (#[trigger] keys@[b]).bytes@,
            decreases keys@.len() - j,
        {
            if j != i && keys[i].same_as(&keys[j]) {
                return false;
            }
            j = j + 1;
        }
        i = i + 1;
    }
    true
}

impl EmergencyAction {
    /// Whether the action's invariant holds under `gov`.
    pub fn is_well_formed(&self, gov: &MultisigGovernance) -> (r: bool)
        ensures
            r == self.wf(*gov),
    {
        all_distinct(&self.signatures) && (!self.executed || self.signatures.len() as u128 >= gov.threshold as u128)
    }
}

/// The status an action forces on its market, for the supported actions.
pub open spec fn action_target(t: EmergencyActionType) -> Option<MarketStatus> {
    match t {
        EmergencyActionType::PauseMarket => Some(MarketStatus::Paused),
        EmergencyActionType::BlacklistMarket => Some(MarketStatus::Blacklisted),
        _ => None,
    }
}

/// The text of the moderation flag that an emergency pause records.
pub open spec fn pause_reason(reason: Seq<char>) -> Seq<char> {
    "Emergency pause: "@ + reason
}

/// Whether `f` is the legal flag that a pause by `signer` at `now` records.
pub open spec fn is_pause_flag(f: ModerationFlag, reason: Seq<char>, signer: AccountKey, now: i64) -> bool {
    &&& f.flag_type == ModerationType::Legal
    &&& f.reason@ == pause_reason(reason)
    &&& f.flagged_by == signer
    &&& f.flagged_at == now
    &&& !f.resolved
    &&& f.resolution is None
}

/// Whether `after` is `m` once an action takes effect: the market moves to
/// the target status, a pause also records a legal moderation flag with the
/// action's reason, and nothing else changes.
pub open spec fn action_applied(
    m: PredictionMarket,
    after: PredictionMarket,
    t: EmergencyActionType,
    reason: String,
    signer: AccountKey,
    now: i64,
) -> bool {
    &&& after.status == action_target(t)->0
    &&& if t == EmergencyActionType::PauseMarket {
        &&& after.moderation_flags@.len() == m.moderation_flags@.len() + 1
        &&& after.moderation_flags@.drop_last() == m.moderation_flags@
        &&& is_pause_flag(after.moderation_flags@.last(), reason@, signer, now)
    } else {
        after.moderation_flags@ == m.moderation_flags@
    }
    &&& after == (PredictionMarket {
        status: after.status,
        moderation_flags: after.moderation_flags,
        ..m
    })
}

fn apply_action(market: &mut PredictionMarket, t: EmergencyActionType, reason: &String, signer: AccountKey, now: i64)
    requires
        action_target(t) is Some,
    ensures
        action_applied(*old(market), *final(market), t, *reason, signer, now),
{
    match t {
        EmergencyActionType::PauseMarket => {
            market.status = MarketStatus::Paused;
            let text = String::from_str("Emergency pause: ").concat(reason.as_str());
            let ghost before = market.moderation_flags@;
            market.moderation_flags.push(
                ModerationFlag {
                    flag_type: ModerationType::Legal,
                    reason: text,
                    flagged_by: signer,
                    flagged_at: now,
                    resolved: false,
                    resolution: None,
                },
            );
            assert(market.moderation_flags@.drop_last() =~= before);
        },
        _ => {
            market.status = MarketStatus::Blacklisted;
        },
    }
}

} // verus!

verus! {

/// Whether one more approval, on top of `count`, meets the threshold.
pub open spec fn reaches_threshold(count: int, threshold: u8) -> bool {
    count + 1 >= threshold
}

pub open spec fn sign_error(
    gov: MultisigGovernance,
    action: EmergencyAction,
    m: PredictionMarket,
    signer: AccountKey,
) -> Option<ErrorCode> {
    let fires = !action.executed && reaches_threshold(action.signatures@.len() as int, gov.threshold);
    if !gov.emergency_pause_authority {
        Some(ErrorCode::UnauthorizedEmergencyAction)
    } else if !has_key(gov.signers@, signer) {
        Some(ErrorCode::UnauthorizedSigner)
    } else if has_key(action.signatures@, signer) {
        None
    } else if fires && action_target(action.action_type) is None {
        Some(ErrorCode::InvalidInputParameters)
    } else if fires && !transition_allowed(m.status, action_target(action.action_type)->0) {
        transition_error(m.status, action_target(action.action_type)->0)
    } else {
        None
    }
}

/// Records `signer`'s approval of an emergency action on `market`. A signer
/// who already approved changes nothing. The approval that first meets the
/// threshold applies the action's effect, at once and only that time; the
/// result says whether this call did.
pub fn sign_emergency_action(
    gov: &MultisigGovernance,
    action: &mut EmergencyAction,
    market: &mut PredictionMarket,
    signer: AccountKey,
    now: i64,
) -> (r: Result<bool, ErrorCode>)
    requires
        old(action).wf(*gov),
        old(market).wf(),
    ensures
        final(action).wf(*gov),
        final(market).wf(),
        r is Ok <==> sign_error(*gov, *old(action), *old(market), signer) is None,
        r matches Err(e) ==> sign_error(*gov, *old(action), *old(market), signer) == Some(e),
        r is Ok && has_key(old(action).signatures@, signer) ==> r == Ok::<bool, ErrorCode>(false),
        r is Err || has_key(old(action).signatures@, signer) ==> {
            &&& *final(action) == *old(action)
            &&& *final(market) == *old(market)
        },
        r is Ok && !has_key(old(action).signatures@, signer) ==> {
            let fires = !old(action).executed && reaches_threshold(
                old(action).signatures@.len() as int,
                gov.threshold,
            );
            &&& final(action).signatures@ == old(action).signatures@.push(signer)
            &&& final(action).executed == (old(action).executed || fires)
            &&& *final(action) == (EmergencyAction {
                signatures: final(action).signatures,
                executed: final(action).executed,
                ..*old(action)
            })
            &&& r == Ok::<bool, ErrorCode>(fires)
            &&& fires ==> action_applied(*old(market), *final(market), old(action).action_type, old(action).reason, signer, now)
            &&& !fires ==> *final(market) == *old(market)
        },
{
    if !gov.emergency_pause_authority {
        return Err(ErrorCode::UnauthorizedEmergencyAction);
    }
    if !contains_key(&gov.signers, &signer) {
        return Err(ErrorCode::UnauthorizedSigner);
    }
    if contains_key(&action.signatures, &signer) {
        return Ok(false);
    }
    let fires = !action.executed && action.signatures.len() as u128 + 1 >= gov.threshold as u128;
    if fires {
        let target = match action.action_type {
            EmergencyActionType::PauseMarket => MarketStatus::Paused,
            EmergencyActionType::BlacklistMarket => MarketStatus::Blacklisted,
            _ => {
                return Err(ErrorCode::InvalidInputParameters);
            },
        };
        check_transition(market.status, target)?;
        apply_action(market, action.action_type, &action.reason, signer, now);
    }
    let ghost before = action.signatures@;
    action.signatures.push(signer);
    proof {
        assert forall|i: int, j: int|
            0 <= i < action.signatures@.len() && 0 <= j < action.signatures@.len() && i != j implies (
            #[trigger] action.signatures@[i]).bytes@ != (#[trigger] action.signatures@[j]).bytes@ by {
            if i < before.len() && j < before.len() {
            } else if i == before.len() {
                assert(action.signatures@[j] == before[j]);
            } else {
                assert(action.signatures@[i] == before[i]);
            }
        }
    }
    if fires {
        action.executed = true;
    }
    Ok(fires)
}

pub open spec fn initiate_error(
    gov: MultisigGovernance,
    m: PredictionMarket,
    signer: AccountKey,
    t: EmergencyActionType,
    reason: Seq<char>,
) -> Option<ErrorCode> {
    if !gov.emergency_pause_authority {
        Some(ErrorCode::UnauthorizedEmergencyAction)
    } else if !has_key(gov.signers@, signer) {
        Some(ErrorCode::UnauthorizedSigner)
    } else if !(MIN_QUESTION_LEN < text_len(reason) <= MAX_QUESTION_LEN) {
        Some(ErrorCode::InvalidReasonLength)
    } else if action_target(t) is None {
        Some(ErrorCode::InvalidInputParameters)
    } else if t == EmergencyActionType::PauseMarket && m.status == MarketStatus::Paused {
        Some(ErrorCode::MarketAlreadyPaused)
    } else if reaches_threshold(0, gov.threshold) && !transition_allowed(m.status, action_target(t)->0) {
        transition_error(m.status, action_target(t)->0)
    } else {
        None
    }
}

/// Opens an emergency action of kind `action_type` on `market`, approved by
/// its initiator. The reason must be longer than 10 and at most 200 bytes.
/// Where one approval meets the threshold the action takes effect at once.
pub fn initiate_emergency_action(
    gov: &MultisigGovernance,
    market: &mut PredictionMarket,
    market_key: AccountKey,
    signer: AccountKey,
    action_type: EmergencyActionType,
    reason: String,
    now: i64,
) -> (r: Result<EmergencyAction, ErrorCode>)
    requires
        old(market).wf(),
    ensures
        final(market).wf(),
        r is Ok <==> initiate_error(*gov, *old(market), signer, action_type, reason@) is None,
        r matches Err(e) ==> {
            &&& initiate_error(*gov, *old(market), signer, action_type, reason@) == Some(e)
            &&& *final(market) == *old(market)
        },
        r matches Ok(a) ==> {
            let fires = reaches_threshold(0, gov.threshold);
            &&& a.wf(*gov)
            &&& a.market == market_key
            &&& a.action_type == action_type
            &&& a.reason == reason
            &&& a.initiator == signer
            &&& a.created_at == now
            &&& a.signatures@ == seq![signer]
            &&& a.executed == fires
            &&& fires ==> action_applied(*old(market), *final(market), action_type, reason, signer, now)
            &&& !fires ==> *final(market) == *old(market)
        },
{
    if !gov.emergency_pause_authority {
        return Err(ErrorCode::UnauthorizedEmergencyAction);
    }
    if !contains_key(&gov.signers, &signer) {
        return Err(ErrorCode::UnauthorizedSigner);
    }
    let len = byte_len(&reason);
    if !(MIN_QUESTION_LEN < len && len <= MAX_QUESTION_LEN) {
        return Err(ErrorCode::InvalidReasonLength);
    }
    let target = match action_type {
        EmergencyActionType::PauseMarket => MarketStatus::Paused,
        EmergencyActionType::BlacklistMarket => MarketStatus::Blacklisted,
        _ => {
            return Err(ErrorCode::InvalidInputParameters);
        },
    };
    if action_type == EmergencyActionType::PauseMarket && market.status == MarketStatus::Paused {
        return Err(ErrorCode::MarketAlreadyPaused);
    }
    let fires = 1 >= gov.threshold as u64;
    if fires {
        check_transition(market.status, target)?;
        apply_action(market, action_type, &reason, signer, now);
    }
    let mut signatures: Vec<AccountKey> = Vec::new();
    signatures.push(signer);
    assert(signatures@ =~= seq![signer]);
    Ok(
        EmergencyAction {
            market: market_key,
            action_type,
            reason,
            initiator: signer,
            created_at: now,
            signatures,
            executed: fires,
        },
    )
}

/// Opens an emergency pause of `market`; see `initiate_emergency_action`.
pub fn emergency_pause_market(
    gov: &MultisigGovernance,
    market: &mut PredictionMarket,
    market_key: AccountKey,
    signer: AccountKey,
    reason: String,
    now: i64,
) -> (r: Result<EmergencyAction, ErrorCode>)
    requires
        old(market).wf(),
    ensures
        final(market).wf(),
        r is Ok <==> initiate_error(*gov, *old(market), signer, EmergencyActionType::PauseMarket, reason@) is None,
        r matches Err(e) ==> {
            &&& initiate_error(*gov, *old(market), signer, EmergencyActionType::PauseMarket, reason@) == Some(e)
            &&& *final(market) == *old(market)
        },
        r matches Ok(a) ==> {
            let fires = reaches_threshold(0, gov.threshold);
            &&& a.wf(*gov)
            &&& a.market == market_key
            &&& a.action_type == EmergencyActionType::PauseMarket
            &&& a.reason == reason
            &&& a.initiator == signer
            &&& a.created_at == now
            &&& a.signatures@ == seq![signer]
            &&& a.executed == fires
            &&& fires ==> action_applied(*old(market), *final(market), EmergencyActionType::PauseMarket, reason, signer, now)
            &&& !fires ==> *final(market) == *old(market)
        },
{
    initiate_emergency_action(gov, market, market_key, signer, EmergencyActionType::PauseMarket, reason, now)
}

/// Approvals an emergency action needs under a fresh governance.
pub const DEFAULT_THRESHOLD: u8 = 5;

/// Governance as it starts: `authority` is the one signer, the threshold is
/// five approvals, and emergency pauses are enabled.
pub fn initialize_governance(authority: AccountKey, trusted_entities: Vec<TrustedEntity>, now: i64) -> (r:
    MultisigGovernance)
    ensures
        r.authority == authority,
        r.signers@ == seq![authority],
        r.threshold == DEFAULT_THRESHOLD,
        r.trusted_entities == trusted_entities,
        r.emergency_pause_authority,
        r.created_at == now,
{
    let mut signers: Vec<AccountKey> = Vec::new();
    signers.push(authority);
    assert(signers@ =~= seq![authority]);
    MultisigGovernance {
        authority,
        signers,
        threshold: DEFAULT_THRESHOLD,
        trusted_entities,
        emergency_pause_authority: true,
        created_at: now,
    }
}

} // verus!
