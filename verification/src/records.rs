//! The keyed records of the ledger: consents, submissions, and reward
//! vaults.
//!
//! Consents and submissions are keyed by the pair (study, participant),
//! vaults by the study alone. Creation is create-if-absent: the engine
//! never overwrites an existing record under the same key.

use vstd::prelude::*;

use crate::eligibility::ParticipantInfo;

verus! {

/// A participant's enrollment record in one study.
#[derive(Clone, Debug, PartialEq, Eq)]
pub struct Consent {
    /// The study enrolled in.
    pub study_id: u64,
    /// The enrolled participant.
    pub participant: u64,
    /// When consent was given (Unix timestamp).
    pub timestamp: i64,
    /// Whether the participant has withdrawn.
    pub is_revoked: bool,
    /// When consent was withdrawn, if it was.
    pub revocation_timestamp: Option<i64>,
    /// The declared attributes the participant enrolled with, where the
    /// study demanded an eligibility proof.
    pub info: Option<ParticipantInfo>,
    /// Reference to the externally minted enrollment credential.
    pub credential: u64,
}

/// A participant's encrypted-data submission for one study.
#[derive(Clone, Debug, PartialEq, Eq)]
pub struct Submission {
    /// The study submitted to.
    pub study_id: u64,
    /// The submitting participant.
    pub participant: u64,
    /// Hash of the encrypted payload; never all zero.
    pub data_hash: [u8; 32],
    /// Off-chain content identifier of the payload.
    pub content_id: String,
    /// When the data was submitted (Unix timestamp).
    pub submission_timestamp: i64,
    /// Whether the researcher has verified the submission.
    pub is_verified: bool,
    /// Whether the reward for this submission has been paid.
    pub reward_distributed: bool,
    /// Reference to the externally minted completion credential, set by
    /// settlement.
    pub completion_credential: Option<u64>,
}

/// Pooled-fund custody scoped to one study.
#[derive(Clone, Copy, Debug, PartialEq, Eq, Structural)]
pub struct RewardVault {
    /// The study this vault pays for.
    pub study_id: u64,
    /// Identifier of the reward asset held.
    pub reward_asset: u64,
    /// Total ever deposited into the vault.
    pub total_deposited: u64,
    /// Total ever paid out; never exceeds the deposits.
    pub total_distributed: u64,
}

impl RewardVault {
    /// Solvency: payouts never exceed deposits.
    pub open spec fn spec_ok(&self) -> bool {
        self.total_distributed <= self.total_deposited
    }

    /// What the vault still holds.
    pub open spec fn spec_available(&self) -> int {
        self.total_deposited - self.total_distributed
    }

    /// What the vault still holds.
    pub fn available(&self) -> (r: u64)
        requires
            self.spec_ok(),
        ensures
            r == self.spec_available(),
    {
        self.total_deposited - self.total_distributed
    }
}

/// No two consents share a (study, participant) key.
pub open spec fn consents_unique(s: Seq<Consent>) -> bool {
    forall|i: int, j: int| #![trigger s[i].study_id, s[j].study_id]
        0 <= i < j < s.len() ==> !(s[i].study_id == s[j].study_id
            && s[i].participant == s[j].participant)
}

/// Some consent in `s` has the key (`study`, `participant`).
pub open spec fn has_consent(s: Seq<Consent>, study: u64, participant: u64) -> bool {
    exists|i: int|
        0 <= i < s.len() && #[trigger] s[i].study_id == study && s[i].participant == participant
}

/// The position of the consent with the given key; meaningful when
/// `has_consent` holds and `s` is unique.
pub open spec fn consent_index(s: Seq<Consent>, study: u64, participant: u64) -> int {
    choose|i: int|
        0 <= i < s.len() && #[trigger] s[i].study_id == study && s[i].participant == participant
}

/// The consent with the given key.
pub open spec fn consent_of(s: Seq<Consent>, study: u64, participant: u64) -> Consent {
    s[consent_index(s, study, participant)]
}

/// In a unique sequence, the index of a consent with a matching key is the
/// one `consent_index` names.
pub proof fn lemma_consent_index(s: Seq<Consent>, study: u64, participant: u64, i: int)
    requires
        consents_unique(s),
        0 <= i < s.len(),
        s[i].study_id == study,
        s[i].participant == participant,
    ensures
        has_consent(s, study, participant),
        consent_index(s, study, participant) == i,
{
    assert(has_consent(s, study, participant));
    let j = consent_index(s, study, participant);
    if i < j {
        assert(!(s[i].study_id == s[j].study_id && s[i].participant == s[j].participant));
    } else if j < i {
        assert(!(s[j].study_id == s[i].study_id && s[j].participant == s[i].participant));
    }
}

/// Finds the position of the consent with the given key, if one exists.
pub fn find_consent(consents: &Vec<Consent>, study: u64, participant: u64) -> (r: Option<usize>)
    ensures
        (match r {
            Some(i) => i < consents@.len() && consents@[i as int].study_id == study
                && consents@[i as int].participant == participant,
            None => !has_consent(consents@, study, participant),
        }),
{
    let n = consents.len();
    let mut k: usize = 0;
    while k < n
        invariant
            n == consents@.len(),
            k <= n,
            forall|i: int|
                0 <= i < k ==> !(#[trigger] consents@[i].study_id == study
                    && consents@[i].participant == participant),
        decreases n - k,
    {
        if consents[k].study_id == study && consents[k].participant == participant {
            return Some(k);
        }
        k = k + 1;
    }
    None
}

/// No two submissions share a (study, participant) key.
pub open spec fn submissions_unique(s: Seq<Submission>) -> bool {
    forall|i: int, j: int| #![trigger s[i].study_id, s[j].study_id]
        0 <= i < j < s.len() ==> !(s[i].study_id == s[j].study_id
            && s[i].participant == s[j].participant)
}

/// Some submission in `s` has the key (`study`, `participant`).
pub open spec fn has_submission(s: Seq<Submission>, study: u64, participant: u64) -> bool {
    exists|i: int|
        0 <= i < s.len() && #[trigger] s[i].study_id == study && s[i].participant == participant
}

/// The position of the submission with the given key; meaningful when
/// `has_submission` holds and `s` is unique.
pub open spec fn submission_index(s: Seq<Submission>, study: u64, participant: u64) -> int {
    choose|i: int|
        0 <= i < s.len() && #[trigger] s[i].study_id == study && s[i].participant == participant
}

/// The submission with the given key.
pub open spec fn submission_of(s: Seq<Submission>, study: u64, participant: u64) -> Submission {
    s[submission_index(s, study, participant)]
}

/// In a unique sequence, the index of a submission with a matching key is
/// the one `submission_index` names.
pub proof fn lemma_submission_index(s: Seq<Submission>, study: u64, participant: u64, i: int)
    requires
        submissions_unique(s),
        0 <= i < s.len(),
        s[i].study_id == study,
        s[i].participant == participant,
    ensures
        has_submission(s, study, participant),
        submission_index(s, study, participant) == i,
{
    assert(has_submission(s, study, participant));
    let j = submission_index(s, study, participant);
    if i < j {
        assert(!(s[i].study_id == s[j].study_id && s[i].participant == s[j].participant));
    } else if j < i {
        assert(!(s[j].study_id == s[i].study_id && s[j].participant == s[i].participant));
    }
}

/// Finds the position of the submission with the given key, if one exists.
pub fn find_submission(submissions: &Vec<Submission>, study: u64, participant: u64) -> (r: Option<
    usize,
>)
    ensures
        (match r {
            Some(i) => i < submissions@.len() && submissions@[i as int].study_id == study
                && submissions@[i as int].participant == participant,
            None => !has_submission(submissions@, study, participant),
        }),
{
    let n = submissions.len();
    let mut k: usize = 0;
    while k < n
        invariant
            n == submissions@.len(),
            k <= n,
            forall|i: int|
                0 <= i < k ==> !(#[trigger] submissions@[i].study_id == study
                    && submissions@[i].participant == participant),
        decreases n - k,
    {
        if submissions[k].study_id == study && submissions[k].participant == participant {
            return Some(k);
        }
        k = k + 1;
    }
    None
}

/// No two vaults belong to the same study.
pub open spec fn vaults_unique(s: Seq<RewardVault>) -> bool {
    forall|i: int, j: int| #![trigger s[i].study_id, s[j].study_id]
        0 <= i < j < s.len() ==> s[i].study_id != s[j].study_id
}

/// Some vault in `s` belongs to study `id`.
pub open spec fn has_vault(s: Seq<RewardVault>, id: u64) -> bool {
    exists|i: int| 0 <= i < s.len() && #[trigger] s[i].study_id == id
}

/// The position of the vault of study `id`; meaningful when `has_vault`
/// holds and `s` is unique.
pub open spec fn vault_index(s: Seq<RewardVault>, id: u64) -> int {
    choose|i: int| 0 <= i < s.len() && #[trigger] s[i].study_id == id
}

/// The vault of study `id`.
pub open spec fn vault_of(s: Seq<RewardVault>, id: u64) -> RewardVault {
    s[vault_index(s, id)]
}

/// In a unique sequence, the index of a vault with a matching study is the
/// one `vault_index` names.
pub proof fn lemma_vault_index(s: Seq<RewardVault>, id: u64, i: int)
    requires
        vaults_unique(s),
        0 <= i < s.len(),
        s[i].study_id == id,
    ensures
        has_vault(s, id),
        vault_index(s, id) == i,
{
    assert(has_vault(s, id));
    let j = vault_index(s, id);
    if i < j {
        assert(s[i].study_id != s[j].study_id);
    } else if j < i {
        assert(s[j].study_id != s[i].study_id);
    }
}

/// Finds the position of the vault of study `id`, if one exists.
pub fn find_vault(vaults: &Vec<RewardVault>, id: u64) -> (r: Option<usize>)
    ensures
        (match r {
            Some(i) => i < vaults@.len() && vaults@[i as int].study_id == id,
            None => !has_vault(vaults@, id),
        }),
{
    let n = vaults.len();
    let mut k: usize = 0;
    while k < n
        invariant
            n == vaults@.len(),
            k <= n,
            forall|i: int| 0 <= i < k ==> #[trigger] vaults@[i].study_id != id,
        decreases n - k,
    {
        if vaults[k].study_id == id {
            return Some(k);
        }
        k = k + 1;
    }
    None
}

/// Appending a consent under a fresh key keeps the sequence unique.
pub proof fn lemma_consents_push_unique(s: Seq<Consent>, c: Consent)
    requires
        consents_unique(s),
        !has_consent(s, c.study_id, c.participant),
    ensures
        consents_unique(s.push(c)),
{
    assert forall|i: int, j: int| #![trigger s.push(c)[i].study_id, s.push(c)[j].study_id]
        0 <= i < j < s.push(c).len() implies !(s.push(c)[i].study_id == s.push(c)[j].study_id
        && s.push(c)[i].participant == s.push(c)[j].participant) by {
        if j < s.len() {
            assert(s.push(c)[i] == s[i]);
            assert(s.push(c)[j] == s[j]);
        } else {
            assert(s.push(c)[i] == s[i]);
            assert(s.push(c)[j] == c);
            if s[i].study_id == c.study_id && s[i].participant == c.participant {
                assert(has_consent(s, c.study_id, c.participant));
            }
        }
    }
}

/// Appending a consent under a fresh key leaves every existing key's
/// record where it was, and the new key maps to the new record.
pub proof fn lemma_consent_push_lookup(s: Seq<Consent>, c: Consent, study: u64, participant: u64)
    requires
        consents_unique(s),
        !has_consent(s, c.study_id, c.participant),
    ensures
        has_consent(s.push(c), c.study_id, c.participant),
        consent_of(s.push(c), c.study_id, c.participant) == c,
        has_consent(s, study, participant) ==> has_consent(s.push(c), study, participant)
            && consent_of(s.push(c), study, participant) == consent_of(s, study, participant),
{
    lemma_consents_push_unique(s, c);
    let t = s.push(c);
    assert(t[s.len() as int] == c);
    lemma_consent_index(t, c.study_id, c.participant, s.len() as int);
    if has_consent(s, study, participant) {
        let i = consent_index(s, study, participant);
        assert(0 <= i < s.len() && s[i].study_id == study && s[i].participant == participant);
        assert(t[i] == s[i]);
        lemma_consent_index(t, study, participant, i);
    }
}

/// Replacing a consent with one under the same key keeps the sequence
/// unique, leaves every key's presence as it was, maps the key to the new
/// record, and leaves every other key's record untouched.
pub proof fn lemma_consents_update_same_key(s: Seq<Consent>, i: int, x: Consent)
    requires
        consents_unique(s),
        0 <= i < s.len(),
        x.study_id == s[i].study_id,
        x.participant == s[i].participant,
    ensures
        consents_unique(s.update(i, x)),
        forall|st: u64, pt: u64|
            #[trigger] has_consent(s.update(i, x), st, pt) == has_consent(s, st, pt),
        has_consent(s.update(i, x), x.study_id, x.participant),
        consent_of(s.update(i, x), x.study_id, x.participant) == x,
        forall|st: u64, pt: u64|
            has_consent(s, st, pt) && !(st == x.study_id && pt == x.participant)
                ==> #[trigger] consent_of(s.update(i, x), st, pt) == consent_of(s, st, pt),
{
    let t = s.update(i, x);
    assert forall|a: int, b: int| #![trigger t[a].study_id, t[b].study_id]
        0 <= a < b < t.len() implies !(t[a].study_id == t[b].study_id
        && t[a].participant == t[b].participant) by {
        assert(!(s[a].study_id == s[b].study_id && s[a].participant == s[b].participant));
    }
    assert forall|st: u64, pt: u64|
        #[trigger] has_consent(t, st, pt) == has_consent(s, st, pt) by {
        if has_consent(s, st, pt) {
            let k = consent_index(s, st, pt);
            if k == i {
                assert(t[i].study_id == st && t[i].participant == pt);
            } else {
                assert(t[k].study_id == st && t[k].participant == pt);
            }
        }
        if has_consent(t, st, pt) {
            let k = consent_index(t, st, pt);
            if k == i {
                assert(s[i].study_id == st && s[i].participant == pt);
            } else {
                assert(s[k].study_id == st && s[k].participant == pt);
            }
        }
    }
    lemma_consent_index(t, x.study_id, x.participant, i);
    assert forall|st: u64, pt: u64|
        has_consent(s, st, pt) && !(st == x.study_id && pt == x.participant)
            implies #[trigger] consent_of(t, st, pt) == consent_of(s, st, pt) by {
        let k = consent_index(s, st, pt);
        assert(0 <= k < s.len() && s[k].study_id == st && s[k].participant == pt);
        if k != i {
            assert(t[k] == s[k]);
            lemma_consent_index(t, st, pt, k);
        }
    }
}

/// Appending a submission under a fresh key keeps the sequence unique.
pub proof fn lemma_submissions_push_unique(s: Seq<Submission>, c: Submission)
    requires
        submissions_unique(s),
        !has_submission(s, c.study_id, c.participant),
    ensures
        submissions_unique(s.push(c)),
{
    assert forall|i: int, j: int| #![trigger s.push(c)[i].study_id, s.push(c)[j].study_id]
        0 <= i < j < s.push(c).len() implies !(s.push(c)[i].study_id == s.push(c)[j].study_id
        && s.push(c)[i].participant == s.push(c)[j].participant) by {
        if j < s.len() {
            assert(s.push(c)[i] == s[i]);
            assert(s.push(c)[j] == s[j]);
        } else {
            assert(s.push(c)[i] == s[i]);
            assert(s.push(c)[j] == c);
            if s[i].study_id == c.study_id && s[i].participant == c.participant {
                assert(has_submission(s, c.study_id, c.participant));
            }
        }
    }
}

/// Appending a submission under a fresh key leaves every existing key's
/// record where it was, and the new key maps to the new record.
pub proof fn lemma_submission_push_lookup(
    s: Seq<Submission>,
    c: Submission,
    study: u64,
    participant: u64,
)
    requires
        submissions_unique(s),
        !has_submission(s, c.study_id, c.participant),
    ensures
        has_submission(s.push(c), c.study_id, c.participant),
        submission_of(s.push(c), c.study_id, c.participant) == c,
        has_submission(s, study, participant) ==> has_submission(s.push(c), study, participant)
            && submission_of(s.push(c), study, participant) == submission_of(
            s,
            study,
            participant,
        ),
{
    lemma_submissions_push_unique(s, c);
    let t = s.push(c);
    assert(t[s.len() as int] == c);
    lemma_submission_index(t, c.study_id, c.participant, s.len() as int);
    if has_submission(s, study, participant) {
        let i = submission_index(s, study, participant);
        assert(0 <= i < s.len() && s[i].study_id == study && s[i].participant == participant);
        assert(t[i] == s[i]);
        lemma_submission_index(t, study, participant, i);
    }
}

/// Replacing a submission with one under the same key keeps the sequence
/// unique, leaves every key's presence as it was, maps the key to the new
/// record, and leaves every other key's record untouched.
pub proof fn lemma_submissions_update_same_key(s: Seq<Submission>, i: int, x: Submission)
    requires
        submissions_unique(s),
        0 <= i < s.len(),
        x.study_id == s[i].study_id,
        x.participant == s[i].participant,
    ensures
        submissions_unique(s.update(i, x)),
        forall|st: u64, pt: u64|
            #[trigger] has_submission(s.update(i, x), st, pt) == has_submission(s, st, pt),
        has_submission(s.update(i, x), x.study_id, x.participant),
        submission_of(s.update(i, x), x.study_id, x.participant) == x,
        forall|st: u64, pt: u64|
            has_submission(s, st, pt) && !(st == x.study_id && pt == x.participant)
                ==> #[trigger] submission_of(s.update(i, x), st, pt) == submission_of(s, st, pt),
{
    let t = s.update(i, x);
    assert forall|a: int, b: int| #![trigger t[a].study_id, t[b].study_id]
        0 <= a < b < t.len() implies !(t[a].study_id == t[b].study_id
        && t[a].participant == t[b].participant) by {
        assert(!(s[a].study_id == s[b].study_id && s[a].participant == s[b].participant));
    }
    assert forall|st: u64, pt: u64|
        #[trigger] has_submission(t, st, pt) == has_submission(s, st, pt) by {
        if has_submission(s, st, pt) {
            let k = submission_index(s, st, pt);
            if k == i {
                assert(t[i].study_id == st && t[i].participant == pt);
            } else {
                assert(t[k].study_id == st && t[k].participant == pt);
            }
        }
        if has_submission(t, st, pt) {
            let k = submission_index(t, st, pt);
            if k == i {
                assert(s[i].study_id == st && s[i].participant == pt);
            } else {
                assert(s[k].study_id == st && s[k].participant == pt);
            }
        }
    }
    lemma_submission_index(t, x.study_id, x.participant, i);
    assert forall|st: u64, pt: u64|
        has_submission(s, st, pt) && !(st == x.study_id && pt == x.participant)
            implies #[trigger] submission_of(t, st, pt) == submission_of(s, st, pt) by {
        let k = submission_index(s, st, pt);
        assert(0 <= k < s.len() && s[k].study_id == st && s[k].participant == pt);
        if k != i {
            assert(t[k] == s[k]);
            lemma_submission_index(t, st, pt, k);
        }
    }
}

/// Appending a vault for a study that has none keeps the sequence unique.
pub proof fn lemma_vaults_push_unique(s: Seq<RewardVault>, v: RewardVault)
    requires
        vaults_unique(s),
        !has_vault(s, v.study_id),
    ensures
        vaults_unique(s.push(v)),
{
    assert forall|i: int, j: int| #![trigger s.push(v)[i].study_id, s.push(v)[j].study_id]
        0 <= i < j < s.push(v).len() implies s.push(v)[i].study_id != s.push(v)[j].study_id by {
        if j < s.len() {
            assert(s.push(v)[i] == s[i]);
            assert(s.push(v)[j] == s[j]);
        } else {
            assert(s.push(v)[i] == s[i]);
            assert(s.push(v)[j] == v);
            if s[i].study_id == v.study_id {
                assert(has_vault(s, v.study_id));
            }
        }
    }
}

/// Appending a vault for a study that has none leaves every existing
/// study's vault where it was, and the new study maps to the new vault.
pub proof fn lemma_vault_push_lookup(s: Seq<RewardVault>, v: RewardVault, id: u64)
    requires
        vaults_unique(s),
        !has_vault(s, v.study_id),
    ensures
        has_vault(s.push(v), v.study_id),
        vault_of(s.push(v), v.study_id) == v,
        has_vault(s, id) ==> has_vault(s.push(v), id) && vault_of(s.push(v), id) == vault_of(
            s,
            id,
        ),
{
    lemma_vaults_push_unique(s, v);
    let t = s.push(v);
    assert(t[s.len() as int] == v);
    lemma_vault_index(t, v.study_id, s.len() as int);
    if has_vault(s, id) {
        let i = vault_index(s, id);
        assert(0 <= i < s.len() && s[i].study_id == id);
        assert(t[i] == s[i]);
        lemma_vault_index(t, id, i);
    }
}

/// A study with a vault after a push either got the pushed vault or had
/// one before.
pub proof fn lemma_has_vault_push_cases(s: Seq<RewardVault>, v: RewardVault, id: u64)
    requires
        has_vault(s.push(v), id),
    ensures
        id == v.study_id || has_vault(s, id),
{
    let k = choose|k: int| 0 <= k < s.push(v).len() && #[trigger] s.push(v)[k].study_id == id;
    if k < s.len() {
        assert(s[k].study_id == id);
    } else {
        assert(s.push(v)[k] == v);
    }
}

/// Replacing a vault with one of the same study keeps the sequence unique,
/// leaves every study's vault presence as it was, maps the study to the new
/// vault, and leaves every other study's vault untouched.
pub proof fn lemma_vaults_update_same_id(s: Seq<RewardVault>, i: int, x: RewardVault)
    requires
        vaults_unique(s),
        0 <= i < s.len(),
        x.study_id == s[i].study_id,
    ensures
        vaults_unique(s.update(i, x)),
        forall|id: u64| #[trigger] has_vault(s.update(i, x), id) == has_vault(s, id),
        has_vault(s.update(i, x), x.study_id),
        vault_of(s.update(i, x), x.study_id) == x,
        forall|id: u64|
            has_vault(s, id) && id != x.study_id ==> #[trigger] vault_of(s.update(i, x), id)
                == vault_of(s, id),
{
    let t = s.update(i, x);
    assert forall|a: int, b: int| #![trigger t[a].study_id, t[b].study_id]
        0 <= a < b < t.len() implies t[a].study_id != t[b].study_id by {
        assert(s[a].study_id != s[b].study_id);
    }
    assert forall|id: u64| #[trigger] has_vault(t, id) == has_vault(s, id) by {
        if has_vault(s, id) {
            let k = vault_index(s, id);
            if k == i {
                assert(t[i].study_id == id);
            } else {
                assert(t[k].study_id == id);
            }
        }
        if has_vault(t, id) {
            let k = vault_index(t, id);
            if k == i {
                assert(s[i].study_id == id);
            } else {
                assert(s[k].study_id == id);
            }
        }
    }
    lemma_vault_index(t, x.study_id, i);
    assert forall|id: u64|
        has_vault(s, id) && id != x.study_id implies #[trigger] vault_of(t, id) == vault_of(
        s,
        id,
    ) by {
        let k = vault_index(s, id);
        assert(0 <= k < s.len() && s[k].study_id == id);
        if k != i {
            assert(t[k] == s[k]);
            lemma_vault_index(t, id, k);
        }
    }
}

/// The participants holding a consent in `study`.
pub open spec fn consent_holders(s: Seq<Consent>, study: u64) -> Set<u64>
    decreases s.len(),
{
    if s.len() == 0 {
        Set::empty()
    } else {
        let rest = consent_holders(s.drop_last(), study);
        if s.last().study_id == study {
            rest.insert(s.last().participant)
        } else {
            rest
        }
    }
}

/// Some settled submission in `s` has the key (`study`, `participant`).
pub open spec fn has_settled_submission(s: Seq<Submission>, study: u64, participant: u64) -> bool {
    exists|i: int|
        0 <= i < s.len() && #[trigger] s[i].study_id == study && s[i].participant == participant
            && s[i].reward_distributed
}

/// The participants whose submission in `study` has been settled.
pub open spec fn settled_participants(s: Seq<Submission>, study: u64) -> Set<u64>
    decreases s.len(),
{
    if s.len() == 0 {
        Set::empty()
    } else {
        let rest = settled_participants(s.drop_last(), study);
        if s.last().study_id == study && s.last().reward_distributed {
            rest.insert(s.last().participant)
        } else {
            rest
        }
    }
}

/// The consent holders of a study form a finite set holding exactly the
/// participants with a consent record.
pub proof fn lemma_consent_holders(s: Seq<Consent>, study: u64)
    ensures
        consent_holders(s, study).finite(),
        forall|p: u64| #[trigger] consent_holders(s, study).contains(p) <==> has_consent(
            s,
            study,
            p,
        ),
    decreases s.len(),
{
    broadcast use vstd::set::group_set_axioms;

    if s.len() == 0 {
        assert forall|p: u64| #[trigger] consent_holders(s, study).contains(p) <==> has_consent(
            s,
            study,
            p,
        ) by {
            assert(!consent_holders(s, study).contains(p));
        }
    } else {
        let rest = s.drop_last();
        lemma_consent_holders(rest, study);
        assert forall|p: u64| #[trigger] consent_holders(s, study).contains(p) <==> has_consent(
            s,
            study,
            p,
        ) by {
            if consent_holders(s, study).contains(p) {
                if s.last().study_id == study && s.last().participant == p {
                    assert(s[s.len() - 1].study_id == study);
                } else {
                    assert(consent_holders(rest, study).contains(p));
                    let i = choose|i: int|
                        0 <= i < rest.len() && #[trigger] rest[i].study_id == study
                            && rest[i].participant == p;
                    assert(s[i].study_id == study);
                }
            }
            if has_consent(s, study, p) {
                let i = choose|i: int|
                    0 <= i < s.len() && #[trigger] s[i].study_id == study && s[i].participant == p;
                if i == s.len() - 1 {
                    assert(s.last().study_id == study && s.last().participant == p);
                } else {
                    assert(rest[i].study_id == study);
                    assert(has_consent(rest, study, p));
                }
            }
        }
    }
}

/// The settled participants of a study form a finite set holding exactly
/// the participants with a settled submission.
pub proof fn lemma_settled_participants(s: Seq<Submission>, study: u64)
    ensures
        settled_participants(s, study).finite(),
        forall|p: u64| #[trigger] settled_participants(s, study).contains(p)
            <==> has_settled_submission(s, study, p),
    decreases s.len(),
{
    broadcast use vstd::set::group_set_axioms;

    if s.len() == 0 {
        assert forall|p: u64| #[trigger] settled_participants(s, study).contains(p)
            <==> has_settled_submission(s, study, p) by {
            assert(!settled_participants(s, study).contains(p));
        }
    } else {
        let rest = s.drop_last();
        lemma_settled_participants(rest, study);
        assert forall|p: u64| #[trigger] settled_participants(s, study).contains(p)
            <==> has_settled_submission(s, study, p) by {
            if settled_participants(s, study).contains(p) {
                if s.last().study_id == study && s.last().reward_distributed && s.last().participant
                    == p {
                    assert(s[s.len() - 1].study_id == study);
                } else {
                    assert(settled_participants(rest, study).contains(p));
                    let i = choose|i: int|
                        0 <= i < rest.len() && #[trigger] rest[i].study_id == study
                            && rest[i].participant == p && rest[i].reward_distributed;
                    assert(s[i].study_id == study);
                }
            }
            if has_settled_submission(s, study, p) {
                let i = choose|i: int|
                    0 <= i < s.len() && #[trigger] s[i].study_id == study && s[i].participant == p
                        && s[i].reward_distributed;
                if i == s.len() - 1 {
                    assert(s.last().study_id == study && s.last().participant == p);
                } else {
                    assert(rest[i].study_id == study);
                    assert(has_settled_submission(rest, study, p));
                }
            }
        }
    }
}

/// How appending a consent changes a study's holder set: the enrolling
/// study gains the participant, every other study's set is untouched.
pub proof fn lemma_consent_holders_push(s: Seq<Consent>, c: Consent, study: u64)
    ensures
        c.study_id == study ==> consent_holders(s.push(c), study) == consent_holders(
            s,
            study,
        ).insert(c.participant),
        c.study_id != study ==> consent_holders(s.push(c), study) == consent_holders(s, study),
{
    assert(s.push(c).drop_last() =~= s);
    assert(s.push(c).last() == c);
}

/// Replacing a consent with one under the same key leaves every study's
/// holder set untouched.
pub proof fn lemma_consent_holders_update(s: Seq<Consent>, i: int, x: Consent, study: u64)
    requires
        0 <= i < s.len(),
        x.study_id == s[i].study_id,
        x.participant == s[i].participant,
    ensures
        consent_holders(s.update(i, x), study) == consent_holders(s, study),
    decreases s.len(),
{
    let t = s.update(i, x);
    if i == s.len() - 1 {
        assert(t.drop_last() =~= s.drop_last());
        assert(t.last() == x);
    } else {
        assert(t.drop_last() =~= s.drop_last().update(i, x));
        assert(t.last() == s.last());
        lemma_consent_holders_update(s.drop_last(), i, x, study);
    }
}

/// Appending an unsettled submission leaves every study's settled set
/// untouched.
pub proof fn lemma_settled_participants_push(s: Seq<Submission>, c: Submission, study: u64)
    requires
        !c.reward_distributed,
    ensures
        settled_participants(s.push(c), study) == settled_participants(s, study),
{
    assert(s.push(c).drop_last() =~= s);
    assert(s.push(c).last() == c);
}

/// How settling one submission changes a study's settled set: replacing
/// an unsettled submission with a settled one under the same key adds its
/// participant to its study's set and leaves every other study's set
/// untouched.
pub proof fn lemma_settled_participants_update(s: Seq<Submission>, i: int, x: Submission, study: u64)
    requires
        0 <= i < s.len(),
        x.study_id == s[i].study_id,
        x.participant == s[i].participant,
        !s[i].reward_distributed,
        x.reward_distributed,
    ensures
        x.study_id == study ==> settled_participants(s.update(i, x), study) == settled_participants(
            s,
            study,
        ).insert(x.participant),
        x.study_id != study ==> settled_participants(s.update(i, x), study) == settled_participants(
            s,
            study,
        ),
    decreases s.len(),
{
    let t = s.update(i, x);
    if i == s.len() - 1 {
        assert(t.drop_last() =~= s.drop_last());
        assert(t.last() == x);
    } else {
        assert(t.drop_last() =~= s.drop_last().update(i, x));
        assert(t.last() == s.last());
        lemma_settled_participants_update(s.drop_last(), i, x, study);
    }
}

/// Whether a 32-byte hash has any nonzero byte.
pub open spec fn spec_hash_nonzero(h: [u8; 32]) -> bool {
    exists|i: int| 0 <= i < 32 && h@[i] != 0
}

/// Checks that the hash has at least one nonzero byte.
pub fn hash_nonzero(h: &[u8; 32]) -> (r: bool)
    ensures
        r == spec_hash_nonzero(*h),
{
    let mut k: usize = 0;
    while k < 32
        invariant
            k <= 32,
            forall|i: int| 0 <= i < k ==> h@[i] == 0,
        decreases 32 - k,
    {
        if h[k] != 0 {
            return true;
        }
        k = k + 1;
    }
    false
}

} // verus!
