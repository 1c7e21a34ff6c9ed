//! The study lifecycle and reward settlement engine.
//!
//! One [`Engine`] value holds the whole record store: the global
//! configuration, the studies, and the consent, submission, and vault
//! ledgers. Every operation is one atomic step: it validates all of its
//! preconditions in a fixed order against the caller-supplied clock reading,
//! and either applies its whole effect or returns a typed error leaving the
//! store untouched.
//!
//! External collaborators — the clock, fund custody, credential minting —
//! enter only as plain values: the current time, account balances, and
//! credential references are parameters, so the transition rules themselves
//! are verified for every value the environment could supply.

use vstd::prelude::*;

use crate::admin::AdminConfig;
use crate::eligibility::EligibilityCriteria;
use crate::eligibility::ParticipantInfo;
use crate::eligibility::evaluate;
use crate::eligibility::spec_eligible;
use crate::errors::EngineError;
use crate::limits::DEFAULT_MAX_STUDY_DURATION;
use crate::limits::DEFAULT_MIN_STUDY_DURATION;
use crate::limits::DEFAULT_PROTOCOL_FEE_BPS;
use crate::limits::MAX_DESCRIPTION_LEN;
use crate::limits::MAX_PARTICIPANTS_PER_STUDY;
use crate::limits::MAX_PROTOCOL_FEE_BPS;
use crate::limits::MAX_TITLE_LEN;
use crate::limits::MAX_CONTENT_ID_LEN;
use crate::limits::MIN_CONTENT_ID_LEN;
use crate::limits::MIN_ENROLLMENT_WINDOW;
use crate::limits::SETTLEMENT_COOLDOWN;
use crate::records::Consent;
use crate::records::RewardVault;
use crate::records::Submission;
use crate::records::consent_holders;
use crate::records::consent_index;
use crate::records::consent_of;
use crate::records::consents_unique;
use crate::records::has_settled_submission;
use crate::records::lemma_consent_holders;
use crate::records::lemma_consent_holders_push;
use crate::records::lemma_consent_holders_update;
use crate::records::lemma_settled_participants;
use crate::records::lemma_settled_participants_push;
use crate::records::lemma_settled_participants_update;
use crate::records::settled_participants;
use crate::records::find_consent;
use crate::records::find_submission;
use crate::records::find_vault;
use crate::records::has_consent;
use crate::records::has_submission;
use crate::records::has_vault;
use crate::records::hash_nonzero;
use crate::records::spec_hash_nonzero;
use crate::records::submission_index;
use crate::records::submission_of;
use crate::records::submissions_unique;
use crate::records::vault_index;
use crate::records::vault_of;
use crate::records::vaults_unique;
use crate::study::Study;
use crate::study::StudyParams;
use crate::study::StudyStatus;
use crate::study::find_study;
use crate::study::has_study;
use crate::study::lemma_has_study_push;
use crate::study::lemma_studies_push_unique;
use crate::study::lemma_study_index;
use crate::study::spec_transitioned;
use crate::study::studies_unique;
use crate::study::study_index;
use crate::study::study_of;
use vstd::set_lib::lemma_len_subset;
use vstd::string::StrSliceExecFns;

verus! {

/// The whole record store of the protocol.
pub struct Engine {
    /// The singleton configuration; `None` until initialized.
    pub admin: Option<AdminConfig>,
    /// Every study ever created, each under a unique identifier.
    pub studies: Vec<Study>,
    /// The consent ledger, keyed by (study, participant).
    pub consents: Vec<Consent>,
    /// The submission ledger, keyed by (study, participant).
    pub submissions: Vec<Submission>,
    /// The reward vaults, one per study at most.
    pub vaults: Vec<RewardVault>,
}

impl Engine {
    /// The engine's invariant, preserved by every operation:
    /// - record keys are unique (creation is create-if-absent);
    /// - every study is structurally sound, in particular
    ///   `enrolled_count <= max_participants`;
    /// - every vault is solvent: `total_distributed <= total_deposited`;
    /// - the configuration, once present, is sound, and studies exist only
    ///   after it was created;
    /// - every consent names an existing study, and so does every vault;
    /// - every submission rests on a consent that is not revoked — which is
    ///   why a consent can never be revoked once data was submitted;
    /// - settlement accounting balances: a study's distributed total is
    ///   exactly its completed count times its per-participant reward, it
    ///   equals its vault's distributed total, and both are zero while no
    ///   vault exists;
    /// - a consent's revocation flag and revocation timestamp agree;
    /// - the counters count: a study's enrolled count is the number of its
    ///   consent holders, its completed count the number of its settled
    ///   participants, and so `completed_count <= enrolled_count`.
    pub open spec fn wf(&self) -> bool {
        &&& studies_unique(self.studies@)
        &&& consents_unique(self.consents@)
        &&& submissions_unique(self.submissions@)
        &&& vaults_unique(self.vaults@)
        &&& forall|i: int|
            0 <= i < self.studies@.len() ==> (#[trigger] self.studies@[i]).spec_ok()
        &&& forall|i: int| 0 <= i < self.vaults@.len() ==> (#[trigger] self.vaults@[i]).spec_ok()
        &&& (match self.admin {
            Some(a) => a.spec_ok(),
            None => true,
        })
        &&& (self.studies@.len() > 0 ==> self.admin is Some)
        &&& forall|i: int|
            0 <= i < self.consents@.len() ==> has_study(
                self.studies@,
                (#[trigger] self.consents@[i]).study_id,
            )
        &&& forall|i: int|
            0 <= i < self.submissions@.len() ==> {
                let sb = #[trigger] self.submissions@[i];
                &&& has_consent(self.consents@, sb.study_id, sb.participant)
                &&& !consent_of(self.consents@, sb.study_id, sb.participant).is_revoked
            }
        &&& forall|i: int|
            0 <= i < self.vaults@.len() ==> has_study(
                self.studies@,
                (#[trigger] self.vaults@[i]).study_id,
            )
        &&& forall|i: int|
            0 <= i < self.studies@.len() ==> Self::study_accounting_ok(
                #[trigger] self.studies@[i],
                self.vaults@,
            )
        &&& forall|i: int|
            0 <= i < self.consents@.len() ==> ((#[trigger] self.consents@[i]).is_revoked
                <==> self.consents@[i].revocation_timestamp is Some)
        &&& forall|i: int|
            0 <= i < self.studies@.len() ==> Self::study_counters_ok(
                #[trigger] self.studies@[i],
                self.consents@,
                self.submissions@,
            )
    }

    /// The counters of one study count its records: the enrolled count is
    /// the number of participants holding a consent, the completed count
    /// the number of participants with a settled submission, and the
    /// completed count never exceeds the enrolled count.
    pub open spec fn study_counters_ok(
        s: Study,
        consents: Seq<Consent>,
        submissions: Seq<Submission>,
    ) -> bool {
        &&& s.enrolled_count == consent_holders(consents, s.study_id).len()
        &&& s.completed_count == settled_participants(submissions, s.study_id).len()
        &&& s.completed_count <= s.enrolled_count
    }

    /// Settlement accounting for one study: the distributed total is the
    /// completed count times the per-participant reward; with a vault it
    /// equals the vault's distributed total, without one it is zero.
    pub open spec fn study_accounting_ok(s: Study, vaults: Seq<RewardVault>) -> bool {
        &&& s.total_rewards_distributed == s.completed_count
            * s.reward_amount_per_participant
        &&& (if has_vault(vaults, s.study_id) {
            vault_of(vaults, s.study_id).total_distributed == s.total_rewards_distributed
        } else {
            s.total_rewards_distributed == 0 && s.completed_count == 0
        })
    }

    /// Two engine values hold the same records.
    pub open spec fn spec_same_state(a: Engine, b: Engine) -> bool {
        &&& a.admin == b.admin
        &&& a.studies@ == b.studies@
        &&& a.consents@ == b.consents@
        &&& a.submissions@ == b.submissions@
        &&& a.vaults@ == b.vaults@
    }

    /// An empty record store: nothing configured, no records.
    pub fn new() -> (r: Engine)
        ensures
            r.wf(),
            r.admin is None,
            r.studies@.len() == 0,
            r.consents@.len() == 0,
            r.submissions@.len() == 0,
            r.vaults@.len() == 0,
    {
        Engine {
            admin: None,
            studies: Vec::new(),
            consents: Vec::new(),
            submissions: Vec::new(),
            vaults: Vec::new(),
        }
    }

    /// The error `initialize_admin` reports, or `None` where it succeeds:
    /// the configuration must not exist yet, the fee must stay within its
    /// cap, and the duration range must be non-empty. Omitted parameters
    /// take the platform defaults.
    pub open spec fn spec_initialize_admin_err(
        e: &Engine,
        fee_bps: Option<u16>,
        min_duration: Option<u64>,
        max_duration: Option<u64>,
    ) -> Option<EngineError> {
        let fee = (match fee_bps {
            Some(f) => f,
            None => DEFAULT_PROTOCOL_FEE_BPS,
        });
        let mn = (match min_duration {
            Some(d) => d,
            None => DEFAULT_MIN_STUDY_DURATION,
        });
        let mx = (match max_duration {
            Some(d) => d,
            None => DEFAULT_MAX_STUDY_DURATION,
        });
        if e.admin is Some {
            Some(EngineError::AdminAlreadyInitialized)
        } else if fee > MAX_PROTOCOL_FEE_BPS {
            Some(EngineError::ExcessiveProtocolFee)
        } else if mx <= mn {
            Some(EngineError::InvalidDurationBounds)
        } else {
            None
        }
    }

    /// The configuration `initialize_admin` creates on success.
    pub open spec fn spec_initial_admin(
        admin: u64,
        fee_bps: Option<u16>,
        min_duration: Option<u64>,
        max_duration: Option<u64>,
    ) -> AdminConfig {
        AdminConfig {
            admin,
            protocol_fee_bps: (match fee_bps {
                Some(f) => f,
                None => DEFAULT_PROTOCOL_FEE_BPS,
            }),
            min_study_duration: (match min_duration {
                Some(d) => d,
                None => DEFAULT_MIN_STUDY_DURATION,
            }),
            max_study_duration: (match max_duration {
                Some(d) => d,
                None => DEFAULT_MAX_STUDY_DURATION,
            }),
            total_studies: 0,
            total_participants: 0,
            total_rewards_distributed: 0,
        }
    }

    /// Creates the singleton protocol configuration with all counters at
    /// zero. Can happen once; later attempts fail.
    pub fn initialize_admin(
        &mut self,
        admin: u64,
        fee_bps: Option<u16>,
        min_duration: Option<u64>,
        max_duration: Option<u64>,
    ) -> (result: Result<(), EngineError>)
        requires
            old(self).wf(),
        ensures
            final(self).wf(),
            (match Self::spec_initialize_admin_err(old(self), fee_bps, min_duration, max_duration) {
                Some(e) => result == Err::<(), EngineError>(e) && Self::spec_same_state(
                    *final(self),
                    *old(self),
                ),
                None => {
                    &&& result == Ok::<(), EngineError>(())
                    &&& final(self).admin == Some(
                        Self::spec_initial_admin(admin, fee_bps, min_duration, max_duration),
                    )
                    &&& final(self).studies@ == old(self).studies@
                    &&& final(self).consents@ == old(self).consents@
                    &&& final(self).submissions@ == old(self).submissions@
                    &&& final(self).vaults@ == old(self).vaults@
                },
            }),
    {
        if self.admin.is_some() {
            return Err(EngineError::AdminAlreadyInitialized);
        }
        let fee = match fee_bps {
            Some(f) => f,
            None => DEFAULT_PROTOCOL_FEE_BPS,
        };
        let mn = match min_duration {
            Some(d) => d,
            None => DEFAULT_MIN_STUDY_DURATION,
        };
        let mx = match max_duration {
            Some(d) => d,
            None => DEFAULT_MAX_STUDY_DURATION,
        };
        if fee > MAX_PROTOCOL_FEE_BPS {
            return Err(EngineError::ExcessiveProtocolFee);
        }
        if mx <= mn {
            return Err(EngineError::InvalidDurationBounds);
        }
        self.admin = Some(
            AdminConfig {
                admin,
                protocol_fee_bps: fee,
                min_study_duration: mn,
                max_study_duration: mx,
                total_studies: 0,
                total_participants: 0,
                total_rewards_distributed: 0,
            },
        );
        Ok(())
    }

    /// The error `create_study` reports, or `None` where it succeeds. The
    /// checks run in this order: configuration present, identifier fresh,
    /// texts within bounds, capacity within the platform cap, boundaries
    /// ordered, start in the future, enrollment window long enough, total
    /// duration within the configured range, and the study counter still
    /// countable.
    pub open spec fn spec_create_study_err(
        e: &Engine,
        params: &StudyParams,
        now: i64,
    ) -> Option<EngineError> {
        if e.admin is None {
            Some(EngineError::AdminNotInitialized)
        } else if has_study(e.studies@, params.study_id) {
            Some(EngineError::StudyAlreadyExists)
        } else if params.title@.len() > MAX_TITLE_LEN {
            Some(EngineError::TitleTooLong)
        } else if params.description@.len() > MAX_DESCRIPTION_LEN {
            Some(EngineError::DescriptionTooLong)
        } else if params.max_participants == 0 || params.max_participants
            > MAX_PARTICIPANTS_PER_STUDY {
            Some(EngineError::InvalidMaxParticipants)
        } else if params.enrollment_end <= params.enrollment_start {
            Some(EngineError::InvalidEnrollmentEnd)
        } else if params.data_collection_end <= params.enrollment_end {
            Some(EngineError::InvalidDataCollectionEnd)
        } else if params.enrollment_start <= now {
            Some(EngineError::InvalidEnrollmentStart)
        } else if params.enrollment_end - params.enrollment_start < MIN_ENROLLMENT_WINDOW {
            Some(EngineError::InvalidEnrollmentPeriod)
        } else if params.data_collection_end - params.enrollment_start
            < e.admin.unwrap().min_study_duration || params.data_collection_end
            - params.enrollment_start > e.admin.unwrap().max_study_duration {
            Some(EngineError::InvalidStudyDuration)
        } else if e.admin.unwrap().total_studies == u64::MAX {
            Some(EngineError::ArithmeticOverflow)
        } else {
            None
        }
    }

    /// The study `create_study` records on success: the given parameters,
    /// all counters zero, no criteria, in Draft.
    pub open spec fn spec_new_study(params: &StudyParams, researcher: u64, now: i64) -> Study {
        Study {
            study_id: params.study_id,
            researcher,
            title: params.title,
            description: params.description,
            enrollment_start: params.enrollment_start,
            enrollment_end: params.enrollment_end,
            data_collection_end: params.data_collection_end,
            max_participants: params.max_participants,
            enrolled_count: 0,
            completed_count: 0,
            reward_amount_per_participant: params.reward_amount_per_participant,
            total_rewards_distributed: 0,
            status: StudyStatus::Draft,
            created_at: now,
            criteria: None,
        }
    }

    /// Creates a study in Draft owned by `researcher`, after validating
    /// every bound against the configuration and the clock reading `now`.
    /// Advances the global study counter in the same atomic step.
    pub fn create_study(&mut self, researcher: u64, now: i64, params: StudyParams) -> (result:
        Result<(), EngineError>)
        requires
            old(self).wf(),
        ensures
            final(self).wf(),
            (match Self::spec_create_study_err(old(self), &params, now) {
                Some(e) => result == Err::<(), EngineError>(e) && Self::spec_same_state(
                    *final(self),
                    *old(self),
                ),
                None => {
                    &&& result == Ok::<(), EngineError>(())
                    &&& final(self).studies@ == old(self).studies@.push(
                        Self::spec_new_study(&params, researcher, now),
                    )
                    &&& final(self).consents@ == old(self).consents@
                    &&& final(self).submissions@ == old(self).submissions@
                    &&& final(self).vaults@ == old(self).vaults@
                    &&& final(self).admin == Some(
                        AdminConfig {
                            total_studies: (old(self).admin.unwrap().total_studies + 1) as u64,
                            ..old(self).admin.unwrap()
                        },
                    )
                },
            }),
    {
        let cfg = match self.admin {
            Some(a) => a,
            None => {
                return Err(EngineError::AdminNotInitialized);
            },
        };
        if find_study(&self.studies, params.study_id).is_some() {
            return Err(EngineError::StudyAlreadyExists);
        }
        if params.title.as_str().unicode_len() > MAX_TITLE_LEN {
            return Err(EngineError::TitleTooLong);
        }
        if params.description.as_str().unicode_len() > MAX_DESCRIPTION_LEN {
            return Err(EngineError::DescriptionTooLong);
        }
        if params.max_participants == 0 || params.max_participants > MAX_PARTICIPANTS_PER_STUDY {
            return Err(EngineError::InvalidMaxParticipants);
        }
        if params.enrollment_end <= params.enrollment_start {
            return Err(EngineError::InvalidEnrollmentEnd);
        }
        if params.data_collection_end <= params.enrollment_end {
            return Err(EngineError::InvalidDataCollectionEnd);
        }
        if params.enrollment_start <= now {
            return Err(EngineError::InvalidEnrollmentStart);
        }
        let window: i128 = params.enrollment_end as i128 - params.enrollment_start as i128;
        if window < MIN_ENROLLMENT_WINDOW as i128 {
            return Err(EngineError::InvalidEnrollmentPeriod);
        }
        let duration: i128 = params.data_collection_end as i128 - params.enrollment_start as i128;
        if duration < cfg.min_study_duration as i128 || duration > cfg.max_study_duration as i128 {
            return Err(EngineError::InvalidStudyDuration);
        }
        if cfg.total_studies == u64::MAX {
            return Err(EngineError::ArithmeticOverflow);
        }
        let study = Study {
            study_id: params.study_id,
            researcher,
            title: params.title,
            description: params.description,
            enrollment_start: params.enrollment_start,
            enrollment_end: params.enrollment_end,
            data_collection_end: params.data_collection_end,
            max_participants: params.max_participants,
            enrolled_count: 0,
            completed_count: 0,
            reward_amount_per_participant: params.reward_amount_per_participant,
            total_rewards_distributed: 0,
            status: StudyStatus::Draft,
            created_at: now,
            criteria: None,
        };
        proof {
            lemma_studies_push_unique(self.studies@, study);
        }
        let ghost pre_studies = self.studies@;
        self.studies.push(study);
        self.admin = Some(
            AdminConfig {
                admin: cfg.admin,
                protocol_fee_bps: cfg.protocol_fee_bps,
                min_study_duration: cfg.min_study_duration,
                max_study_duration: cfg.max_study_duration,
                total_studies: cfg.total_studies + 1,
                total_participants: cfg.total_participants,
                total_rewards_distributed: cfg.total_rewards_distributed,
            },
        );
        proof {
            assert forall|i: int| 0 <= i < self.studies@.len() implies (#[trigger] self.studies@[i]).spec_ok() by {
                if i < pre_studies.len() {
                    assert(self.studies@[i] == pre_studies[i]);
                }
            }
            assert forall|i: int|
                0 <= i < self.consents@.len() implies has_study(
                self.studies@,
                (#[trigger] self.consents@[i]).study_id,
            ) by {
                lemma_has_study_push(pre_studies, study, self.consents@[i].study_id);
            }
            assert forall|i: int|
                0 <= i < self.vaults@.len() implies has_study(
                self.studies@,
                (#[trigger] self.vaults@[i]).study_id,
            ) by {
                lemma_has_study_push(pre_studies, study, self.vaults@[i].study_id);
            }
            assert forall|i: int|
                0 <= i < self.studies@.len() implies Self::study_accounting_ok(
                #[trigger] self.studies@[i],
                self.vaults@,
            ) by {
                if i < pre_studies.len() {
                    assert(self.studies@[i] == pre_studies[i]);
                    assert(Self::study_accounting_ok(pre_studies[i], self.vaults@));
                } else {
                    assert(self.studies@[i] == study);
                    if has_vault(self.vaults@, study.study_id) {
                        let k = vault_index(self.vaults@, study.study_id);
                        assert(has_study(pre_studies, self.vaults@[k].study_id));
                    }
                }
            }
            broadcast use vstd::set::group_set_axioms;

            assert forall|p: u64| !has_consent(self.consents@, study.study_id, p) by {
                if has_consent(self.consents@, study.study_id, p) {
                    let k = choose|k: int|
                        0 <= k < self.consents@.len() && #[trigger] self.consents@[k].study_id
                            == study.study_id && self.consents@[k].participant == p;
                    assert(has_study(pre_studies, self.consents@[k].study_id));
                }
            }
            assert forall|p: u64| !has_settled_submission(self.submissions@, study.study_id, p) by {
                if has_settled_submission(self.submissions@, study.study_id, p) {
                    let k = choose|k: int|
                        0 <= k < self.submissions@.len() && #[trigger] self.submissions@[k].study_id
                            == study.study_id && self.submissions@[k].participant == p
                            && self.submissions@[k].reward_distributed;
                    assert(has_consent(
                        self.consents@,
                        self.submissions@[k].study_id,
                        self.submissions@[k].participant,
                    ));
                }
            }
            lemma_consent_holders(self.consents@, study.study_id);
            lemma_settled_participants(self.submissions@, study.study_id);
            assert(consent_holders(self.consents@, study.study_id) =~= Set::<u64>::empty());
            assert(settled_participants(self.submissions@, study.study_id) =~= Set::<u64>::empty());
            assert forall|i: int|
                0 <= i < self.studies@.len() implies Self::study_counters_ok(
                #[trigger] self.studies@[i],
                self.consents@,
                self.submissions@,
            ) by {
                if i < pre_studies.len() {
                    assert(self.studies@[i] == pre_studies[i]);
                    assert(Self::study_counters_ok(
                        pre_studies[i],
                        self.consents@,
                        self.submissions@,
                    ));
                } else {
                    assert(self.studies@[i] == study);
                }
            }
        }
        Ok(())
    }
    /// The error `publish_study` reports, or `None` where it succeeds:
    /// the study must exist, the actor must be its researcher, it must be
    /// in Draft, and its enrollment start must not have passed.
    pub open spec fn spec_publish_study_err(e: &Engine, study_id: u64, actor: u64, now: i64) -> Option<
        EngineError,
    > {
        if !has_study(e.studies@, study_id) {
            Some(EngineError::StudyNotFound)
        } else if study_of(e.studies@, study_id).researcher != actor {
            Some(EngineError::UnauthorizedResearcher)
        } else if study_of(e.studies@, study_id).status != StudyStatus::Draft {
            Some(EngineError::InvalidStudyState)
        } else if study_of(e.studies@, study_id).enrollment_start < now {
            Some(EngineError::InvalidEnrollmentStart)
        } else {
            None
        }
    }

    /// Moves a Draft study to Published, opening it for enrollment.
    pub fn publish_study(&mut self, study_id: u64, actor: u64, now: i64) -> (result: Result<
        (),
        EngineError,
    >)
        requires
            old(self).wf(),
        ensures
            final(self).wf(),
            (match Self::spec_publish_study_err(old(self), study_id, actor, now) {
                Some(e) => result == Err::<(), EngineError>(e) && Self::spec_same_state(
                    *final(self),
                    *old(self),
                ),
                None => {
                    &&& result == Ok::<(), EngineError>(())
                    &&& final(self).studies@ == old(self).studies@.update(
                        study_index(old(self).studies@, study_id),
                        (Study {
                            status: StudyStatus::Published,
                            ..study_of(old(self).studies@, study_id)
                        }),
                    )
                    &&& final(self).consents@ == old(self).consents@
                    &&& final(self).submissions@ == old(self).submissions@
                    &&& final(self).vaults@ == old(self).vaults@
                    &&& final(self).admin == old(self).admin
                },
            }),
    {
        let i = match find_study(&self.studies, study_id) {
            Some(i) => i,
            None => {
                return Err(EngineError::StudyNotFound);
            },
        };
        proof {
            lemma_study_index(self.studies@, study_id, i as int);
        }
        if self.studies[i].researcher != actor {
            return Err(EngineError::UnauthorizedResearcher);
        }
        if self.studies[i].status != StudyStatus::Draft {
            return Err(EngineError::InvalidStudyState);
        }
        if self.studies[i].enrollment_start < now {
            return Err(EngineError::InvalidEnrollmentStart);
        }
        let ghost pre_studies = self.studies@;
        let st = &mut self.studies[i];
        st.status = StudyStatus::Published;
        proof {
            self.lemma_studies_updated(pre_studies, i as int);
        }
        Ok(())
    }

    /// The error `close_study` reports, or `None` where it succeeds: the
    /// study must exist, the actor must be its researcher, and the study
    /// must not already be Closed or Archived.
    pub open spec fn spec_close_study_err(e: &Engine, study_id: u64, actor: u64) -> Option<
        EngineError,
    > {
        if !has_study(e.studies@, study_id) {
            Some(EngineError::StudyNotFound)
        } else if study_of(e.studies@, study_id).researcher != actor {
            Some(EngineError::UnauthorizedResearcher)
        } else if study_of(e.studies@, study_id).status == StudyStatus::Closed || study_of(
            e.studies@,
            study_id,
        ).status == StudyStatus::Archived {
            Some(EngineError::InvalidStudyState)
        } else {
            None
        }
    }

    /// Permanently closes a study to new enrollments and submissions, and
    /// reports its final enrolled and completed counts for the audit trail.
    pub fn close_study(&mut self, study_id: u64, actor: u64) -> (result: Result<
        (u32, u32),
        EngineError,
    >)
        requires
            old(self).wf(),
        ensures
            final(self).wf(),
            (match Self::spec_close_study_err(old(self), study_id, actor) {
                Some(e) => result == Err::<(u32, u32), EngineError>(e) && Self::spec_same_state(
                    *final(self),
                    *old(self),
                ),
                None => {
                    &&& result == Ok::<(u32, u32), EngineError>(
                        (
                            study_of(old(self).studies@, study_id).enrolled_count,
                            study_of(old(self).studies@, study_id).completed_count,
                        ),
                    )
                    &&& final(self).studies@ == old(self).studies@.update(
                        study_index(old(self).studies@, study_id),
                        (Study {
                            status: StudyStatus::Closed,
                            ..study_of(old(self).studies@, study_id)
                        }),
                    )
                    &&& final(self).consents@ == old(self).consents@
                    &&& final(self).submissions@ == old(self).submissions@
                    &&& final(self).vaults@ == old(self).vaults@
                    &&& final(self).admin == old(self).admin
                },
            }),
    {
        let i = match find_study(&self.studies, study_id) {
            Some(i) => i,
            None => {
                return Err(EngineError::StudyNotFound);
            },
        };
        proof {
            lemma_study_index(self.studies@, study_id, i as int);
        }
        if self.studies[i].researcher != actor {
            return Err(EngineError::UnauthorizedResearcher);
        }
        if self.studies[i].status == StudyStatus::Closed || self.studies[i].status
            == StudyStatus::Archived {
            return Err(EngineError::InvalidStudyState);
        }
        let enrolled = self.studies[i].enrolled_count;
        let completed = self.studies[i].completed_count;
        let ghost pre_studies = self.studies@;
        let st = &mut self.studies[i];
        st.status = StudyStatus::Closed;
        proof {
            self.lemma_studies_updated(pre_studies, i as int);
        }
        Ok((enrolled, completed))
    }

    /// The error `transition_study_state` reports, or `None` where it
    /// succeeds: the study must exist and be Published or Active; Draft,
    /// Closed and Archived studies reject the call.
    pub open spec fn spec_transition_err(e: &Engine, study_id: u64) -> Option<EngineError> {
        if !has_study(e.studies@, study_id) {
            Some(EngineError::StudyNotFound)
        } else if study_of(e.studies@, study_id).status != StudyStatus::Published && study_of(
            e.studies@,
            study_id,
        ).status != StudyStatus::Active {
            Some(EngineError::InvalidStudyState)
        } else {
            None
        }
    }

    /// The time-driven transition, callable by anyone: a Published study
    /// becomes Active once its enrollment window has ended; otherwise the
    /// call succeeds without changing anything, so retrying is always safe.
    /// Reports the (possibly unchanged) status.
    pub fn transition_study_state(&mut self, study_id: u64, now: i64) -> (result: Result<
        StudyStatus,
        EngineError,
    >)
        requires
            old(self).wf(),
        ensures
            final(self).wf(),
            (match Self::spec_transition_err(old(self), study_id) {
                Some(e) => result == Err::<StudyStatus, EngineError>(e) && Self::spec_same_state(
                    *final(self),
                    *old(self),
                ),
                None => {
                    &&& result == Ok::<StudyStatus, EngineError>(
                        spec_transitioned(study_of(old(self).studies@, study_id), now).status,
                    )
                    &&& final(self).studies@ == old(self).studies@.update(
                        study_index(old(self).studies@, study_id),
                        spec_transitioned(study_of(old(self).studies@, study_id), now),
                    )
                    &&& final(self).consents@ == old(self).consents@
                    &&& final(self).submissions@ == old(self).submissions@
                    &&& final(self).vaults@ == old(self).vaults@
                    &&& final(self).admin == old(self).admin
                },
            }),
    {
        let i = match find_study(&self.studies, study_id) {
            Some(i) => i,
            None => {
                return Err(EngineError::StudyNotFound);
            },
        };
        proof {
            lemma_study_index(self.studies@, study_id, i as int);
        }
        let status = self.studies[i].status;
        if status != StudyStatus::Published && status != StudyStatus::Active {
            return Err(EngineError::InvalidStudyState);
        }
        let ghost pre_studies = self.studies@;
        let new_status: StudyStatus = if status == StudyStatus::Published && now
            >= self.studies[i].enrollment_end {
            StudyStatus::Active
        } else {
            status
        };
        let st = &mut self.studies[i];
        st.status = new_status;
        proof {
            assert(self.studies@ =~= pre_studies.update(
                i as int,
                spec_transitioned(pre_studies[i as int], now),
            ));
            self.lemma_studies_updated(pre_studies, i as int);
        }
        Ok(new_status)
    }

    /// The error `set_eligibility_criteria` reports, or `None` where it
    /// succeeds: the study must exist, the actor must be its researcher,
    /// the study must still be in Draft, and the criteria record must be
    /// valid.
    pub open spec fn spec_set_criteria_err(
        e: &Engine,
        study_id: u64,
        actor: u64,
        criteria: &EligibilityCriteria,
    ) -> Option<EngineError> {
        if !has_study(e.studies@, study_id) {
            Some(EngineError::StudyNotFound)
        } else if study_of(e.studies@, study_id).researcher != actor {
            Some(EngineError::UnauthorizedResearcher)
        } else if study_of(e.studies@, study_id).status != StudyStatus::Draft {
            Some(EngineError::InvalidStudyState)
        } else if !criteria.spec_valid() {
            Some(EngineError::InvalidCriteria)
        } else {
            None
        }
    }

    /// Stores validated eligibility rules on a Draft study; from then on
    /// enrollment demands a passing eligibility proof.
    pub fn set_eligibility_criteria(
        &mut self,
        study_id: u64,
        actor: u64,
        criteria: EligibilityCriteria,
    ) -> (result: Result<(), EngineError>)
        requires
            old(self).wf(),
        ensures
            final(self).wf(),
            (match Self::spec_set_criteria_err(old(self), study_id, actor, &criteria) {
                Some(e) => result == Err::<(), EngineError>(e) && Self::spec_same_state(
                    *final(self),
                    *old(self),
                ),
                None => {
                    &&& result == Ok::<(), EngineError>(())
                    &&& final(self).studies@ == old(self).studies@.update(
                        study_index(old(self).studies@, study_id),
                        (Study {
                            criteria: Some(criteria),
                            ..study_of(old(self).studies@, study_id)
                        }),
                    )
                    &&& final(self).consents@ == old(self).consents@
                    &&& final(self).submissions@ == old(self).submissions@
                    &&& final(self).vaults@ == old(self).vaults@
                    &&& final(self).admin == old(self).admin
                },
            }),
    {
        let i = match find_study(&self.studies, study_id) {
            Some(i) => i,
            None => {
                return Err(EngineError::StudyNotFound);
            },
        };
        proof {
            lemma_study_index(self.studies@, study_id, i as int);
        }
        if self.studies[i].researcher != actor {
            return Err(EngineError::UnauthorizedResearcher);
        }
        if self.studies[i].status != StudyStatus::Draft {
            return Err(EngineError::InvalidStudyState);
        }
        if !criteria.validate() {
            return Err(EngineError::InvalidCriteria);
        }
        let ghost pre_studies = self.studies@;
        let st = &mut self.studies[i];
        st.criteria = Some(criteria);
        proof {
            self.lemma_studies_updated(pre_studies, i as int);
        }
        Ok(())
    }

    /// The error `enroll` reports, or `None` where it succeeds. In order:
    /// the study must exist and be Published, the participant must not
    /// already hold a consent (checked before capacity, so a duplicate is
    /// always reported as such, even when the first enrollment filled the
    /// study), the study must have free capacity, the clock must be within
    /// the enrollment window, and where the study has criteria the
    /// supplied proof must exist and pass the evaluator.
    pub open spec fn spec_enroll_err(
        e: &Engine,
        study_id: u64,
        participant: u64,
        now: i64,
        info: &Option<ParticipantInfo>,
    ) -> Option<EngineError> {
        if !has_study(e.studies@, study_id) {
            Some(EngineError::StudyNotFound)
        } else if study_of(e.studies@, study_id).status != StudyStatus::Published {
            Some(EngineError::StudyNotPublished)
        } else if has_consent(e.consents@, study_id, participant) {
            Some(EngineError::AlreadyEnrolled)
        } else if study_of(e.studies@, study_id).enrolled_count >= study_of(
            e.studies@,
            study_id,
        ).max_participants {
            Some(EngineError::StudyFull)
        } else if now < study_of(e.studies@, study_id).enrollment_start || now > study_of(
            e.studies@,
            study_id,
        ).enrollment_end {
            Some(EngineError::EnrollmentClosed)
        } else if study_of(e.studies@, study_id).criteria is Some && info is None {
            Some(EngineError::InvalidEligibilityProof)
        } else if study_of(e.studies@, study_id).criteria is Some && !spec_eligible(
            &study_of(e.studies@, study_id).criteria.unwrap(),
            &info.unwrap(),
        ) {
            Some(EngineError::NotEligible)
        } else if e.admin.unwrap().total_participants == u64::MAX {
            Some(EngineError::ArithmeticOverflow)
        } else {
            None
        }
    }

    /// The consent `enroll` records on success.
    pub open spec fn spec_new_consent(
        study_id: u64,
        participant: u64,
        now: i64,
        info: Option<ParticipantInfo>,
        credential: u64,
    ) -> Consent {
        Consent {
            study_id,
            participant,
            timestamp: now,
            is_revoked: false,
            revocation_timestamp: None,
            info,
            credential,
        }
    }

    /// Enrolls a participant into a Published study: checks capacity,
    /// window and eligibility, records the consent under the fresh
    /// (study, participant) key, and advances the study's enrolled count
    /// and the global participant counter in the same atomic step.
    /// `credential` is the reference to the externally minted enrollment
    /// credential the host issued for this consent.
    pub fn enroll(
        &mut self,
        study_id: u64,
        participant: u64,
        now: i64,
        info: Option<ParticipantInfo>,
        credential: u64,
    ) -> (result: Result<(), EngineError>)
        requires
            old(self).wf(),
        ensures
            final(self).wf(),
            (match Self::spec_enroll_err(old(self), study_id, participant, now, &info) {
                Some(e) => result == Err::<(), EngineError>(e) && Self::spec_same_state(
                    *final(self),
                    *old(self),
                ),
                None => {
                    &&& result == Ok::<(), EngineError>(())
                    &&& final(self).consents@ == old(self).consents@.push(
                        Self::spec_new_consent(study_id, participant, now, info, credential),
                    )
                    &&& final(self).studies@ == old(self).studies@.update(
                        study_index(old(self).studies@, study_id),
                        (Study {
                            enrolled_count: (study_of(old(self).studies@, study_id).enrolled_count
                                + 1) as u32,
                            ..study_of(old(self).studies@, study_id)
                        }),
                    )
                    &&& final(self).submissions@ == old(self).submissions@
                    &&& final(self).vaults@ == old(self).vaults@
                    &&& final(self).admin == Some(
                        AdminConfig {
                            total_participants: (old(self).admin.unwrap().total_participants
                                + 1) as u64,
                            ..old(self).admin.unwrap()
                        },
                    )
                },
            }),
    {
        let i = match find_study(&self.studies, study_id) {
            Some(i) => i,
            None => {
                return Err(EngineError::StudyNotFound);
            },
        };
        proof {
            lemma_study_index(self.studies@, study_id, i as int);
        }
        if self.studies[i].status != StudyStatus::Published {
            return Err(EngineError::StudyNotPublished);
        }
        if find_consent(&self.consents, study_id, participant).is_some() {
            return Err(EngineError::AlreadyEnrolled);
        }
        if self.studies[i].enrolled_count >= self.studies[i].max_participants {
            return Err(EngineError::StudyFull);
        }
        if now < self.studies[i].enrollment_start || now > self.studies[i].enrollment_end {
            return Err(EngineError::EnrollmentClosed);
        }
        match &self.studies[i].criteria {
            Some(c) => {
                match &info {
                    Some(pi) => {
                        if !evaluate(c, pi) {
                            return Err(EngineError::NotEligible);
                        }
                    },
                    None => {
                        return Err(EngineError::InvalidEligibilityProof);
                    },
                }
            },
            None => {},
        }
        let cfg = match self.admin {
            Some(a) => a,
            None => unreached(),
        };
        if cfg.total_participants == u64::MAX {
            return Err(EngineError::ArithmeticOverflow);
        }
        let consent = Consent {
            study_id,
            participant,
            timestamp: now,
            is_revoked: false,
            revocation_timestamp: None,
            info,
            credential,
        };
        let ghost pre = *self;
        proof {
            crate::records::lemma_consents_push_unique(self.consents@, consent);
        }
        self.consents.push(consent);
        let enrolled = self.studies[i].enrolled_count;
        let st = &mut self.studies[i];
        st.enrolled_count = enrolled + 1;
        let new_cfg = AdminConfig {
            admin: cfg.admin,
            protocol_fee_bps: cfg.protocol_fee_bps,
            min_study_duration: cfg.min_study_duration,
            max_study_duration: cfg.max_study_duration,
            total_studies: cfg.total_studies,
            total_participants: cfg.total_participants + 1,
            total_rewards_distributed: cfg.total_rewards_distributed,
        };
        self.admin = Some(new_cfg);
        proof {
            crate::study::lemma_studies_update_same_id(pre.studies@, i as int, self.studies@[i as int]);
            assert forall|k: int| 0 <= k < self.studies@.len() implies (
            #[trigger] self.studies@[k]).spec_ok() by {
                if k != i as int {
                    assert(self.studies@[k] == pre.studies@[k]);
                }
            }
            assert forall|k: int|
                0 <= k < self.consents@.len() implies has_study(
                self.studies@,
                (#[trigger] self.consents@[k]).study_id,
            ) by {
                if k < pre.consents@.len() {
                    assert(self.consents@[k] == pre.consents@[k]);
                    assert(has_study(pre.studies@, pre.consents@[k].study_id));
                } else {
                    assert(self.consents@[k] == consent);
                    assert(has_study(pre.studies@, study_id));
                }
            }
            assert forall|k: int|
                0 <= k < self.submissions@.len() implies {
                let sb = #[trigger] self.submissions@[k];
                &&& has_consent(self.consents@, sb.study_id, sb.participant)
                &&& !consent_of(self.consents@, sb.study_id, sb.participant).is_revoked
            } by {
                let sb = self.submissions@[k];
                assert(has_consent(pre.consents@, sb.study_id, sb.participant));
                crate::records::lemma_consent_push_lookup(
                    pre.consents@,
                    consent,
                    sb.study_id,
                    sb.participant,
                );
            }
            assert forall|k: int|
                0 <= k < self.consents@.len() implies ((#[trigger] self.consents@[k]).is_revoked
                <==> self.consents@[k].revocation_timestamp is Some) by {
                if k < pre.consents@.len() {
                    assert(self.consents@[k] == pre.consents@[k]);
                }
            }
            broadcast use vstd::set::group_set_axioms;

            lemma_consent_holders(pre.consents@, study_id);
            assert forall|m: int|
                0 <= m < self.studies@.len() implies Self::study_counters_ok(
                #[trigger] self.studies@[m],
                self.consents@,
                self.submissions@,
            ) by {
                let s_m = self.studies@[m];
                assert(Self::study_counters_ok(pre.studies@[m], pre.consents@, pre.submissions@));
                lemma_consent_holders_push(pre.consents@, consent, s_m.study_id);
                if m == i as int {
                    // The enrolling study gains exactly this one holder.
                    assert(!consent_holders(pre.consents@, study_id).contains(participant));
                } else {
                    assert(s_m == pre.studies@[m]);
                    assert(pre.studies@[i as int].study_id == study_id);
                    assert(s_m.study_id != study_id);
                }
            }
        }
        Ok(())
    }

    /// The error `revoke_consent` reports, or `None` where it succeeds:
    /// the consent must exist, the actor must be the participant, the
    /// consent must not already be revoked, and no data may have been
    /// submitted under the key.
    pub open spec fn spec_revoke_err(
        e: &Engine,
        study_id: u64,
        participant: u64,
        actor: u64,
    ) -> Option<EngineError> {
        if !has_consent(e.consents@, study_id, participant) {
            Some(EngineError::ConsentNotFound)
        } else if actor != participant {
            Some(EngineError::UnauthorizedParticipant)
        } else if consent_of(e.consents@, study_id, participant).is_revoked {
            Some(EngineError::ConsentRevoked)
        } else if has_submission(e.submissions@, study_id, participant) {
            Some(EngineError::AlreadySubmitted)
        } else {
            None
        }
    }

    /// Withdraws a participant's consent: marks it revoked with the
    /// revocation time. Impossible once data was submitted for the key,
    /// so a revoked consent never sits under a submission. The enrolled
    /// count of the study deliberately keeps counting the withdrawn
    /// participant: a consent slot, once taken, is never reopened.
    pub fn revoke_consent(&mut self, study_id: u64, participant: u64, actor: u64, now: i64) -> (
        result: Result<(), EngineError>)
        requires
            old(self).wf(),
        ensures
            final(self).wf(),
            (match Self::spec_revoke_err(old(self), study_id, participant, actor) {
                Some(e) => result == Err::<(), EngineError>(e) && Self::spec_same_state(
                    *final(self),
                    *old(self),
                ),
                None => {
                    &&& result == Ok::<(), EngineError>(())
                    &&& final(self).consents@ == old(self).consents@.update(
                        consent_index(old(self).consents@, study_id, participant),
                        (Consent {
                            is_revoked: true,
                            revocation_timestamp: Some(now),
                            ..consent_of(old(self).consents@, study_id, participant)
                        }),
                    )
                    &&& final(self).studies@ == old(self).studies@
                    &&& final(self).submissions@ == old(self).submissions@
                    &&& final(self).vaults@ == old(self).vaults@
                    &&& final(self).admin == old(self).admin
                },
            }),
    {
        let i = match find_consent(&self.consents, study_id, participant) {
            Some(i) => i,
            None => {
                return Err(EngineError::ConsentNotFound);
            },
        };
        proof {
            crate::records::lemma_consent_index(self.consents@, study_id, participant, i as int);
        }
        if actor != participant {
            return Err(EngineError::UnauthorizedParticipant);
        }
        if self.consents[i].is_revoked {
            return Err(EngineError::ConsentRevoked);
        }
        if find_submission(&self.submissions, study_id, participant).is_some() {
            return Err(EngineError::AlreadySubmitted);
        }
        let ghost pre = *self;
        let c = &mut self.consents[i];
        c.is_revoked = true;
        c.revocation_timestamp = Some(now);
        proof {
            crate::records::lemma_consents_update_same_key(
                pre.consents@,
                i as int,
                self.consents@[i as int],
            );
            assert forall|k: int|
                0 <= k < self.consents@.len() implies has_study(
                self.studies@,
                (#[trigger] self.consents@[k]).study_id,
            ) by {
                if k != i as int {
                    assert(self.consents@[k] == pre.consents@[k]);
                }
                assert(has_study(pre.studies@, pre.consents@[k].study_id));
            }
            assert forall|k: int|
                0 <= k < self.submissions@.len() implies {
                let sb = #[trigger] self.submissions@[k];
                &&& has_consent(self.consents@, sb.study_id, sb.participant)
                &&& !consent_of(self.consents@, sb.study_id, sb.participant).is_revoked
            } by {
                let sb = self.submissions@[k];
                assert(has_consent(pre.consents@, sb.study_id, sb.participant));
                if sb.study_id == study_id && sb.participant == participant {
                    assert(has_submission(pre.submissions@, study_id, participant));
                }
            }
            assert forall|k: int|
                0 <= k < self.consents@.len() implies ((#[trigger] self.consents@[k]).is_revoked
                <==> self.consents@[k].revocation_timestamp is Some) by {
                if k != i as int {
                    assert(self.consents@[k] == pre.consents@[k]);
                }
            }
            assert forall|m: int|
                0 <= m < self.studies@.len() implies Self::study_counters_ok(
                #[trigger] self.studies@[m],
                self.consents@,
                self.submissions@,
            ) by {
                let s_m = self.studies@[m];
                assert(Self::study_counters_ok(s_m, pre.consents@, pre.submissions@));
                lemma_consent_holders_update(
                    pre.consents@,
                    i as int,
                    self.consents@[i as int],
                    s_m.study_id,
                );
            }
        }
        Ok(())
    }

    /// The error `submit_data` reports, or `None` where it succeeds: the
    /// study must exist and be Published or Active, the participant must
    /// hold an unrevoked consent and no earlier submission, the content
    /// identifier and data hash must be well-formed, and the
    /// data-collection deadline must not have passed.
    pub open spec fn spec_submit_err(
        e: &Engine,
        study_id: u64,
        participant: u64,
        now: i64,
        data_hash: [u8; 32],
        content_id: &String,
    ) -> Option<EngineError> {
        if !has_study(e.studies@, study_id) {
            Some(EngineError::StudyNotFound)
        } else if study_of(e.studies@, study_id).status != StudyStatus::Published && study_of(
            e.studies@,
            study_id,
        ).status != StudyStatus::Active {
            Some(EngineError::InvalidStudyState)
        } else if !has_consent(e.consents@, study_id, participant) {
            Some(EngineError::ConsentNotFound)
        } else if consent_of(e.consents@, study_id, participant).is_revoked {
            Some(EngineError::ConsentRevoked)
        } else if has_submission(e.submissions@, study_id, participant) {
            Some(EngineError::AlreadySubmitted)
        } else if content_id@.len() < MIN_CONTENT_ID_LEN || content_id@.len()
            > MAX_CONTENT_ID_LEN {
            Some(EngineError::InvalidContentId)
        } else if !spec_hash_nonzero(data_hash) {
            Some(EngineError::InvalidDataHash)
        } else if now > study_of(e.studies@, study_id).data_collection_end {
            Some(EngineError::DataCollectionClosed)
        } else {
            None
        }
    }

    /// The submission `submit_data` records on success.
    pub open spec fn spec_new_submission(
        study_id: u64,
        participant: u64,
        now: i64,
        data_hash: [u8; 32],
        content_id: String,
    ) -> Submission {
        Submission {
            study_id,
            participant,
            data_hash,
            content_id,
            submission_timestamp: now,
            is_verified: false,
            reward_distributed: false,
            completion_credential: None,
        }
    }

    /// Records a participant's encrypted-data submission: one per
    /// (study, participant), resting on an unrevoked consent, within the
    /// data-collection window, with a validated content identifier and a
    /// nonzero hash.
    pub fn submit_data(
        &mut self,
        study_id: u64,
        participant: u64,
        now: i64,
        data_hash: [u8; 32],
        content_id: String,
    ) -> (result: Result<(), EngineError>)
        requires
            old(self).wf(),
        ensures
            final(self).wf(),
            (match Self::spec_submit_err(old(self), study_id, participant, now, data_hash, &content_id) {
                Some(e) => result == Err::<(), EngineError>(e) && Self::spec_same_state(
                    *final(self),
                    *old(self),
                ),
                None => {
                    &&& result == Ok::<(), EngineError>(())
                    &&& final(self).submissions@ == old(self).submissions@.push(
                        Self::spec_new_submission(study_id, participant, now, data_hash, content_id),
                    )
                    &&& final(self).studies@ == old(self).studies@
                    &&& final(self).consents@ == old(self).consents@
                    &&& final(self).vaults@ == old(self).vaults@
                    &&& final(self).admin == old(self).admin
                },
            }),
    {
        let i = match find_study(&self.studies, study_id) {
            Some(i) => i,
            None => {
                return Err(EngineError::StudyNotFound);
            },
        };
        proof {
            lemma_study_index(self.studies@, study_id, i as int);
        }
        if self.studies[i].status != StudyStatus::Published && self.studies[i].status
            != StudyStatus::Active {
            return Err(EngineError::InvalidStudyState);
        }
        let j = match find_consent(&self.consents, study_id, participant) {
            Some(j) => j,
            None => {
                return Err(EngineError::ConsentNotFound);
            },
        };
        proof {
            crate::records::lemma_consent_index(self.consents@, study_id, participant, j as int);
        }
        if self.consents[j].is_revoked {
            return Err(EngineError::ConsentRevoked);
        }
        if find_submission(&self.submissions, study_id, participant).is_some() {
            return Err(EngineError::AlreadySubmitted);
        }
        let cid_len = content_id.as_str().unicode_len();
        if cid_len < MIN_CONTENT_ID_LEN || cid_len > MAX_CONTENT_ID_LEN {
            return Err(EngineError::InvalidContentId);
        }
        if !hash_nonzero(&data_hash) {
            return Err(EngineError::InvalidDataHash);
        }
        if now > self.studies[i].data_collection_end {
            return Err(EngineError::DataCollectionClosed);
        }
        let submission = Submission {
            study_id,
            participant,
            data_hash,
            content_id,
            submission_timestamp: now,
            is_verified: false,
            reward_distributed: false,
            completion_credential: None,
        };
        let ghost pre = *self;
        proof {
            crate::records::lemma_submissions_push_unique(self.submissions@, submission);
        }
        self.submissions.push(submission);
        proof {
            assert forall|k: int|
                0 <= k < self.submissions@.len() implies {
                let sb = #[trigger] self.submissions@[k];
                &&& has_consent(self.consents@, sb.study_id, sb.participant)
                &&& !consent_of(self.consents@, sb.study_id, sb.participant).is_revoked
            } by {
                if k < pre.submissions@.len() {
                    assert(self.submissions@[k] == pre.submissions@[k]);
                    let sb = pre.submissions@[k];
                    assert(has_consent(pre.consents@, sb.study_id, sb.participant));
                } else {
                    crate::records::lemma_consent_index(
                        self.consents@,
                        study_id,
                        participant,
                        j as int,
                    );
                }
            }
            assert forall|m: int|
                0 <= m < self.studies@.len() implies Self::study_counters_ok(
                #[trigger] self.studies@[m],
                self.consents@,
                self.submissions@,
            ) by {
                let s_m = self.studies@[m];
                assert(Self::study_counters_ok(s_m, pre.consents@, pre.submissions@));
                lemma_settled_participants_push(pre.submissions@, submission, s_m.study_id);
            }
        }
        Ok(())
    }

    /// The error `create_reward_vault` reports, or `None` where it
    /// succeeds: the study must exist, the actor must be its researcher,
    /// no vault may exist for it yet, the deposit must cover the full
    /// payout (capacity times per-participant reward, as an exact
    /// mathematical product), and the depositor's balance must cover the
    /// deposit.
    pub open spec fn spec_create_vault_err(
        e: &Engine,
        study_id: u64,
        actor: u64,
        initial_deposit: u64,
        actor_balance: u64,
    ) -> Option<EngineError> {
        if !has_study(e.studies@, study_id) {
            Some(EngineError::StudyNotFound)
        } else if study_of(e.studies@, study_id).researcher != actor {
            Some(EngineError::UnauthorizedResearcher)
        } else if has_vault(e.vaults@, study_id) {
            Some(EngineError::VaultAlreadyExists)
        } else if initial_deposit < study_of(e.studies@, study_id).max_participants * study_of(
            e.studies@,
            study_id,
        ).reward_amount_per_participant {
            Some(EngineError::InsufficientFunds)
        } else if actor_balance < initial_deposit {
            Some(EngineError::InsufficientFunds)
        } else {
            None
        }
    }

    /// Creates the study's reward vault and records the deposit that the
    /// host transferred into custody in the same atomic step. The deposit
    /// must pre-fund every possible payout, so settlement can never drain
    /// the vault below what was promised.
    pub fn create_reward_vault(
        &mut self,
        study_id: u64,
        actor: u64,
        reward_asset: u64,
        initial_deposit: u64,
        actor_balance: u64,
    ) -> (result: Result<(), EngineError>)
        requires
            old(self).wf(),
        ensures
            final(self).wf(),
            (match Self::spec_create_vault_err(
                old(self),
                study_id,
                actor,
                initial_deposit,
                actor_balance,
            ) {
                Some(e) => result == Err::<(), EngineError>(e) && Self::spec_same_state(
                    *final(self),
                    *old(self),
                ),
                None => {
                    &&& result == Ok::<(), EngineError>(())
                    &&& final(self).vaults@ == old(self).vaults@.push(
                        (RewardVault {
                            study_id,
                            reward_asset,
                            total_deposited: initial_deposit,
                            total_distributed: 0,
                        }),
                    )
                    &&& final(self).studies@ == old(self).studies@
                    &&& final(self).consents@ == old(self).consents@
                    &&& final(self).submissions@ == old(self).submissions@
                    &&& final(self).admin == old(self).admin
                },
            }),
    {
        let i = match find_study(&self.studies, study_id) {
            Some(i) => i,
            None => {
                return Err(EngineError::StudyNotFound);
            },
        };
        proof {
            lemma_study_index(self.studies@, study_id, i as int);
        }
        if self.studies[i].researcher != actor {
            return Err(EngineError::UnauthorizedResearcher);
        }
        if find_vault(&self.vaults, study_id).is_some() {
            return Err(EngineError::VaultAlreadyExists);
        }
        let max_p = self.studies[i].max_participants;
        let per_reward = self.studies[i].reward_amount_per_participant;
        proof {
            assert((max_p as u128) * (per_reward as u128) <= u128::MAX) by (nonlinear_arith)
                requires
                    max_p <= u32::MAX,
                    per_reward <= u64::MAX,
            ;
        }
        let needed: u128 = (max_p as u128) * (per_reward as u128);
        if (initial_deposit as u128) < needed {
            return Err(EngineError::InsufficientFunds);
        }
        if actor_balance < initial_deposit {
            return Err(EngineError::InsufficientFunds);
        }
        let vault = RewardVault { study_id, reward_asset, total_deposited: initial_deposit, total_distributed: 0 };
        proof {
            crate::records::lemma_vaults_push_unique(self.vaults@, vault);
        }
        let ghost pre_vaults = self.vaults@;
        self.vaults.push(vault);
        proof {
            assert forall|k: int| 0 <= k < self.vaults@.len() implies (
            #[trigger] self.vaults@[k]).spec_ok() by {
                if k < pre_vaults.len() {
                    assert(self.vaults@[k] == pre_vaults[k]);
                }
            }
            assert forall|k: int|
                0 <= k < self.vaults@.len() implies has_study(
                self.studies@,
                (#[trigger] self.vaults@[k]).study_id,
            ) by {
                if k < pre_vaults.len() {
                    assert(self.vaults@[k] == pre_vaults[k]);
                    assert(has_study(self.studies@, pre_vaults[k].study_id));
                } else {
                    assert(self.vaults@[k] == vault);
                }
            }
            assert forall|k: int|
                0 <= k < self.studies@.len() implies Self::study_accounting_ok(
                #[trigger] self.studies@[k],
                self.vaults@,
            ) by {
                let s = self.studies@[k];
                assert(Self::study_accounting_ok(s, pre_vaults));
                crate::records::lemma_vault_push_lookup(pre_vaults, vault, s.study_id);
                if s.study_id == study_id {
                    // The target study had no vault, so its totals are zero
                    // and the fresh vault's distributed total matches.
                    assert(!has_vault(pre_vaults, s.study_id));
                } else {
                    if has_vault(self.vaults@, s.study_id) {
                        crate::records::lemma_has_vault_push_cases(pre_vaults, vault, s.study_id);
                    }
                }
            }
        }
        Ok(())
    }

    /// The error `settle_reward` reports, or `None` where it succeeds. In
    /// order: the study must exist; the actor must be its researcher or
    /// the participant; a submission must exist and not yet be paid (the
    /// reward-distributed flag is the sole double-payment guard); the
    /// study must be Active or Closed; the cooldown since submission must
    /// have elapsed; the vault must exist and still hold the reward; and
    /// the three totals it advances must stay countable.
    ///
    /// No revocation check is needed: the invariant guarantees that the
    /// consent under any submission is not revoked.
    pub open spec fn spec_settle_err(
        e: &Engine,
        study_id: u64,
        participant: u64,
        actor: u64,
        now: i64,
    ) -> Option<EngineError> {
        if !has_study(e.studies@, study_id) {
            Some(EngineError::StudyNotFound)
        } else if actor != study_of(e.studies@, study_id).researcher && actor != participant {
            Some(EngineError::UnauthorizedActor)
        } else if !has_submission(e.submissions@, study_id, participant) {
            Some(EngineError::SubmissionNotFound)
        } else if submission_of(e.submissions@, study_id, participant).reward_distributed {
            Some(EngineError::AlreadyClaimed)
        } else if study_of(e.studies@, study_id).status != StudyStatus::Active && study_of(
            e.studies@,
            study_id,
        ).status != StudyStatus::Closed {
            Some(EngineError::InvalidStudyState)
        } else if now < submission_of(e.submissions@, study_id, participant).submission_timestamp
            + SETTLEMENT_COOLDOWN {
            Some(EngineError::CooldownNotElapsed)
        } else if !has_vault(e.vaults@, study_id) {
            Some(EngineError::VaultNotFound)
        } else if vault_of(e.vaults@, study_id).spec_available() < study_of(
            e.studies@,
            study_id,
        ).reward_amount_per_participant {
            Some(EngineError::InsufficientFunds)
        } else if study_of(e.studies@, study_id).total_rewards_distributed + study_of(
            e.studies@,
            study_id,
        ).reward_amount_per_participant > u64::MAX {
            Some(EngineError::ArithmeticOverflow)
        } else if study_of(e.studies@, study_id).completed_count == u32::MAX {
            Some(EngineError::ArithmeticOverflow)
        } else if e.admin.unwrap().total_rewards_distributed + study_of(
            e.studies@,
            study_id,
        ).reward_amount_per_participant > u64::MAX {
            Some(EngineError::ArithmeticOverflow)
        } else {
            None
        }
    }

    /// Settles a participant's reward: after the cooldown, pays the
    /// per-participant reward out of the vault (the host performs the
    /// transfer the same atomic step records), marks the submission paid,
    /// stores the completion-credential reference, and advances the
    /// study's and the protocol's totals. A second settlement of the same
    /// submission fails on the reward-distributed flag.
    pub fn settle_reward(
        &mut self,
        study_id: u64,
        participant: u64,
        actor: u64,
        now: i64,
        completion_credential: u64,
    ) -> (result: Result<u64, EngineError>)
        requires
            old(self).wf(),
        ensures
            final(self).wf(),
            (match Self::spec_settle_err(old(self), study_id, participant, actor, now) {
                Some(e) => result == Err::<u64, EngineError>(e) && Self::spec_same_state(
                    *final(self),
                    *old(self),
                ),
                None => {
                    &&& result == Ok::<u64, EngineError>(
                        study_of(old(self).studies@, study_id).reward_amount_per_participant,
                    )
                    &&& final(self).submissions@ == old(self).submissions@.update(
                        submission_index(old(self).submissions@, study_id, participant),
                        (Submission {
                            reward_distributed: true,
                            completion_credential: Some(completion_credential),
                            ..submission_of(old(self).submissions@, study_id, participant)
                        }),
                    )
                    &&& final(self).vaults@ == old(self).vaults@.update(
                        vault_index(old(self).vaults@, study_id),
                        (RewardVault {
                            total_distributed: (vault_of(old(self).vaults@, study_id).total_distributed
                                + study_of(old(self).studies@, study_id).reward_amount_per_participant) as u64,
                            ..vault_of(old(self).vaults@, study_id)
                        }),
                    )
                    &&& final(self).studies@ == old(self).studies@.update(
                        study_index(old(self).studies@, study_id),
                        (Study {
                            total_rewards_distributed: (study_of(old(self).studies@, study_id).total_rewards_distributed
                                + study_of(old(self).studies@, study_id).reward_amount_per_participant) as u64,
                            completed_count: (study_of(old(self).studies@, study_id).completed_count
                                + 1) as u32,
                            ..study_of(old(self).studies@, study_id)
                        }),
                    )
                    &&& final(self).consents@ == old(self).consents@
                    &&& final(self).admin == Some(
                        AdminConfig {
                            total_rewards_distributed: (old(self).admin.unwrap().total_rewards_distributed
                                + study_of(old(self).studies@, study_id).reward_amount_per_participant) as u64,
                            ..old(self).admin.unwrap()
                        },
                    )
                },
            }),
    {
        let i = match find_study(&self.studies, study_id) {
            Some(i) => i,
            None => {
                return Err(EngineError::StudyNotFound);
            },
        };
        proof {
            lemma_study_index(self.studies@, study_id, i as int);
        }
        if actor != self.studies[i].researcher && actor != participant {
            return Err(EngineError::UnauthorizedActor);
        }
        let j = match find_submission(&self.submissions, study_id, participant) {
            Some(j) => j,
            None => {
                return Err(EngineError::SubmissionNotFound);
            },
        };
        proof {
            crate::records::lemma_submission_index(
                self.submissions@,
                study_id,
                participant,
                j as int,
            );
        }
        if self.submissions[j].reward_distributed {
            return Err(EngineError::AlreadyClaimed);
        }
        if self.studies[i].status != StudyStatus::Active && self.studies[i].status
            != StudyStatus::Closed {
            return Err(EngineError::InvalidStudyState);
        }
        if (now as i128) < self.submissions[j].submission_timestamp as i128
            + SETTLEMENT_COOLDOWN as i128 {
            return Err(EngineError::CooldownNotElapsed);
        }
        let k = match find_vault(&self.vaults, study_id) {
            Some(k) => k,
            None => {
                return Err(EngineError::VaultNotFound);
            },
        };
        proof {
            crate::records::lemma_vault_index(self.vaults@, study_id, k as int);
        }
        let reward = self.studies[i].reward_amount_per_participant;
        if self.vaults[k].available() < reward {
            return Err(EngineError::InsufficientFunds);
        }
        let new_study_total = match self.studies[i].total_rewards_distributed.checked_add(reward) {
            Some(t) => t,
            None => {
                return Err(EngineError::ArithmeticOverflow);
            },
        };
        if self.studies[i].completed_count == u32::MAX {
            return Err(EngineError::ArithmeticOverflow);
        }
        let cfg = match self.admin {
            Some(a) => a,
            None => unreached(),
        };
        let new_admin_total = match cfg.total_rewards_distributed.checked_add(reward) {
            Some(t) => t,
            None => {
                return Err(EngineError::ArithmeticOverflow);
            },
        };
        let ghost pre = *self;
        let sb = &mut self.submissions[j];
        sb.reward_distributed = true;
        sb.completion_credential = Some(completion_credential);
        let vt = &mut self.vaults[k];
        vt.total_distributed = vt.total_distributed + reward;
        let completed = self.studies[i].completed_count;
        let st = &mut self.studies[i];
        st.total_rewards_distributed = new_study_total;
        st.completed_count = completed + 1;
        self.admin = Some(
            AdminConfig {
                admin: cfg.admin,
                protocol_fee_bps: cfg.protocol_fee_bps,
                min_study_duration: cfg.min_study_duration,
                max_study_duration: cfg.max_study_duration,
                total_studies: cfg.total_studies,
                total_participants: cfg.total_participants,
                total_rewards_distributed: new_admin_total,
            },
        );
        proof {
            crate::study::lemma_studies_update_same_id(pre.studies@, i as int, self.studies@[i as int]);
            crate::records::lemma_submissions_update_same_key(
                pre.submissions@,
                j as int,
                self.submissions@[j as int],
            );
            crate::records::lemma_vaults_update_same_id(pre.vaults@, k as int, self.vaults@[k as int]);
            assert forall|m: int| 0 <= m < self.studies@.len() implies (
            #[trigger] self.studies@[m]).spec_ok() by {
                if m != i as int {
                    assert(self.studies@[m] == pre.studies@[m]);
                }
            }
            assert forall|m: int| 0 <= m < self.vaults@.len() implies (
            #[trigger] self.vaults@[m]).spec_ok() by {
                if m != k as int {
                    assert(self.vaults@[m] == pre.vaults@[m]);
                }
            }
            assert forall|m: int|
                0 <= m < self.consents@.len() implies has_study(
                self.studies@,
                (#[trigger] self.consents@[m]).study_id,
            ) by {
                assert(has_study(pre.studies@, pre.consents@[m].study_id));
            }
            assert forall|m: int|
                0 <= m < self.submissions@.len() implies {
                let sb2 = #[trigger] self.submissions@[m];
                &&& has_consent(self.consents@, sb2.study_id, sb2.participant)
                &&& !consent_of(self.consents@, sb2.study_id, sb2.participant).is_revoked
            } by {
                if m != j as int {
                    assert(self.submissions@[m] == pre.submissions@[m]);
                    let sb2 = pre.submissions@[m];
                    assert(has_consent(pre.consents@, sb2.study_id, sb2.participant));
                } else {
                    let sb2 = pre.submissions@[j as int];
                    assert(has_consent(pre.consents@, sb2.study_id, sb2.participant));
                }
            }
            assert forall|m: int|
                0 <= m < self.vaults@.len() implies has_study(
                self.studies@,
                (#[trigger] self.vaults@[m]).study_id,
            ) by {
                if m != k as int {
                    assert(self.vaults@[m] == pre.vaults@[m]);
                }
                assert(has_study(pre.studies@, pre.vaults@[m].study_id));
            }
            assert forall|m: int|
                0 <= m < self.studies@.len() implies Self::study_accounting_ok(
                #[trigger] self.studies@[m],
                self.vaults@,
            ) by {
                if m != i as int {
                    let s = pre.studies@[m];
                    assert(self.studies@[m] == s);
                    assert(Self::study_accounting_ok(s, pre.vaults@));
                    // A different study keeps a different identifier, so
                    // the updated vault is not the one it accounts against.
                    assert(s.study_id != study_id);
                    if has_vault(pre.vaults@, s.study_id) {
                        assert(vault_of(self.vaults@, s.study_id) == vault_of(
                            pre.vaults@,
                            s.study_id,
                        ));
                    }
                } else {
                    let s_old = pre.studies@[i as int];
                    let s_new = self.studies@[i as int];
                    assert(Self::study_accounting_ok(s_old, pre.vaults@));
                    assert(s_new.total_rewards_distributed == s_old.total_rewards_distributed
                        + reward);
                    assert((s_old.completed_count + 1) * s_old.reward_amount_per_participant
                        == s_old.completed_count * s_old.reward_amount_per_participant
                        + s_old.reward_amount_per_participant) by (nonlinear_arith);
                    assert(vault_of(self.vaults@, study_id) == self.vaults@[k as int]);
                }
            }
            assert forall|m: int|
                0 <= m < self.studies@.len() implies Self::study_counters_ok(
                #[trigger] self.studies@[m],
                self.consents@,
                self.submissions@,
            ) by {
                let s_m = self.studies@[m];
                if m != i as int {
                    assert(s_m == pre.studies@[m]);
                    assert(Self::study_counters_ok(s_m, pre.consents@, pre.submissions@));
                    assert(pre.studies@[i as int].study_id == study_id);
                    assert(s_m.study_id != study_id);
                    lemma_settled_participants_update(
                        pre.submissions@,
                        j as int,
                        self.submissions@[j as int],
                        s_m.study_id,
                    );
                } else {
                    let s_old = pre.studies@[i as int];
                    assert(Self::study_counters_ok(s_old, pre.consents@, pre.submissions@));
                    lemma_settled_participants(pre.submissions@, study_id);
                    lemma_settled_participants_update(
                        pre.submissions@,
                        j as int,
                        self.submissions@[j as int],
                        study_id,
                    );
                    // The participant was not settled before: the only
                    // submission under the key is the unsettled one.
                    if settled_participants(pre.submissions@, study_id).contains(participant) {
                        let w = choose|w: int|
                            0 <= w < pre.submissions@.len()
                                && #[trigger] pre.submissions@[w].study_id == study_id
                                && pre.submissions@[w].participant == participant
                                && pre.submissions@[w].reward_distributed;
                        crate::records::lemma_submission_index(
                            pre.submissions@,
                            study_id,
                            participant,
                            w,
                        );
                        assert(false);
                    }
                    vstd::set::axiom_set_insert_len(
                        settled_participants(pre.submissions@, study_id),
                        participant,
                    );
                    // The settled set stays within the study's consent
                    // holders, which bounds the completed count by the
                    // enrolled count.
                    lemma_settled_participants(self.submissions@, study_id);
                    lemma_consent_holders(self.consents@, study_id);
                    assert forall|p2: u64|
                        settled_participants(self.submissions@, study_id).contains(p2)
                            implies #[trigger] consent_holders(self.consents@, study_id).contains(
                        p2,
                    ) by {
                        let w = choose|w: int|
                            0 <= w < self.submissions@.len()
                                && #[trigger] self.submissions@[w].study_id == study_id
                                && self.submissions@[w].participant == p2
                                && self.submissions@[w].reward_distributed;
                        assert(has_consent(
                            self.consents@,
                            self.submissions@[w].study_id,
                            self.submissions@[w].participant,
                        ));
                    }
                    lemma_len_subset(
                        settled_participants(self.submissions@, study_id),
                        consent_holders(self.consents@, study_id),
                    );
                }
            }
        }
        Ok(reward)
    }

    /// After replacing the study at `i` with one of the same identifier,
    /// sound structure and unchanged settlement counters, the invariant
    /// still holds (nothing else changed).
    proof fn lemma_studies_updated(&self, pre: Seq<Study>, i: int)
        requires
            0 <= i < pre.len(),
            self.studies@ == pre.update(i, self.studies@[i]),
            self.studies@[i].study_id == pre[i].study_id,
            self.studies@[i].spec_ok(),
            self.studies@[i].total_rewards_distributed == pre[i].total_rewards_distributed,
            self.studies@[i].completed_count == pre[i].completed_count,
            self.studies@[i].enrolled_count == pre[i].enrolled_count,
            self.studies@[i].reward_amount_per_participant == pre[
                i
            ].reward_amount_per_participant,
            studies_unique(pre),
            consents_unique(self.consents@),
            submissions_unique(self.submissions@),
            vaults_unique(self.vaults@),
            forall|k: int| 0 <= k < pre.len() ==> (#[trigger] pre[k]).spec_ok(),
            forall|k: int| 0 <= k < self.vaults@.len() ==> (#[trigger] self.vaults@[k]).spec_ok(),
            (match self.admin {
                Some(a) => a.spec_ok(),
                None => true,
            }),
            (pre.len() > 0 ==> self.admin is Some),
            forall|k: int|
                0 <= k < self.consents@.len() ==> has_study(
                    pre,
                    (#[trigger] self.consents@[k]).study_id,
                ),
            forall|k: int|
                0 <= k < self.submissions@.len() ==> {
                    let sb = #[trigger] self.submissions@[k];
                    &&& has_consent(self.consents@, sb.study_id, sb.participant)
                    &&& !consent_of(self.consents@, sb.study_id, sb.participant).is_revoked
                },
            forall|k: int|
                0 <= k < self.vaults@.len() ==> has_study(
                    pre,
                    (#[trigger] self.vaults@[k]).study_id,
                ),
            forall|k: int|
                0 <= k < pre.len() ==> Self::study_accounting_ok(#[trigger] pre[k], self.vaults@),
            forall|k: int|
                0 <= k < self.consents@.len() ==> ((#[trigger] self.consents@[k]).is_revoked
                    <==> self.consents@[k].revocation_timestamp is Some),
            forall|k: int|
                0 <= k < pre.len() ==> Self::study_counters_ok(
                    #[trigger] pre[k],
                    self.consents@,
                    self.submissions@,
                ),
        ensures
            self.wf(),
    {
        crate::study::lemma_studies_update_same_id(pre, i, self.studies@[i]);
        assert forall|k: int| 0 <= k < self.studies@.len() implies (
        #[trigger] self.studies@[k]).spec_ok() by {
            if k != i {
                assert(self.studies@[k] == pre[k]);
            }
        }
        assert forall|k: int|
            0 <= k < self.studies@.len() implies Self::study_accounting_ok(
            #[trigger] self.studies@[k],
            self.vaults@,
        ) by {
            if k != i {
                assert(self.studies@[k] == pre[k]);
                assert(Self::study_accounting_ok(pre[k], self.vaults@));
            } else {
                assert(Self::study_accounting_ok(pre[i], self.vaults@));
            }
        }
        assert forall|k: int|
            0 <= k < self.studies@.len() implies Self::study_counters_ok(
            #[trigger] self.studies@[k],
            self.consents@,
            self.submissions@,
        ) by {
            if k != i {
                assert(self.studies@[k] == pre[k]);
                assert(Self::study_counters_ok(pre[k], self.consents@, self.submissions@));
            } else {
                assert(Self::study_counters_ok(pre[i], self.consents@, self.submissions@));
            }
        }
    }
}

} // verus!
