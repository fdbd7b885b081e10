use exam_engine::MaintenanceMode;
use exam_engine::ids::IdGen;
use exam_engine::moderation::GetModerationsQuery;
use exam_engine::moderation::ModerationError;
use exam_engine::moderation::ModerationRecord;
use exam_engine::moderation::ModerationStatus;
use exam_engine::moderation::filter_moderations;
use exam_engine::moderation::invalidate_on_edit;
use exam_engine::moderation::record_permits_generation;
use exam_engine::moderation::transition;
use exam_engine::rng::Rng;

#[test]
fn allowed_transitions_succeed() {
    assert_eq!(
        transition(ModerationStatus::Pending, ModerationStatus::Approved),
        Ok(ModerationStatus::Approved)
    );
    assert_eq!(
        transition(ModerationStatus::Pending, ModerationStatus::Rejected),
        Ok(ModerationStatus::Rejected)
    );
    assert_eq!(
        transition(ModerationStatus::Rejected, ModerationStatus::Pending),
        Ok(ModerationStatus::Pending)
    );
    assert_eq!(
        transition(ModerationStatus::Approved, ModerationStatus::Pending),
        Ok(ModerationStatus::Pending)
    );
}

#[test]
fn forbidden_transitions_are_rejected() {
    assert_eq!(
        transition(ModerationStatus::Approved, ModerationStatus::Rejected),
        Err(ModerationError::TransitionRejected)
    );
    assert_eq!(
        transition(ModerationStatus::Rejected, ModerationStatus::Approved),
        Err(ModerationError::TransitionRejected)
    );
    assert_eq!(
        transition(ModerationStatus::Approved, ModerationStatus::Approved),
        Err(ModerationError::TransitionRejected)
    );
    assert_eq!(
        transition(ModerationStatus::Pending, ModerationStatus::Pending),
        Err(ModerationError::TransitionRejected)
    );
}

#[test]
fn editing_invalidates_the_approval_for_the_new_version() {
    let approved =
        ModerationRecord { exam_id: 1, version: 3, status: ModerationStatus::Approved };
    let after_edit = invalidate_on_edit(&approved, 4);
    assert_eq!(after_edit.exam_id, 1);
    assert_eq!(after_edit.version, 4);
    assert_eq!(after_edit.status, ModerationStatus::Pending);
    assert!(!record_permits_generation(&Some(after_edit), 1, 4));
}

#[test]
fn only_an_exact_version_approval_permits_generation() {
    let rec = ModerationRecord { exam_id: 1, version: 3, status: ModerationStatus::Approved };
    assert!(record_permits_generation(&Some(rec), 1, 3));
    assert!(!record_permits_generation(&Some(rec), 1, 4));
    assert!(!record_permits_generation(&Some(rec), 2, 3));
    assert!(!record_permits_generation(&None, 1, 3));
}

#[test]
fn moderation_listing_filters_by_status() {
    let records = vec![
        ModerationRecord { exam_id: 1, version: 1, status: ModerationStatus::Pending },
        ModerationRecord { exam_id: 2, version: 1, status: ModerationStatus::Approved },
        ModerationRecord { exam_id: 3, version: 2, status: ModerationStatus::Pending },
    ];
    let all = filter_moderations(&records, &GetModerationsQuery { status: None });
    assert_eq!(all, records);

    let pending = filter_moderations(
        &records,
        &GetModerationsQuery { status: Some(ModerationStatus::Pending) },
    );
    assert_eq!(pending.len(), 2);
    assert_eq!(pending[0].exam_id, 1);
    assert_eq!(pending[1].exam_id, 3);

    let rejected = filter_moderations(
        &records,
        &GetModerationsQuery { status: Some(ModerationStatus::Rejected) },
    );
    assert!(rejected.is_empty());
}

#[test]
fn maintenance_mode_carries_its_flag() {
    let on = MaintenanceMode { enabled: true };
    let off = MaintenanceMode { enabled: false };
    assert_ne!(on, off);
    assert!(on.enabled);
}

#[test]
fn id_generator_counts_upward_from_its_start() {
    let mut ids = IdGen::new(10);
    assert_eq!(ids.fresh(), 10);
    assert_eq!(ids.fresh(), 11);
    assert_eq!(ids.fresh(), 12);
}

#[test]
fn random_values_stay_below_their_bound() {
    let mut rng = Rng::from_seed(123);
    for n in 1usize..50 {
        for _ in 0..20 {
            assert!(rng.next_below(n) < n);
        }
    }
}
