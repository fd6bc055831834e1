use earn_quest::EarnQuestContract;
use earn_quest::QuestStatus;

const CREATOR: u64 = 1;
const VERIFIER: u64 = 2;
const ASSET: u64 = 3;

fn register(c: &mut EarnQuestContract, now: u64, id: u64, deadline: u64) {
    c.register_quest(now, id, CREATOR, ASSET, 1000, VERIFIER, deadline, 10)
        .unwrap();
}

#[test]
fn test_register_quest_with_past_deadline_fails() {
    let mut c = EarnQuestContract::new();

    // Set a past deadline (use 0 as past)
    let past_deadline = 0u64;

    let result = c.register_quest(0, 1, CREATOR, ASSET, 1000, VERIFIER, past_deadline, 10);
    assert!(result.is_err());
}

#[test]
fn test_register_quest_with_current_time_deadline_fails() {
    let mut c = EarnQuestContract::new();
    let current_time = 1000u64;

    let result = c.register_quest(
        current_time,
        1,
        CREATOR,
        ASSET,
        1000,
        VERIFIER,
        current_time,
        10,
    );
    assert!(result.is_err());
}

#[test]
fn test_register_quest_with_future_deadline_succeeds() {
    let mut c = EarnQuestContract::new();
    let future_deadline = 86400; // 1 day in future

    register(&mut c, 0, 1, future_deadline);

    let quest = c.get_quest(1).unwrap();
    assert_eq!(quest.status, QuestStatus::Active);
    assert_eq!(quest.deadline, future_deadline);
}

#[test]
fn test_check_expired_returns_false_before_deadline() {
    let mut c = EarnQuestContract::new();
    let deadline = 86400;

    register(&mut c, 0, 1, deadline);

    let is_expired = c.check_expired(0, 1).unwrap();
    assert!(!is_expired);
}

#[test]
fn test_check_expired_returns_true_after_deadline() {
    let mut c = EarnQuestContract::new();
    let deadline = 100;

    register(&mut c, 0, 1, deadline);

    let is_expired = c.check_expired(deadline + 1, 1).unwrap();
    assert!(is_expired);
}

#[test]
fn test_submission_rejected_after_deadline() {
    let mut c = EarnQuestContract::new();
    let deadline = 100;

    register(&mut c, 0, 1, deadline);

    let submitter = 100;
    let result = c.submit_proof(deadline + 1, 1, submitter, vec![1u8; 32]);
    assert!(result.is_err());
}

#[test]
fn test_submission_accepted_before_deadline() {
    let mut c = EarnQuestContract::new();
    let deadline = 86400;
    let quest_id = 1;

    register(&mut c, 0, quest_id, deadline);

    let submitter = 100;
    c.submit_proof(0, quest_id, submitter, vec![1u8; 32]).unwrap();

    let submission = c.get_submission(quest_id, submitter).unwrap();
    assert_eq!(submission.quest_id, quest_id);
    assert_eq!(submission.submitter, submitter);
}

#[test]
fn test_manual_expire_quest_by_creator() {
    let mut c = EarnQuestContract::new();
    let quest_id = 1;

    register(&mut c, 0, quest_id, 86400);

    c.expire_quest(quest_id, CREATOR).unwrap();

    let quest = c.get_quest(quest_id).unwrap();
    assert_eq!(quest.status, QuestStatus::Expired);
}

#[test]
fn test_manual_expire_quest_by_non_creator_fails() {
    let mut c = EarnQuestContract::new();
    let quest_id = 1;

    register(&mut c, 0, quest_id, 86400);

    let other = 5;
    let result = c.expire_quest(quest_id, other);
    assert!(result.is_err());
}

#[test]
fn test_cannot_expire_already_expired_quest() {
    let mut c = EarnQuestContract::new();
    let quest_id = 1;

    register(&mut c, 0, quest_id, 86400);

    c.expire_quest(quest_id, CREATOR).unwrap();

    let result = c.expire_quest(quest_id, CREATOR);
    assert!(result.is_err());
}

#[test]
fn test_cannot_expire_completed_quest() {
    let mut c = EarnQuestContract::new();
    let quest_id = 1;

    register(&mut c, 0, quest_id, 86400);

    c.complete_quest(quest_id, CREATOR).unwrap();

    let quest = c.get_quest(quest_id).unwrap();
    assert_eq!(quest.status, QuestStatus::Completed);

    let result = c.expire_quest(quest_id, CREATOR);
    assert!(result.is_err());
}

#[test]
fn test_auto_expire_on_submission_attempt() {
    let mut c = EarnQuestContract::new();
    let deadline = 100;
    let quest_id = 1;

    register(&mut c, 0, quest_id, deadline);

    let quest = c.get_quest(quest_id).unwrap();
    assert_eq!(quest.status, QuestStatus::Active);

    // Attempt a submission past the deadline: it is refused, and the lazy
    // expiry of the quest persists.
    let submitter = 100;
    let result = c.submit_proof(deadline + 1, quest_id, submitter, vec![1u8; 32]);
    assert!(result.is_err());

    let quest = c.get_quest(quest_id).unwrap();
    assert_eq!(quest.status, QuestStatus::Expired);
}

#[test]
fn test_expired_quest_cannot_accept_submissions() {
    let mut c = EarnQuestContract::new();
    let quest_id = 1;

    register(&mut c, 0, quest_id, 86400);

    c.expire_quest(quest_id, CREATOR).unwrap();

    let submitter = 100;
    let result = c.submit_proof(0, quest_id, submitter, vec![1u8; 32]);
    assert!(result.is_err());
}

#[test]
fn test_timestamp_validation_edge_case() {
    let mut c = EarnQuestContract::new();
    let quest_id = 1;
    let current_time = 0u64;
    let deadline = current_time + 1; // Just 1 second in future

    register(&mut c, current_time, quest_id, deadline);

    // Should not be expired yet
    let is_expired = c.check_expired(current_time, quest_id).unwrap();
    assert!(!is_expired);

    // Submit should succeed
    let submitter = 100;
    c.submit_proof(current_time, quest_id, submitter, vec![1u8; 32])
        .unwrap();

    // At deadline, should still not be expired (expiry is strict)
    let is_expired = c.check_expired(deadline, quest_id).unwrap();
    assert!(!is_expired);

    // One second later it is expired
    let is_expired = c.check_expired(deadline + 1, quest_id).unwrap();
    assert!(is_expired);
}

#[test]
fn test_multiple_quests_with_different_deadlines() {
    let mut c = EarnQuestContract::new();
    let current_time = 0u64;

    // Register quest 1 with short deadline
    let quest_id_1 = 1;
    let deadline_1 = current_time + 100;
    register(&mut c, current_time, quest_id_1, deadline_1);

    // Register quest 2 with long deadline
    let quest_id_2 = 2;
    let deadline_2 = current_time + 10000;
    register(&mut c, current_time, quest_id_2, deadline_2);

    // Advance time past first deadline but before second
    let now = deadline_1 + 1;

    // Quest 1 should be expired
    assert!(c.check_expired(now, quest_id_1).unwrap());

    // Quest 2 should not be expired
    assert!(!c.check_expired(now, quest_id_2).unwrap());

    // Quest 1 submission should fail
    let submitter = 100;
    let result = c.submit_proof(now, quest_id_1, submitter, vec![1u8; 32]);
    assert!(result.is_err());

    // Quest 2 submission should succeed
    let submitter2 = 101;
    c.submit_proof(now, quest_id_2, submitter2, vec![2u8; 32])
        .unwrap();
}
