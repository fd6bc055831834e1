use earn_quest::EarnQuestContract;
use earn_quest::QuestStatus;

const CREATOR: u64 = 1;
const VERIFIER: u64 = 2;
const ASSET: u64 = 3;
const OTHER: u64 = 4;

const DAY: u64 = 86400;

fn register(c: &mut EarnQuestContract, id: u64) {
    c.register_quest(0, id, CREATOR, ASSET, 1000, VERIFIER, DAY, 5)
        .unwrap();
}

#[test]
fn test_register_quest_success() {
    let mut c = EarnQuestContract::new();
    let quest_id = 1;
    register(&mut c, quest_id);

    assert!(c.quest_exists(quest_id));

    let quest = c.get_quest(quest_id).unwrap();
    assert_eq!(quest.id, quest_id);
    assert_eq!(quest.creator, CREATOR);
    assert_eq!(quest.reward_asset, ASSET);
    assert_eq!(quest.reward_amount, 1000);
    assert_eq!(quest.verifier, VERIFIER);
    assert_eq!(quest.status, QuestStatus::Active);
}

#[test]
fn test_register_quest_duplicate_fails() {
    let mut c = EarnQuestContract::new();
    let quest_id = 1;
    register(&mut c, quest_id);

    let result = c.register_quest(0, quest_id, CREATOR, ASSET, 1000, VERIFIER, DAY, 5);
    assert!(result.is_err());
}

#[test]
fn test_register_quest_invalid_reward_fails() {
    let mut c = EarnQuestContract::new();
    let result = c.register_quest(0, 1, CREATOR, ASSET, 0, VERIFIER, DAY, 5);
    assert!(result.is_err());
}

#[test]
fn test_pause_quest() {
    let mut c = EarnQuestContract::new();
    let quest_id = 1;
    register(&mut c, quest_id);

    c.pause_quest(quest_id, CREATOR).unwrap();

    let quest = c.get_quest(quest_id).unwrap();
    assert_eq!(quest.status, QuestStatus::Paused);
}

#[test]
fn test_resume_quest() {
    let mut c = EarnQuestContract::new();
    let quest_id = 1;
    register(&mut c, quest_id);
    c.pause_quest(quest_id, CREATOR).unwrap();

    c.resume_quest(quest_id, CREATOR).unwrap();

    let quest = c.get_quest(quest_id).unwrap();
    assert_eq!(quest.status, QuestStatus::Active);
}

#[test]
fn test_complete_quest() {
    let mut c = EarnQuestContract::new();
    let quest_id = 1;
    register(&mut c, quest_id);

    c.complete_quest(quest_id, CREATOR).unwrap();

    let quest = c.get_quest(quest_id).unwrap();
    assert_eq!(quest.status, QuestStatus::Completed);
}

#[test]
fn test_unauthorized_status_update() {
    let mut c = EarnQuestContract::new();
    let quest_id = 1;
    register(&mut c, quest_id);

    let result = c.pause_quest(quest_id, OTHER);
    assert!(result.is_err());
}

#[test]
fn test_invalid_status_transition() {
    let mut c = EarnQuestContract::new();
    let quest_id = 1;
    register(&mut c, quest_id);
    c.complete_quest(quest_id, CREATOR).unwrap();

    let result = c.pause_quest(quest_id, CREATOR);
    assert!(result.is_err());
}

#[test]
fn test_is_quest_active() {
    let mut c = EarnQuestContract::new();
    let quest_id = 1;
    register(&mut c, quest_id);

    assert!(c.is_quest_active(quest_id));

    c.pause_quest(quest_id, CREATOR).unwrap();

    assert!(!c.is_quest_active(quest_id));
}

#[test]
fn test_quest_exists() {
    let mut c = EarnQuestContract::new();
    let quest_id = 1;

    assert!(!c.quest_exists(quest_id));

    register(&mut c, quest_id);

    assert!(c.quest_exists(quest_id));
}

// ── Participant limits ──

fn register_and_fund(c: &mut EarnQuestContract, quest_id: u64, reward: i128, deadline: u64, max_participants: u32) {
    let total = reward * (max_participants as i128);
    c.register_quest(0, quest_id, CREATOR, ASSET, reward, VERIFIER, deadline, max_participants)
        .unwrap();
    c.deposit_escrow(quest_id, CREATOR, total).unwrap();
}

#[test]
fn test_register_quest_with_participant_limit() {
    let mut c = EarnQuestContract::new();
    let quest_id = 1;
    c.register_quest(0, quest_id, CREATOR, ASSET, 1000, VERIFIER, 1000000, 5)
        .unwrap();

    let quest = c.get_quest(quest_id).unwrap();
    assert_eq!(quest.max_participants, 5);
    assert_eq!(quest.total_claims, 0);
}

#[test]
fn test_register_quest_with_zero_participants() {
    let mut c = EarnQuestContract::new();
    let result = c.register_quest(0, 2, CREATOR, ASSET, 1000, VERIFIER, 1000000, 0);
    assert!(result.is_err());
}

#[test]
fn test_participant_limit_enforcement() {
    let mut c = EarnQuestContract::new();
    let quest_id = 1;
    register_and_fund(&mut c, quest_id, 1000, 9999999999, 2);

    for i in 1u8..=2 {
        let submitter = 100 + i as u64;
        let proof = vec![i; 32];
        c.submit_proof(0, quest_id, submitter, proof).unwrap();
        c.approve_submission(quest_id, submitter, VERIFIER).unwrap();
    }

    let is_full = c.is_quest_full(quest_id).unwrap();
    assert!(is_full);

    let quest = c.get_quest(quest_id).unwrap();
    assert_eq!(quest.status, QuestStatus::Completed);
}

#[test]
fn test_submission_rejected_when_quest_full() {
    let mut c = EarnQuestContract::new();
    let quest_id = 1;
    register_and_fund(&mut c, quest_id, 1000, 9999999999, 1);

    let submitter1 = 101;
    c.submit_proof(0, quest_id, submitter1, vec![1u8; 32]).unwrap();
    c.approve_submission(quest_id, submitter1, VERIFIER).unwrap();

    let submitter2 = 102;
    let result = c.submit_proof(0, quest_id, submitter2, vec![2u8; 32]);
    assert!(result.is_err());
}

#[test]
fn test_claim_counter_accuracy() {
    let mut c = EarnQuestContract::new();
    let quest_id = 1;
    register_and_fund(&mut c, quest_id, 500, 9999999999, 5);

    let quest = c.get_quest(quest_id).unwrap();
    assert_eq!(quest.total_claims, 0);

    for i in 1u8..=3 {
        let submitter = 100 + i as u64;
        let proof = vec![i; 32];
        c.submit_proof(0, quest_id, submitter, proof).unwrap();
        c.approve_submission(quest_id, submitter, VERIFIER).unwrap();

        let quest = c.get_quest(quest_id).unwrap();
        assert_eq!(quest.total_claims, i as u32);
    }
}

#[test]
fn test_user_stats_after_approval() {
    let mut c = EarnQuestContract::new();
    let quest_id = 1;
    let submitter = 100;
    register_and_fund(&mut c, quest_id, 1000, 9999999999, 10);

    c.submit_proof(0, quest_id, submitter, vec![1u8; 32]).unwrap();
    c.approve_submission(quest_id, submitter, VERIFIER).unwrap();

    let stats = c.get_user_stats(submitter);
    assert_eq!(stats.total_xp, 100);
    assert_eq!(stats.quests_completed, 1);
}
