use earn_quest::EarnQuestContract;
use earn_quest::Error;
use earn_quest::SubmissionStatus;

const CREATOR: u64 = 1;
const VERIFIER: u64 = 2;
const ASSET: u64 = 3;

const DAY: u64 = 86400;

/// A quest whose escrow covers one reward for each allowed participant.
fn funded_quest(c: &mut EarnQuestContract, quest_id: u64, verifier: u64, max_participants: u32) {
    c.register_quest(0, quest_id, CREATOR, ASSET, 1000, verifier, DAY, max_participants)
        .unwrap();
    c.deposit_escrow(quest_id, CREATOR, 1000 * (max_participants as i128))
        .unwrap();
}

#[test]
fn test_submit_proof_success() {
    let mut c = EarnQuestContract::new();
    let quest_id = 1;
    let submitter = 100;
    funded_quest(&mut c, quest_id, VERIFIER, 5);

    c.submit_proof(0, quest_id, submitter, vec![1u8; 32]).unwrap();

    let submission = c.get_submission(quest_id, submitter).unwrap();
    assert_eq!(submission.quest_id, quest_id);
    assert_eq!(submission.submitter, submitter);
    assert_eq!(submission.status, SubmissionStatus::Pending);
}

#[test]
fn test_duplicate_submission_fails() {
    let mut c = EarnQuestContract::new();
    let quest_id = 1;
    let submitter = 100;
    funded_quest(&mut c, quest_id, VERIFIER, 5);

    c.submit_proof(0, quest_id, submitter, vec![1u8; 32]).unwrap();

    let result = c.submit_proof(0, quest_id, submitter, vec![1u8; 32]);
    assert!(result.is_err());
}

#[test]
fn test_submit_to_nonexistent_quest_fails() {
    let mut c = EarnQuestContract::new();
    let result = c.submit_proof(0, 1, 100, vec![1u8; 32]);
    assert!(result.is_err());
}

#[test]
fn test_invalid_proof_hash_fails() {
    let mut c = EarnQuestContract::new();
    let quest_id = 1;
    funded_quest(&mut c, quest_id, VERIFIER, 5);

    let zero_hash = vec![0u8; 32];
    let result = c.submit_proof(0, quest_id, 100, zero_hash);
    assert!(result.is_err());
}

#[test]
fn test_get_user_submissions() {
    let mut c = EarnQuestContract::new();
    let user = 100;
    funded_quest(&mut c, 1, VERIFIER, 5);
    funded_quest(&mut c, 2, VERIFIER, 5);

    c.submit_proof(0, 1, user, vec![1u8; 32]).unwrap();
    c.submit_proof(0, 2, user, vec![2u8; 32]).unwrap();

    let submissions = c.get_user_submissions(user);
    assert_eq!(submissions.len(), 2);
    assert!(submissions.contains(&1));
    assert!(submissions.contains(&2));
}

// ── Verification (approve / reject) ──

#[test]
fn test_successful_approval() {
    let mut c = EarnQuestContract::new();
    let quest_id = 1;
    let submitter = 100;
    funded_quest(&mut c, quest_id, VERIFIER, 5);
    c.submit_proof(0, quest_id, submitter, vec![1u8; 32]).unwrap();

    let result = c.approve_submission(quest_id, submitter, VERIFIER);
    assert!(result.is_ok());

    // Approval pays out in the same atomic step.
    let updated_submission = c.get_submission(quest_id, submitter).unwrap();
    assert_eq!(updated_submission.status, SubmissionStatus::Paid);
}

#[test]
fn test_successful_rejection() {
    let mut c = EarnQuestContract::new();
    let quest_id = 1;
    let submitter = 100;
    funded_quest(&mut c, quest_id, VERIFIER, 5);
    c.submit_proof(0, quest_id, submitter, vec![1u8; 32]).unwrap();

    let result = c.reject_submission(quest_id, submitter, VERIFIER);
    assert!(result.is_ok());

    let updated_submission = c.get_submission(quest_id, submitter).unwrap();
    assert_eq!(updated_submission.status, SubmissionStatus::Rejected);
}

#[test]
fn test_unauthorized_verifier_approval() {
    let mut c = EarnQuestContract::new();
    let quest_id = 1;
    let submitter = 100;
    let wrong_verifier = 9;
    funded_quest(&mut c, quest_id, VERIFIER, 5);
    c.submit_proof(0, quest_id, submitter, vec![1u8; 32]).unwrap();

    let result = c.approve_submission(quest_id, submitter, wrong_verifier);
    assert_eq!(result, Err(Error::UnauthorizedVerifier));
}

#[test]
fn test_unauthorized_verifier_rejection() {
    let mut c = EarnQuestContract::new();
    let quest_id = 1;
    let submitter = 100;
    let wrong_verifier = 9;
    funded_quest(&mut c, quest_id, VERIFIER, 5);
    c.submit_proof(0, quest_id, submitter, vec![1u8; 32]).unwrap();

    let result = c.reject_submission(quest_id, submitter, wrong_verifier);
    assert_eq!(result, Err(Error::UnauthorizedVerifier));
}

#[test]
fn test_approve_nonexistent_submission() {
    let mut c = EarnQuestContract::new();
    let quest_id = 1;
    funded_quest(&mut c, quest_id, VERIFIER, 5);

    let result = c.approve_submission(quest_id, 100, VERIFIER);
    assert_eq!(result, Err(Error::SubmissionNotFound));
}

#[test]
fn test_reject_nonexistent_submission() {
    let mut c = EarnQuestContract::new();
    let quest_id = 1;
    funded_quest(&mut c, quest_id, VERIFIER, 5);

    let result = c.reject_submission(quest_id, 100, VERIFIER);
    assert_eq!(result, Err(Error::SubmissionNotFound));
}

#[test]
fn test_approve_nonexistent_quest() {
    let mut c = EarnQuestContract::new();
    let result = c.approve_submission(1, 100, VERIFIER);
    assert_eq!(result, Err(Error::QuestNotFound));
}

#[test]
fn test_reject_nonexistent_quest() {
    let mut c = EarnQuestContract::new();
    let result = c.reject_submission(1, 100, VERIFIER);
    assert_eq!(result, Err(Error::QuestNotFound));
}

#[test]
fn test_approve_already_approved_submission() {
    let mut c = EarnQuestContract::new();
    let quest_id = 1;
    let submitter = 100;
    funded_quest(&mut c, quest_id, VERIFIER, 5);
    c.submit_proof(0, quest_id, submitter, vec![1u8; 32]).unwrap();
    c.approve_submission(quest_id, submitter, VERIFIER).unwrap();

    let result = c.approve_submission(quest_id, submitter, VERIFIER);
    assert_eq!(result, Err(Error::SubmissionAlreadyProcessed));
}

#[test]
fn test_reject_already_rejected_submission() {
    let mut c = EarnQuestContract::new();
    let quest_id = 1;
    let submitter = 100;
    funded_quest(&mut c, quest_id, VERIFIER, 5);
    c.submit_proof(0, quest_id, submitter, vec![1u8; 32]).unwrap();
    c.reject_submission(quest_id, submitter, VERIFIER).unwrap();

    let result = c.reject_submission(quest_id, submitter, VERIFIER);
    assert_eq!(result, Err(Error::SubmissionAlreadyProcessed));
}

#[test]
fn test_approve_paid_submission() {
    let mut c = EarnQuestContract::new();
    let quest_id = 1;
    let submitter = 100;
    funded_quest(&mut c, quest_id, VERIFIER, 5);
    c.submit_proof(0, quest_id, submitter, vec![1u8; 32]).unwrap();
    c.approve_submission(quest_id, submitter, VERIFIER).unwrap();

    // The submission is paid; approving it again is refused as already
    // processed.
    let paid = c.get_submission(quest_id, submitter).unwrap();
    assert_eq!(paid.status, SubmissionStatus::Paid);

    let result = c.approve_submission(quest_id, submitter, VERIFIER);
    assert_eq!(result, Err(Error::SubmissionAlreadyProcessed));
}

#[test]
fn test_reject_paid_submission() {
    let mut c = EarnQuestContract::new();
    let quest_id = 1;
    let submitter = 100;
    funded_quest(&mut c, quest_id, VERIFIER, 5);
    c.submit_proof(0, quest_id, submitter, vec![1u8; 32]).unwrap();
    c.approve_submission(quest_id, submitter, VERIFIER).unwrap();

    let paid = c.get_submission(quest_id, submitter).unwrap();
    assert_eq!(paid.status, SubmissionStatus::Paid);

    let result = c.reject_submission(quest_id, submitter, VERIFIER);
    assert_eq!(result, Err(Error::SubmissionAlreadyProcessed));
}

#[test]
fn test_approval_rejection_workflow() {
    let mut c = EarnQuestContract::new();
    let quest_id = 1;
    let submitter = 100;
    funded_quest(&mut c, quest_id, VERIFIER, 5);
    c.submit_proof(0, quest_id, submitter, vec![1u8; 32]).unwrap();

    let submission = c.get_submission(quest_id, submitter).unwrap();
    assert_eq!(submission.status, SubmissionStatus::Pending);

    c.approve_submission(quest_id, submitter, VERIFIER).unwrap();
    let submission = c.get_submission(quest_id, submitter).unwrap();
    assert_eq!(submission.status, SubmissionStatus::Paid);

    let result = c.reject_submission(quest_id, submitter, VERIFIER);
    assert_eq!(result, Err(Error::SubmissionAlreadyProcessed));
}

#[test]
fn test_different_verifiers_for_different_quests() {
    let mut c = EarnQuestContract::new();
    let verifier1 = 21;
    let verifier2 = 22;
    let submitter = 100;
    funded_quest(&mut c, 1, verifier1, 5);
    funded_quest(&mut c, 2, verifier2, 5);

    c.submit_proof(0, 1, submitter, vec![1u8; 32]).unwrap();
    c.submit_proof(0, 2, submitter, vec![2u8; 32]).unwrap();

    // Verifier1 can approve quest1 but not quest2
    let result1 = c.approve_submission(1, submitter, verifier1);
    assert!(result1.is_ok());

    let result2 = c.approve_submission(2, submitter, verifier1);
    assert_eq!(result2, Err(Error::UnauthorizedVerifier));

    // Verifier2 can approve quest2 but not quest1
    let result3 = c.approve_submission(2, submitter, verifier2);
    assert!(result3.is_ok());

    let result4 = c.approve_submission(1, submitter, verifier2);
    assert_eq!(result4, Err(Error::UnauthorizedVerifier));
}
