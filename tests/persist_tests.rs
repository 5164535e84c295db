use echo_feed::auth::{TokenClaims, UserId};
use echo_feed::error::EchoError;
use echo_feed::auth::AuthError;
use echo_feed::persist::{
    next_save_action, plan_listing, plan_save, ListStep, SaveAction, SaveStep, StorageFailure,
    SAVED_BUTTON,
};
use echo_feed::post::{content_hash, Post, SavedPosts, ValidationError};

fn item() -> Post {
    Post {
        id: "555".to_string(),
        title: "Saved story".to_string(),
        author: "dave".to_string(),
        url: "https://example.com/s".to_string(),
        timestamp: "1690000000".to_string(),
    }
}

fn user(bits: u128) -> Option<TokenClaims> {
    Some(TokenClaims { id: UserId { bits } })
}

#[test]
fn save_without_identity_is_unauthorized() {
    assert_eq!(plan_save(None, &item()), SaveStep::Unauthorized);
    let mut bad = item();
    bad.id = "x".to_string();
    assert_eq!(plan_save(None, &bad), SaveStep::Unauthorized);
}

#[test]
fn save_with_bad_numbers_is_invalid() {
    let mut p = item();
    p.id = "12a".to_string();
    assert_eq!(plan_save(user(1), &p), SaveStep::Invalid(ValidationError::InvalidId));
    let mut p = item();
    p.timestamp = "soon".to_string();
    assert_eq!(plan_save(user(1), &p), SaveStep::Invalid(ValidationError::InvalidTimestamp));
}

#[test]
fn save_plans_record_for_user() {
    match plan_save(user(77), &item()) {
        SaveStep::Persist(plan) => {
            assert_eq!(plan.user, UserId { bits: 77 });
            assert_eq!(plan.record.hash, content_hash(&item()));
            assert_eq!(plan.record.post_id, 555);
            assert_eq!(plan.record.timestamp, 1690000000);
        }
        other => panic!("unexpected {:?}", other),
    }
}

#[test]
fn saving_twice_plans_the_same_writes() {
    let first = plan_save(user(3), &item());
    let second = plan_save(user(3), &item());
    assert_eq!(first, second);
}

#[test]
fn two_users_share_the_record_key() {
    let a = plan_save(user(1), &item());
    let b = plan_save(user(2), &item());
    match (a, b) {
        (SaveStep::Persist(x), SaveStep::Persist(y)) => {
            assert_eq!(x.record, y.record);
            assert_ne!(x.user, y.user);
        }
        _ => panic!("both saves should persist"),
    }
}

#[test]
fn concurrent_saves_target_one_row_and_one_id() {
    let plans: Vec<SaveStep> = (0..2).map(|_| plan_save(user(5), &item())).collect();
    let mut keys = std::collections::HashSet::new();
    let mut ids = std::collections::HashSet::new();
    for p in plans {
        if let SaveStep::Persist(plan) = p {
            keys.insert(plan.record.hash.clone());
            ids.insert(plan.record.post_id);
        }
    }
    assert_eq!(keys.len(), 1);
    assert_eq!(ids.len(), 1);
}

#[test]
fn saved_then_listed_round_trip() {
    let p = item();
    let plan = match plan_save(user(9), &p) {
        SaveStep::Persist(plan) => plan,
        other => panic!("unexpected {:?}", other),
    };
    let row = SavedPosts {
        post_id: plan.record.post_id,
        title: plan.record.title.clone(),
        url: plan.record.url.clone(),
        author: plan.record.author.clone(),
        timestamp: plan.record.timestamp,
    };
    assert_eq!(row.into_post(), p);
}

#[test]
fn save_steps_write_record_before_collection() {
    assert_eq!(next_save_action(None, None), SaveAction::WriteRecord);
    assert_eq!(next_save_action(Some(true), None), SaveAction::AppendToCollection);
    assert_eq!(
        next_save_action(Some(true), Some(true)),
        SaveAction::Reply(Ok(SAVED_BUTTON.to_string()))
    );
}

#[test]
fn failed_record_write_never_touches_collection() {
    assert_eq!(
        next_save_action(Some(false), None),
        SaveAction::Reply(Err(StorageFailure::RecordWrite))
    );
    assert_eq!(
        next_save_action(Some(true), Some(false)),
        SaveAction::Reply(Err(StorageFailure::CollectionWrite))
    );
}

#[test]
fn listing_needs_identity() {
    assert_eq!(plan_listing(None), ListStep::Unauthorized);
    assert_eq!(plan_listing(user(4)), ListStep::Read(UserId { bits: 4 }));
}

#[test]
fn error_status_codes() {
    assert_eq!(EchoError::AuthError(AuthError::InvalidSignature).status_code(), 401);
    assert_eq!(EchoError::ValidationError(ValidationError::InvalidId).status_code(), 400);
    assert_eq!(EchoError::StorageError(StorageFailure::CollectionWrite).status_code(), 500);
    assert_eq!(EchoError::RemoteFetchError.status_code(), 500);
}
