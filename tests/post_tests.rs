use echo_feed::post::{content_hash, to_record, HnPost, Post, SavedPosts, ValidationError};

fn sample_post() -> Post {
    Post {
        id: "101".to_string(),
        title: "A title".to_string(),
        author: "alice".to_string(),
        url: "https://example.com/a".to_string(),
        timestamp: "1700000000".to_string(),
    }
}

#[test]
fn detail_into_post_writes_numbers_in_decimal() {
    let d = HnPost {
        by: "bob".to_string(),
        descendants: 3,
        id: 102,
        kids: vec![1, 2],
        score: 50,
        time: 1700000123,
        title: "Story".to_string(),
        post_type: "story".to_string(),
        url: Some("https://example.com".to_string()),
    };
    let p = d.into_post();
    assert_eq!(p.id, "102");
    assert_eq!(p.author, "bob");
    assert_eq!(p.title, "Story");
    assert_eq!(p.url, "https://example.com");
    assert_eq!(p.timestamp, "1700000123");
}

#[test]
fn detail_without_url_has_empty_url() {
    let d = HnPost {
        by: "carol".to_string(),
        descendants: 0,
        id: 7,
        kids: vec![],
        score: 1,
        time: 5,
        title: "Text post".to_string(),
        post_type: "story".to_string(),
        url: None,
    };
    assert_eq!(d.into_post().url, "");
}

#[test]
fn saved_row_into_post() {
    let row = SavedPosts {
        post_id: 101,
        title: "A title".to_string(),
        url: "https://example.com/a".to_string(),
        author: "alice".to_string(),
        timestamp: 1700000000,
    };
    assert_eq!(row.into_post(), sample_post());
}

#[test]
fn content_hash_is_deterministic() {
    let a = sample_post();
    let b = sample_post();
    assert_eq!(content_hash(&a), content_hash(&b));
    let h = content_hash(&a);
    assert!(h.starts_with("0x"));
    assert_eq!(h.len(), 18);
    assert!(h[2..].chars().all(|c| c.is_ascii_hexdigit() && !c.is_ascii_uppercase()));
}

#[test]
fn content_hash_differs_in_each_field() {
    let base = sample_post();
    let h = content_hash(&base);
    let mut p = sample_post();
    p.id = "102".to_string();
    assert_ne!(content_hash(&p), h);
    let mut p = sample_post();
    p.title = "Another".to_string();
    assert_ne!(content_hash(&p), h);
    let mut p = sample_post();
    p.author = "bob".to_string();
    assert_ne!(content_hash(&p), h);
    let mut p = sample_post();
    p.url = "".to_string();
    assert_ne!(content_hash(&p), h);
    let mut p = sample_post();
    p.timestamp = "1700000001".to_string();
    assert_ne!(content_hash(&p), h);
}

#[test]
fn content_hashes_of_many_items_are_unique() {
    let mut seen = std::collections::HashSet::new();
    for i in 0..5000u32 {
        let p = Post {
            id: i.to_string(),
            title: format!("title {}", i % 97),
            author: format!("author {}", i % 13),
            url: String::new(),
            timestamp: (1700000000 + i).to_string(),
        };
        assert!(seen.insert(content_hash(&p)));
    }
}

#[test]
fn record_reads_id_and_timestamp() {
    let p = sample_post();
    let r = to_record(&p).unwrap();
    assert_eq!(r.post_id, 101);
    assert_eq!(r.timestamp, 1700000000);
    assert_eq!(r.hash, content_hash(&p));
    assert_eq!(r.title, "A title");
    assert_eq!(r.author, "alice");
    assert_eq!(r.url, "https://example.com/a");
}

#[test]
fn record_accepts_signed_numbers() {
    let mut p = sample_post();
    p.id = "+42".to_string();
    p.timestamp = "-3".to_string();
    let r = to_record(&p).unwrap();
    assert_eq!(r.post_id, 42);
    assert_eq!(r.timestamp, -3);
}

#[test]
fn record_rejects_non_numeric_id() {
    let mut p = sample_post();
    p.id = "abc".to_string();
    p.timestamp = "xyz".to_string();
    assert_eq!(to_record(&p), Err(ValidationError::InvalidId));
    p.id = "".to_string();
    assert_eq!(to_record(&p), Err(ValidationError::InvalidId));
    p.id = "99999999999999999999".to_string();
    assert_eq!(to_record(&p), Err(ValidationError::InvalidId));
}

#[test]
fn record_rejects_non_numeric_timestamp() {
    let mut p = sample_post();
    p.timestamp = "12x".to_string();
    assert_eq!(to_record(&p), Err(ValidationError::InvalidTimestamp));
    p.timestamp = " 12".to_string();
    assert_eq!(to_record(&p), Err(ValidationError::InvalidTimestamp));
}
