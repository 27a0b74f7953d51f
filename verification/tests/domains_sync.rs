use orivo::domains::sync::{
    compare, commit_message, gunzip, gzip, hash, parse_conflict_answer, plan_sync, restore_blob,
    to_hex_lower, ConflictChoice, SyncError, SyncPlan, MAX_DB_BYTES,
};

#[test]
fn round_trips_normal_data() {
    let data = b"a normal little database".repeat(100);
    assert_eq!(gunzip(&gzip(&data).unwrap()).unwrap(), data);
}

#[test]
fn refuses_a_decompression_bomb() {
    // Highly compressible zeroes: a few hundred KiB of gzip expands past
    // the cap, which is the shape of the attack the limit exists for.
    let bomb = gzip(&vec![0u8; (MAX_DB_BYTES + 1024) as usize]).unwrap();
    assert!(
        (bomb.len() as u64) < MAX_DB_BYTES,
        "the compressed bomb should be far smaller than the cap it defeats"
    );

    let err = gunzip(&bomb).expect_err("expanding past the cap must fail");
    assert!(
        err.message().contains("refusing to unpack"),
        "unexpected error: {}",
        err.message()
    );
}

#[test]
fn round_trips_empty_data() {
    assert_eq!(gunzip(&gzip(&[]).unwrap()).unwrap(), Vec::<u8>::new());
}

#[test]
fn gunzip_refuses_garbage() {
    let err = gunzip(b"this is not gzip").unwrap_err();
    assert!(matches!(err, SyncError::Decompress(_)));
}

#[test]
fn hash_is_lowercase_hex_sha256() {
    assert_eq!(hash(b""), "e3b0c44298fc1c149afbf4c8996fb92427ae41e4649b934ca495991b7852b855");
    assert_eq!(hash(b"abc"), "ba7816bf8f01cfea414140de5dae2223b00361a396177a9cb410ff61f20015ad");
    assert_eq!(to_hex_lower(&[0x00, 0x0f, 0xa0, 0xff]), "000fa0ff");
}

#[test]
fn plan_follows_the_table() {
    // Repo has nothing pushed yet: push, whatever the state says.
    assert_eq!(plan_sync("a", None, Some("z")), SyncPlan::PushToEmptyRepo);
    assert_eq!(plan_sync("a", None, None), SyncPlan::PushToEmptyRepo);
    // Neither side changed.
    assert_eq!(plan_sync("a", Some("a"), Some("a")), SyncPlan::UpToDate);
    // Only the local database changed.
    assert_eq!(plan_sync("b", Some("a"), Some("a")), SyncPlan::Push);
    // Only the repo changed.
    assert_eq!(plan_sync("a", Some("b"), Some("a")), SyncPlan::Pull);
    // Both changed.
    assert_eq!(plan_sync("b", Some("c"), Some("a")), SyncPlan::AskUser);
    // Both changed to the same thing still asks: local and remote are never compared.
    assert_eq!(plan_sync("b", Some("b"), Some("a")), SyncPlan::AskUser);
    // Never synced before, repo not empty.
    assert_eq!(plan_sync("b", Some("b"), None), SyncPlan::AskUser);
}

#[test]
fn compare_hashes_both_sides() {
    let db = b"local database".to_vec();
    let first = compare(&db, None, None).unwrap();
    assert_eq!(first.plan, SyncPlan::PushToEmptyRepo);
    assert_eq!(first.local_hash, hash(&first.local_gz));
    assert_eq!(gunzip(&first.local_gz).unwrap(), db);
    assert!(first.remote_hash.is_none());

    // After a push, the repo holds the pushed blob and the state its hash.
    let pushed = first.local_gz.clone();
    let again = compare(&db, Some(pushed.clone()), Some(first.local_hash.clone())).unwrap();
    assert_eq!(again.plan, SyncPlan::UpToDate);
    assert_eq!(again.remote_hash, Some(first.local_hash.clone()));
    assert_eq!(again.remote_gz, Some(pushed.clone()));

    let changed = compare(b"edited database", Some(pushed.clone()), Some(first.local_hash.clone())).unwrap();
    assert_eq!(changed.plan, SyncPlan::Push);

    let remote_only = compare(&db, Some(gzip(b"other machine").unwrap()), Some(first.local_hash.clone())).unwrap();
    assert_eq!(remote_only.plan, SyncPlan::Pull);
}

#[test]
fn restore_needs_a_blob() {
    assert_eq!(restore_blob(None).unwrap_err(), SyncError::MissingRemoteFile);
    assert_eq!(restore_blob(None).unwrap_err().message(), "the sync repo's database file is missing");
    let blob = gzip(b"db").unwrap();
    assert_eq!(restore_blob(Some(blob)).unwrap(), b"db".to_vec());
    assert!(matches!(restore_blob(Some(b"junk".to_vec())), Err(SyncError::Decompress(_))));
}

#[test]
fn conflict_answers() {
    assert_eq!(parse_conflict_answer("l\n"), ConflictChoice::KeepLocal);
    assert_eq!(parse_conflict_answer("  Local  "), ConflictChoice::KeepLocal);
    assert_eq!(parse_conflict_answer("LOCAL"), ConflictChoice::KeepLocal);
    assert_eq!(parse_conflict_answer("r"), ConflictChoice::KeepRemote);
    assert_eq!(parse_conflict_answer("\tReMoTe\r\n"), ConflictChoice::KeepRemote);
    assert_eq!(parse_conflict_answer("\u{a0}r\u{3000}"), ConflictChoice::KeepRemote);
    assert_eq!(parse_conflict_answer(""), ConflictChoice::Cancel);
    assert_eq!(parse_conflict_answer("\n"), ConflictChoice::Cancel);
    assert_eq!(parse_conflict_answer("lo"), ConflictChoice::Cancel);
    assert_eq!(parse_conflict_answer("l o"), ConflictChoice::Cancel);
    assert_eq!(parse_conflict_answer("yes"), ConflictChoice::Cancel);
    assert_eq!(parse_conflict_answer("remotely"), ConflictChoice::Cancel);
}

#[test]
fn conflict_answers_agree_with_std_trim_and_lowercase() {
    let answers = ["l", " L ", "Local\n", "LoCaL", "r", "R", "remote", " REMOTE\t", "", "x", "\u{2003}l\u{2029}", "\u{212a}", "lócal", "rem ote"];
    for a in answers {
        let expected = match a.trim().to_lowercase().as_str() {
            "l" | "local" => ConflictChoice::KeepLocal,
            "r" | "remote" => ConflictChoice::KeepRemote,
            _ => ConflictChoice::Cancel,
        };
        assert_eq!(parse_conflict_answer(a), expected, "answer {a:?}");
    }
}

#[test]
fn announcements_and_commit_message() {
    assert_eq!(SyncPlan::PushToEmptyRepo.announcement(), "repo on github is empty — pushing");
    assert_eq!(SyncPlan::UpToDate.announcement(), "nothing changed since the last sync, already up to date");
    assert_eq!(SyncPlan::Push.announcement(), "local database changed, github did not — pushing");
    assert_eq!(SyncPlan::Pull.announcement(), "database on github changed, local did not — pulling");
    assert_eq!(
        SyncPlan::AskUser.announcement(),
        "both the local database and the github repo have changed since the last sync."
    );
    assert_eq!(commit_message("2024-05-01 10:00:00"), "sync: 2024-05-01 10:00:00");
}

#[test]
fn too_large_message() {
    assert_eq!(
        SyncError::TooLarge.message(),
        "the sync repo's database expands to more than 512 MiB; refusing to unpack it"
    );
    assert_eq!(SyncError::Compress("boom".to_string()).message(), "boom");
}

#[test]
fn gzip_is_deterministic_and_hashes_are_hex() {
    let db = b"same database".to_vec();
    let a = gzip(&db).unwrap();
    let b = gzip(&db).unwrap();
    assert_eq!(a, b);
    assert_eq!(hash(&a), hash(&b));
    for data in [&b""[..], b"abc", &a] {
        let h = hash(data);
        assert_eq!(h.len(), 64);
        assert!(h.chars().all(|c| c.is_ascii_digit() || ('a'..='f').contains(&c)));
    }
}
