use ibis::article::ArticleStore;
use ibis::article::ConflictRegistry;
use ibis::article::EditOutcome;
use ibis::common::CoreError;
use ibis::common::CreateArticleData;
use ibis::common::EditArticleData;
use ibis::diff::apply;
use ibis::diff::make_patch;
use ibis::diff::three_way_merge;
use ibis::version::EditVersion;

#[test]
fn test_edit_versions() {
    let default = EditVersion::default();
    assert_eq!("e3b0c44298fc1c149afbf4c8996fb924", default.hash());

    let version = EditVersion::new("test");
    assert_eq!("9f86d081884c7d659a2feaa0c55ad015", version.hash());
}

#[test]
fn version_hash_is_lowercase_hex() {
    for diff in ["", "test", "a\nb\n", "@@ -1 +1 @@", "\u{1f600} unicode"] {
        let h = EditVersion::new(diff).hash();
        assert_eq!(h.len(), 32);
        assert!(h.chars().all(|c| c.is_ascii_hexdigit() && !c.is_ascii_uppercase()));
        assert_eq!(h, EditVersion::new(diff).hash());
    }
}

#[test]
fn patch_round_trips() {
    let cases = [
        ("", ""),
        ("", "a\n"),
        ("a\n", ""),
        ("a\nb\nc\n", "a\nx\nc\n"),
        ("one line no newline", "two lines\nno newline"),
        ("same\n", "same\n"),
    ];
    for (old, new) in cases {
        let patch = make_patch(old, new);
        assert_eq!(apply(old, &patch).unwrap(), new);
    }
}

#[test]
fn patch_apply_rejects_garbage() {
    assert!(apply("base\n", "--- a\n+++ b\n@@ -1 +1 @@\n-zzz\n+yyy\n").is_err());
}

#[test]
fn merge_identities() {
    let t = "a\nb\n";
    assert_eq!(three_way_merge(t, t, t).unwrap(), t);
    let a = "a\n";
    let b = "a\nb\n";
    assert_eq!(three_way_merge(a, b, a).unwrap(), b);
    assert_eq!(three_way_merge(a, a, b).unwrap(), b);
    assert_eq!(three_way_merge("", "", "").unwrap(), "");
}

#[test]
fn merge_conflict_carries_both_sides() {
    let merged = three_way_merge("a\n", "a\nb\n", "a\nc\n");
    let conflict = merged.unwrap_err();
    assert!(conflict.contains("<<<<<<<"));
    assert!(conflict.contains("======="));
    assert!(conflict.contains(">>>>>>>"));
    assert!(conflict.contains("b"));
    assert!(conflict.contains("c"));
}

fn create_foo(store: &mut ArticleStore, text: &str) -> i32 {
    let data = CreateArticleData {
        title: "Foo".to_string(),
        text: text.to_string(),
        summary: "create".to_string(),
    };
    let article = store
        .create_article(&data, "http://a.example/article/Foo".to_string(), 1, 1, true, 0)
        .unwrap();
    article.id
}

#[test]
fn create_article_materializes_text() {
    let mut store = ArticleStore::new();
    let id = create_foo(&mut store, "a\n");
    let article = store.get_article(id).unwrap();
    assert_eq!(article.text, "a\n");
    assert_eq!(article.title, "Foo");
    let edits = store.list_edits(id);
    assert_eq!(edits.len(), 1);
    assert_eq!(edits[0].previous_version_id, EditVersion::default());
    // the chain replays to the current text and hashes its own diffs
    assert_eq!(apply("", &edits[0].diff).unwrap(), "a\n");
    assert_eq!(edits[0].hash, EditVersion::new(&edits[0].diff));
}

#[test]
fn title_taken_on_collision() {
    let mut store = ArticleStore::new();
    create_foo(&mut store, "a\n");
    let data = CreateArticleData {
        title: "Foo".to_string(),
        text: "other\n".to_string(),
        summary: "again".to_string(),
    };
    let r = store.create_article(&data, "http://a.example/article/Foo2".to_string(), 1, 1, true, 0);
    assert_eq!(r.unwrap_err(), CoreError::TitleTaken);
}

#[test]
fn concurrent_edits_conflict() {
    let mut store = ArticleStore::new();
    let mut registry = ConflictRegistry::new();
    let id = create_foo(&mut store, "a\n");
    let base = store.latest_version(id).unwrap();

    // first user commits a fast-forward edit
    let first = EditArticleData {
        article_id: id,
        new_text: "a\nb\n".to_string(),
        summary: "add b".to_string(),
        previous_version_id: base,
        resolve_conflict_id: None,
    };
    let outcome = store.edit_article(&mut registry, &first, 1, 1).unwrap();
    assert!(matches!(outcome, EditOutcome::Applied(_)));
    assert_eq!(store.get_article(id).unwrap().text, "a\nb\n");

    // second user edits from the same, now outdated, base
    let base_again = store.list_edits(id)[0].hash.clone();
    let second = EditArticleData {
        article_id: id,
        new_text: "a\nc\n".to_string(),
        summary: "add c".to_string(),
        previous_version_id: base_again,
        resolve_conflict_id: None,
    };
    let outcome = store.edit_article(&mut registry, &second, 2, 2).unwrap();
    match outcome {
        EditOutcome::Conflict(c) => {
            assert!(c.three_way_merge.contains("b"));
            assert!(c.three_way_merge.contains("c"));
            assert!(c.three_way_merge.contains("<<<<<<<"));
            assert_eq!(c.id, EditVersion::new(&c.three_way_merge));
        }
        EditOutcome::Applied(_) => panic!("expected a conflict"),
    }
    // the article text is untouched by the conflicting edit
    assert_eq!(store.get_article(id).unwrap().text, "a\nb\n");
}

#[test]
fn rebase_applies_cleanly_when_regions_differ() {
    let mut store = ArticleStore::new();
    let mut registry = ConflictRegistry::new();
    let id = create_foo(&mut store, "a\nb\nc\nd\ne\nf\ng\nh\n");
    let base = store.latest_version(id).unwrap();
    let first = EditArticleData {
        article_id: id,
        new_text: "a\nb\nc\nd\ne\nf\ng\nh\ni\n".to_string(),
        summary: "append i".to_string(),
        previous_version_id: base.clone(),
        resolve_conflict_id: None,
    };
    store.edit_article(&mut registry, &first, 1, 1).unwrap();
    // a second edit from the old base touching the start merges cleanly
    let second = EditArticleData {
        article_id: id,
        new_text: "A\nb\nc\nd\ne\nf\ng\nh\n".to_string(),
        summary: "capitalize".to_string(),
        previous_version_id: base,
        resolve_conflict_id: None,
    };
    let outcome = store.edit_article(&mut registry, &second, 2, 2).unwrap();
    assert!(matches!(outcome, EditOutcome::Applied(_)));
    assert_eq!(store.get_article(id).unwrap().text, "A\nb\nc\nd\ne\nf\ng\nh\ni\n");
}

#[test]
fn unknown_base_is_rejected() {
    let mut store = ArticleStore::new();
    let mut registry = ConflictRegistry::new();
    let id = create_foo(&mut store, "a\n");
    let data = EditArticleData {
        article_id: id,
        new_text: "a\nb\n".to_string(),
        summary: "bogus base".to_string(),
        previous_version_id: EditVersion::new("never a version"),
        resolve_conflict_id: None,
    };
    assert_eq!(store.edit_article(&mut registry, &data, 1, 1).unwrap_err(), CoreError::UnknownBase);
    let missing = EditArticleData {
        article_id: 999,
        new_text: "x".to_string(),
        summary: "missing".to_string(),
        previous_version_id: EditVersion::default(),
        resolve_conflict_id: None,
    };
    assert_eq!(
        store.edit_article(&mut registry, &missing, 1, 1).unwrap_err(),
        CoreError::NotFound
    );
}

#[test]
fn replaying_chain_reproduces_text() {
    let mut store = ArticleStore::new();
    let mut registry = ConflictRegistry::new();
    let id = create_foo(&mut store, "a\n");
    for (n, text) in ["a\nb\n", "a\nb\nc\n", "a\nb\nc\nd\n"].iter().enumerate() {
        let head = store.latest_version(id).unwrap();
        let data = EditArticleData {
            article_id: id,
            new_text: text.to_string(),
            summary: format!("edit {n}"),
            previous_version_id: head,
            resolve_conflict_id: None,
        };
        store.edit_article(&mut registry, &data, 1, n as i64).unwrap();
    }
    store.chains_replay();
    let mut replayed = String::new();
    for edit in store.list_edits(id) {
        replayed = apply(&replayed, &edit.diff).unwrap();
        assert_eq!(edit.hash, EditVersion::new(&edit.diff));
    }
    assert_eq!(replayed, store.get_article(id).unwrap().text);
}

#[test]
fn fork_copies_chain_with_fresh_ids() {
    let mut store = ArticleStore::new();
    let mut registry = ConflictRegistry::new();
    let id = create_foo(&mut store, "a\n");
    let head = store.latest_version(id).unwrap();
    let data = EditArticleData {
        article_id: id,
        new_text: "a\nb\n".to_string(),
        summary: "add b".to_string(),
        previous_version_id: head,
        resolve_conflict_id: None,
    };
    store.edit_article(&mut registry, &data, 1, 1).unwrap();

    let fork = store
        .fork_article(id, "http://b.example/article/Foo".to_string(), 2)
        .unwrap();
    assert_ne!(fork.id, id);
    assert_eq!(fork.title, "Foo");
    assert_eq!(fork.text, "a\nb\n");
    let src_edits = store.list_edits(id);
    let fork_edits = store.list_edits(fork.id);
    assert_eq!(fork_edits.len(), 2);
    for (s, f) in src_edits.iter().zip(fork_edits.iter()) {
        assert_eq!(s.diff, f.diff);
        assert_eq!(s.hash, f.hash);
        assert_ne!(s.ap_id, f.ap_id);
        assert_ne!(s.article_id, f.article_id);
    }
}
