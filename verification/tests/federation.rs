use ibis::article::EditOutcome;
use ibis::common::CoreError;
use ibis::common::CreateArticleData;
use ibis::common::EditArticleData;
use ibis::diff::make_patch;
use ibis::federation::Activity;
use ibis::federation::ApubEdit;
use ibis::federation::DbInstance;
use ibis::federation::EditType;
use ibis::federation::FederationState;
use ibis::federation::UpdateArticle;
use ibis::federation::verify_domains_match;

fn instance(id: i32, domain: &str) -> DbInstance {
    DbInstance {
        id,
        domain: domain.to_string(),
        ap_id: format!("http://{domain}/"),
        description: None,
        articles_url: format!("http://{domain}/articles"),
        inbox_url: format!("http://{domain}/inbox"),
        public_key: "pem".to_string(),
        private_key: Some("SECRET-REDACTED".to_string()),
        last_refreshed_at: 0,
        local: true,
        followers: Vec::new(),
        follows: Vec::new(),
    }
}

#[test]
fn follow_and_auto_accept() {
    let mut a = FederationState::new(instance(1, "a.example"));
    let mut b = FederationState::new(instance(2, "b.example"));
    let b_ap = b.local_instance.ap_id.clone();
    let a_ap = a.local_instance.ap_id.clone();

    a.follow(&b_ap, "http://a.example/activity/1".to_string());
    assert_eq!(a.outbound.len(), 1);
    let sent = a.outbound.remove(0);
    assert_eq!(sent.to, b_ap);

    b.receive_activity(sent.activity, 0, 0).unwrap();
    assert!(b.local_instance.followers().contains(&a_ap));

    let reply = b.outbound.remove(0);
    assert_eq!(reply.to, a_ap);
    a.receive_activity(reply.activity, 0, 0).unwrap();
    assert!(a.local_instance.follows.contains(&b_ap));
}

#[test]
fn inbound_update_applies_and_second_delivery_is_noop() {
    let mut b = FederationState::new(instance(2, "b.example"));
    let data = CreateArticleData {
        title: "Foo".to_string(),
        text: "a\n".to_string(),
        summary: "create".to_string(),
    };
    let article = b
        .store
        .create_article(&data, "http://a.example/article/Foo".to_string(), 1, 1, false, 0)
        .unwrap();
    let head = b.store.latest_version(article.id).unwrap();
    let diff = make_patch("a\n", "a\nb\n");
    let update = UpdateArticle {
        id: "http://a.example/activity/7".to_string(),
        actor: "http://a.example/".to_string(),
        object: ApubEdit {
            kind: EditType::Edit,
            id: "http://a.example/edit/7".to_string(),
            diff,
            previous_version: head.clone(),
            summary: "add b".to_string(),
        },
        article: "http://a.example/article/Foo".to_string(),
    };
    let again = UpdateArticle {
        id: update.id.clone(),
        actor: update.actor.clone(),
        object: ApubEdit {
            kind: EditType::Edit,
            id: update.object.id.clone(),
            diff: update.object.diff.clone(),
            previous_version: head,
            summary: update.object.summary.clone(),
        },
        article: update.article.clone(),
    };

    b.receive_activity(Activity::UpdateArticle(update), 0, 1).unwrap();
    assert_eq!(b.store.get_article(article.id).unwrap().text, "a\nb\n");
    assert_eq!(b.store.list_edits(article.id).len(), 2);

    // delivering the same activity id again changes nothing
    b.receive_activity(Activity::UpdateArticle(again), 0, 2).unwrap();
    assert_eq!(b.store.get_article(article.id).unwrap().text, "a\nb\n");
    assert_eq!(b.store.list_edits(article.id).len(), 2);
    assert_eq!(b.processed.len(), 1);
}

#[test]
fn denied_actor_cannot_follow() {
    let mut b = FederationState::new(instance(2, "b.example"));
    b.denied_hosts.push("malicious.example".to_string());
    let follow = ibis::federation::Follow {
        id: "http://malicious.example/activity/1".to_string(),
        actor: "http://malicious.example/".to_string(),
        object: b.local_instance.ap_id.clone(),
    };
    let r = b.receive_activity(Activity::Follow(follow), 0, 0);
    assert_eq!(r.unwrap_err(), CoreError::Forbidden);
    assert!(b.local_instance.followers().is_empty());
    assert!(b.outbound.is_empty());
}

#[test]
fn inbound_update_rejects_foreign_domain() {
    let mut b = FederationState::new(instance(2, "b.example"));
    let update = UpdateArticle {
        id: "http://evil.example/activity/1".to_string(),
        actor: "http://evil.example/".to_string(),
        object: ApubEdit {
            kind: EditType::Edit,
            id: "http://a.example/edit/1".to_string(),
            diff: "junk".to_string(),
            previous_version: ibis::version::EditVersion::default(),
            summary: "spoof".to_string(),
        },
        article: "http://a.example/article/Foo".to_string(),
    };
    let r = b.receive_activity(Activity::UpdateArticle(update), 0, 0);
    assert_eq!(r.unwrap_err(), CoreError::DomainMismatch);
    assert_eq!(b.processed.len(), 0);
}

#[test]
fn inbound_update_with_bad_patch_fails() {
    let mut b = FederationState::new(instance(2, "b.example"));
    let data = CreateArticleData {
        title: "Foo".to_string(),
        text: "a\n".to_string(),
        summary: "create".to_string(),
    };
    let article = b
        .store
        .create_article(&data, "http://a.example/article/Foo".to_string(), 1, 1, false, 0)
        .unwrap();
    let head = b.store.latest_version(article.id).unwrap();
    let update = UpdateArticle {
        id: "http://a.example/activity/9".to_string(),
        actor: "http://a.example/".to_string(),
        object: ApubEdit {
            kind: EditType::Edit,
            id: "http://a.example/edit/9".to_string(),
            diff: "--- a\n+++ b\n@@ -1 +1 @@\n-zzz\n+yyy\n".to_string(),
            previous_version: head,
            summary: "broken".to_string(),
        },
        article: "http://a.example/article/Foo".to_string(),
    };
    let r = b.receive_activity(Activity::UpdateArticle(update), 0, 1);
    assert_eq!(r.unwrap_err(), CoreError::PatchApply);
    assert_eq!(b.store.get_article(article.id).unwrap().text, "a\n");
}

#[test]
fn resolve_conflict_deletes_it() {
    let mut b = FederationState::new(instance(1, "a.example"));
    let data = CreateArticleData {
        title: "Foo".to_string(),
        text: "a\n".to_string(),
        summary: "create".to_string(),
    };
    let article = b
        .store
        .create_article(&data, "http://a.example/article/Foo".to_string(), 1, 1, true, 0)
        .unwrap();
    let base = b.store.latest_version(article.id).unwrap();
    let first = EditArticleData {
        article_id: article.id,
        new_text: "a\nb\n".to_string(),
        summary: "add b".to_string(),
        previous_version_id: base.clone(),
        resolve_conflict_id: None,
    };
    b.store.edit_article(&mut b.conflicts, &first, 1, 1).unwrap();
    let second = EditArticleData {
        article_id: article.id,
        new_text: "a\nc\n".to_string(),
        summary: "add c".to_string(),
        previous_version_id: base,
        resolve_conflict_id: None,
    };
    let conflict = match b.store.edit_article(&mut b.conflicts, &second, 2, 2).unwrap() {
        EditOutcome::Conflict(c) => c,
        EditOutcome::Applied(_) => panic!("expected a conflict"),
    };
    // the user resolves the conflict with a fast-forward edit naming it
    let head = b.store.latest_version(article.id).unwrap();
    let resolve = EditArticleData {
        article_id: article.id,
        new_text: "a\nb\nc\n".to_string(),
        summary: "merge by hand".to_string(),
        previous_version_id: head,
        resolve_conflict_id: Some(conflict.id),
    };
    let outcome = b.store.edit_article(&mut b.conflicts, &resolve, 2, 3).unwrap();
    assert!(matches!(outcome, EditOutcome::Applied(_)));
    assert_eq!(b.store.get_article(article.id).unwrap().text, "a\nb\nc\n");
}

#[test]
fn domain_match_checks_host() {
    assert!(verify_domains_match(
        &"http://a.example/x".to_string(),
        &"http://a.example/y".to_string()
    )
    .is_ok());
    assert_eq!(
        verify_domains_match(&"http://a.example/".to_string(), &"http://b.example/".to_string())
            .unwrap_err(),
        CoreError::DomainMismatch
    );
    assert_eq!(
        verify_domains_match(&"not a url".to_string(), &"http://b.example/".to_string())
            .unwrap_err(),
        CoreError::DomainMismatch
    );
}
