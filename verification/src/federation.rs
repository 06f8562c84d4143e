//! Federation objects, activities and the inbox dispatcher.
//!
//! Instances follow one another and replicate article creations and edits.
//! Inbound activities are deduplicated by their id, checked for a matching
//! actor and object domain where that invariant applies, and routed to a
//! handler that drives the article store; outbound activities are queued for
//! delivery, addressed to the recipient actor.

use vstd::prelude::*;
use vstd::string::StringExecFns;
use crate::article::created_entry;
use crate::article::first_ap_match;
use crate::article::in_chain;
use crate::article::last_hash_match;
use crate::article::chain_diffs;
use crate::article::title_taken;
use crate::article::update_applied;
use crate::article::EditOutcome;
use crate::diff::apply_of;
use crate::diff::replay;
use crate::article::has_article_ap;
use crate::article::ArticleStore;
use crate::article::ConflictRegistry;
use crate::article::DbArticle;
use crate::article::DbEdit;
use crate::common::CoreError;
use crate::common::CreateArticleData;
use crate::version::EditVersion;

verus! {

/// The host of an absolute URL, when the string parses as one; a pure
/// function of the string.
pub uninterp spec fn host_of(s: Seq<char>) -> Option<Seq<char>>;

/// Relies on url::Url::parse and url::Url::host_str: the host part of the
/// URL, or none when the string does not parse as an absolute URL with a
/// host.
#[verifier::external_body]
fn url_host(s: &str) -> (r: Option<String>)
    ensures
        match r {
            Some(h) => host_of(s@) == Some(h@),
            None => host_of(s@) is None,
        },
{
    match url::Url::parse(s) {
        Ok(u) => match u.host_str() {
            Some(h) => Some(h.to_string()),
            None => None,
        },
        Err(_) => None,
    }
}

/// Checks that two URLs name the same host, as federation object validation
/// requires of an activity's actor and object.
pub fn verify_domains_match(a: &String, b: &String) -> (r: Result<(), CoreError>)
    ensures
        match r {
            Ok(_) => host_of(a@) is Some && host_of(a@) == host_of(b@),
            Err(e) => e == CoreError::DomainMismatch && !(host_of(a@) is Some && host_of(a@)
                == host_of(b@)),
        },
{
    let ha = url_host(a.as_str());
    let hb = url_host(b.as_str());
    match (ha, hb) {
        (Some(x), Some(y)) => {
            if x == y {
                Ok(())
            } else {
                Err(CoreError::DomainMismatch)
            }
        },
        _ => Err(CoreError::DomainMismatch),
    }
}

/// One participating server: an actor with its own key pair. A local
/// instance additionally tracks who follows it and whom it follows.
pub struct DbInstance {
    pub id: i32,
    pub domain: String,
    pub ap_id: String,
    pub description: Option<String>,
    pub articles_url: String,
    pub inbox_url: String,
    pub public_key: String,
    pub private_key: Option<String>,
    pub last_refreshed_at: i64,
    pub local: bool,
    pub followers: Vec<String>,
    pub follows: Vec<String>,
}

/// The ActivityPub actor kind of an instance.
#[derive(Clone, Copy, Debug, PartialEq, Eq, Structural)]
pub enum ServiceType {
    Service,
}

/// An actor's public key as delivered on the wire.
pub struct PublicKey {
    pub id: String,
    pub owner: String,
    pub public_key_pem: String,
}

/// The wire form of an instance actor.
pub struct Instance {
    pub kind: ServiceType,
    pub id: String,
    pub inbox: String,
    pub public_key: PublicKey,
}

impl DbInstance {
    /// The ap_ids of the instances that follow this one.
    pub fn followers(&self) -> (r: &Vec<String>)
        ensures
            r == &self.followers,
    {
        &self.followers
    }

    /// The URL of this instance's followers collection.
    pub fn followers_url(&self) -> (r: String)
        ensures
            r@ == self.ap_id@ + "/followers"@,
    {
        let mut s = self.ap_id.clone();
        s.append("/followers");
        s
    }

    /// The wire form of this instance: its ap_id, inbox and public key.
    pub fn into_json(&self) -> (r: Instance)
        ensures
            r.kind == ServiceType::Service,
            r.id@ == self.ap_id@,
            r.inbox@ == self.inbox_url@,
            r.public_key.owner@ == self.ap_id@,
            r.public_key.id@ == self.ap_id@ + "#main-key"@,
            r.public_key.public_key_pem@ == self.public_key@,
    {
        let mut key_id = self.ap_id.clone();
        key_id.append("#main-key");
        Instance {
            kind: ServiceType::Service,
            id: self.ap_id.clone(),
            inbox: self.inbox_url.clone(),
            public_key: PublicKey {
                id: key_id,
                owner: self.ap_id.clone(),
                public_key_pem: self.public_key.clone(),
            },
        }
    }
}

/// An instance record built from its wire form: never local, with no
/// private key, freshly stamped; fails when the ap_id has no host to take
/// the domain from.
pub fn instance_from_json(json: Instance, id: i32, now: i64) -> (r: Result<DbInstance, CoreError>)
    ensures
        match r {
            Ok(inst) => {
                &&& inst.id == id
                &&& Some(inst.domain@) == host_of(json.id@)
                &&& inst.ap_id@ == json.id@
                &&& inst.inbox_url@ == json.inbox@
                &&& inst.public_key@ == json.public_key.public_key_pem@
                &&& inst.private_key is None
                &&& inst.last_refreshed_at == now
                &&& inst.local == false
                &&& inst.followers@.len() == 0
                &&& inst.follows@.len() == 0
            },
            Err(e) => e == CoreError::DomainMismatch && host_of(json.id@) is None,
        },
{
    let domain = match url_host(json.id.as_str()) {
        Some(h) => h,
        None => {
            return Err(CoreError::DomainMismatch);
        },
    };
    let mut articles_url = json.id.clone();
    articles_url.append("/articles");
    Ok(
        DbInstance {
            id: id,
            domain: domain,
            ap_id: json.id,
            description: None,
            articles_url: articles_url,
            inbox_url: json.inbox,
            public_key: json.public_key.public_key_pem,
            private_key: None,
            last_refreshed_at: now,
            local: false,
            followers: Vec::new(),
            follows: Vec::new(),
        },
    )
}

/// The kind tag of an edit object on the wire.
#[derive(Clone, Copy, Debug, PartialEq, Eq, Structural)]
pub enum EditType {
    Edit,
}

/// The wire form of one edit.
pub struct ApubEdit {
    pub kind: EditType,
    pub id: String,
    pub diff: String,
    pub previous_version: EditVersion,
    pub summary: String,
}

/// The wire form of one article.
pub struct ApubArticle {
    pub id: String,
    pub name: String,
    pub content: String,
    pub attributed_to: String,
    pub protected: bool,
}

impl DbEdit {
    /// The wire form of this edit.
    pub fn into_json(&self) -> (r: ApubEdit)
        ensures
            r.kind == EditType::Edit,
            r.id@ == self.ap_id@,
            r.diff@ == self.diff@,
            r.previous_version@ == self.previous_version_id@,
            r.summary@ == self.summary@,
    {
        ApubEdit {
            kind: EditType::Edit,
            id: self.ap_id.clone(),
            diff: self.diff.clone(),
            previous_version: self.previous_version_id.clone(),
            summary: self.summary.clone(),
        }
    }
}

impl DbArticle {
    /// The wire form of this article, attributed to its owning instance.
    pub fn into_json(&self, attributed_to: &String) -> (r: ApubArticle)
        ensures
            r.id@ == self.ap_id@,
            r.name@ == self.title@,
            r.content@ == self.text@,
            r.attributed_to@ == attributed_to@,
            r.protected == self.protected,
    {
        ApubArticle {
            id: self.ap_id.clone(),
            name: self.title.clone(),
            content: self.text.clone(),
            attributed_to: attributed_to.clone(),
            protected: self.protected,
        }
    }
}

/// A request by `actor` to follow `object`.
pub struct Follow {
    pub id: String,
    pub actor: String,
    pub object: String,
}

/// Acceptance by `actor` of a follow request it received.
pub struct Accept {
    pub id: String,
    pub actor: String,
    pub object: Follow,
}

/// Announcement of a newly created article.
pub struct CreateArticle {
    pub id: String,
    pub actor: String,
    pub object: ApubArticle,
}

/// Propagation of one edit of the article named by `article`.
pub struct UpdateArticle {
    pub id: String,
    pub actor: String,
    pub object: ApubEdit,
    pub article: String,
}

/// The activities this federation exchanges, as a tagged sum.
pub enum Activity {
    Follow(Follow),
    Accept(Accept),
    CreateArticle(CreateArticle),
    UpdateArticle(UpdateArticle),
}

/// The id of an activity, the key it is deduplicated by.
pub open spec fn activity_id(a: Activity) -> Seq<char> {
    match a {
        Activity::Follow(f) => f.id@,
        Activity::Accept(x) => x.id@,
        Activity::CreateArticle(x) => x.id@,
        Activity::UpdateArticle(x) => x.id@,
    }
}

/// The id of an activity.
pub fn activity_id_ref(a: &Activity) -> (r: &String)
    ensures
        r@ == activity_id(*a),
{
    match a {
        Activity::Follow(f) => &f.id,
        Activity::Accept(x) => &x.id,
        Activity::CreateArticle(x) => &x.id,
        Activity::UpdateArticle(x) => &x.id,
    }
}

/// An instance together with what a reader of its page needs.
pub struct InstanceView {
    pub instance: DbInstance,
    pub registration_open: bool,
}

/// An activity queued for delivery to the inbox of the actor named by `to`.
pub struct OutboundActivity {
    pub activity: Activity,
    pub to: String,
}

/// Whether a list of strings holds one with this content.
pub open spec fn seq_has_str(s: Seq<String>, v: Seq<char>) -> bool {
    exists|i: int| 0 <= i < s.len() && (#[trigger] s[i])@ == v
}

/// The list after recording `v` once: unchanged when already present, else
/// extended by it.
pub open spec fn str_added(olds: Seq<String>, news: Seq<String>, v: Seq<char>) -> bool {
    if seq_has_str(olds, v) {
        news == olds
    } else {
        news == olds.push(news.last()) && news.last()@ == v
    }
}

/// The whole federated state of one instance: its articles and conflicts,
/// itself and the instances it knows, the inbound activity ids it has
/// already processed, and its outbound delivery queue.
pub struct FederationState {
    pub store: ArticleStore,
    pub conflicts: ConflictRegistry,
    pub local_instance: DbInstance,
    pub instances: Vec<DbInstance>,
    pub denied_hosts: Vec<String>,
    pub processed: Vec<String>,
    pub outbound: Vec<OutboundActivity>,
}

/// Whether both URLs parse and name the same host.
pub open spec fn hosts_match(a: Seq<char>, b: Seq<char>) -> bool {
    host_of(a) is Some && host_of(a) == host_of(b)
}

/// Whether an actor's host is on the deny list.
pub open spec fn denied(hosts: Seq<String>, actor: Seq<char>) -> bool {
    match host_of(actor) {
        Some(h) => seq_has_str(hosts, h),
        None => false,
    }
}

/// `k` is the index of the first known instance whose ap_id is `ap`.
pub open spec fn first_instance_match(v: Seq<DbInstance>, ap: Seq<char>, k: int) -> bool {
    &&& 0 <= k < v.len()
    &&& v[k].ap_id@ == ap
    &&& forall|m: int| 0 <= m < k ==> (#[trigger] v[m]).ap_id@ != ap
}

/// The exact reason a fresh activity was rejected, leaving the state
/// unchanged; each error kind comes for its stated cause and no other.
pub open spec fn activity_rejected(s: FederationState, a: Activity, e: CoreError) -> bool {
    match a {
        Activity::Follow(f) => match e {
            CoreError::NotFound => f.object@ != s.local_instance.ap_id@,
            CoreError::Forbidden => f.object@ == s.local_instance.ap_id@ && denied(
                s.denied_hosts@,
                f.actor@,
            ),
            _ => false,
        },
        Activity::Accept(_) => false,
        Activity::CreateArticle(c) => match e {
            CoreError::DomainMismatch => !hosts_match(c.actor@, c.object.id@),
            CoreError::Forbidden => hosts_match(c.actor@, c.object.id@) && !has_article_ap(
                s.store@,
                c.object.id@,
            ) && c.object.name@.len() == 0,
            CoreError::NotFound => hosts_match(c.actor@, c.object.id@) && !has_article_ap(
                s.store@,
                c.object.id@,
            ) && c.object.name@.len() > 0 && (forall|k: int|
                0 <= k < s.instances@.len() ==> (#[trigger] s.instances@[k]).ap_id@ != c.actor@),
            CoreError::TitleTaken => hosts_match(c.actor@, c.object.id@) && !has_article_ap(
                s.store@,
                c.object.id@,
            ) && c.object.name@.len() > 0 && (forall|k: int|
                #[trigger] first_instance_match(s.instances@, c.actor@, k) ==> title_taken(
                    s.store@,
                    c.object.name@,
                    s.instances@[k].id,
                )),
            _ => false,
        },
        Activity::UpdateArticle(u) => match e {
            CoreError::DomainMismatch => !hosts_match(u.actor@, u.object.id@),
            CoreError::NotFound => hosts_match(u.actor@, u.object.id@) && !has_article_ap(
                s.store@,
                u.article@,
            ),
            CoreError::UnknownBase => hosts_match(u.actor@, u.object.id@) && has_article_ap(
                s.store@,
                u.article@,
            ) && (forall|i: int|
                #[trigger] first_ap_match(s.store@, u.article@, i) ==> !in_chain(
                    s.store@[i],
                    u.object.previous_version@,
                )),
            CoreError::PatchApply => hosts_match(u.actor@, u.object.id@) && (forall|i: int, j: int|
                first_ap_match(s.store@, u.article@, i) && #[trigger] last_hash_match(
                    s.store@[i],
                    u.object.previous_version@,
                    j,
                ) ==> match replay(chain_diffs(s.store@[i].edits@).take(j + 1)) {
                    Some(pt) => apply_of(pt, u.object.diff@) is None,
                    None => true,
                }),
            _ => false,
        },
    }
}

/// Whether an activity with this id was already processed.
pub open spec fn processed_has(s: FederationState, id: Seq<char>) -> bool {
    seq_has_str(s.processed@, id)
}

/// The effect of handling a fresh (not yet processed) activity, by kind.
pub open spec fn activity_handled(
    olds: FederationState,
    news: FederationState,
    a: Activity,
    creator_id: i32,
    now: i64,
) -> bool {
    match a {
        Activity::Follow(f) => {
            &&& f.object@ == olds.local_instance.ap_id@
            &&& !denied(olds.denied_hosts@, f.actor@)
            &&& news.denied_hosts@ == olds.denied_hosts@
            &&& instance_same_but_lists(news.local_instance, olds.local_instance)
            &&& str_added(olds.local_instance.followers@, news.local_instance.followers@, f.actor@)
            &&& news.local_instance.follows@ == olds.local_instance.follows@
            &&& news.store@ == olds.store@
            &&& news.conflicts@ == olds.conflicts@
            &&& news.instances@ == olds.instances@
            &&& news.outbound@ == olds.outbound@.push(news.outbound@.last())
            &&& news.outbound@.last().to@ == f.actor@
            &&& (news.outbound@.last().activity matches Activity::Accept(acc) && {
                &&& acc.actor@ == olds.local_instance.ap_id@
                &&& acc.object.actor@ == f.actor@
                &&& acc.object.object@ == f.object@
            })
        },
        Activity::Accept(acc) => {
            &&& news.denied_hosts@ == olds.denied_hosts@
            &&& news.store@ == olds.store@
            &&& news.conflicts@ == olds.conflicts@
            &&& news.instances@ == olds.instances@
            &&& news.outbound@ == olds.outbound@
            &&& instance_same_but_lists(news.local_instance, olds.local_instance)
            &&& news.local_instance.followers@ == olds.local_instance.followers@
            &&& if acc.object.actor@ == olds.local_instance.ap_id@ {
                str_added(olds.local_instance.follows@, news.local_instance.follows@, acc.actor@)
            } else {
                news.local_instance.follows@ == olds.local_instance.follows@
            }
        },
        Activity::CreateArticle(c) => {
            &&& hosts_match(c.actor@, c.object.id@)
            &&& news.denied_hosts@ == olds.denied_hosts@
            &&& news.local_instance == olds.local_instance
            &&& news.instances@ == olds.instances@
            &&& news.outbound@ == olds.outbound@
            &&& news.conflicts@ == olds.conflicts@
            &&& if has_article_ap(olds.store@, c.object.id@) {
                news.store@ == olds.store@
            } else {
                &&& news.store@ == olds.store@.push(news.store@.last())
                &&& exists|k: int|
                    0 <= k < olds.instances@.len() && (#[trigger] olds.instances@[k]).ap_id@
                        == c.actor@ && created_entry(
                        news.store@.last(),
                        c.object.name@,
                        c.object.content@,
                        Seq::<char>::empty(),
                        c.object.id@,
                        olds.instances@[k].id,
                        creator_id,
                        false,
                        now,
                        olds.store.fresh_article_id(),
                        olds.store.fresh_edit_id(),
                    )
            }
        },
        Activity::UpdateArticle(u) => {
            &&& hosts_match(u.actor@, u.object.id@)
            &&& news.denied_hosts@ == olds.denied_hosts@
            &&& news.local_instance == olds.local_instance
            &&& news.instances@ == olds.instances@
            &&& news.outbound@ == olds.outbound@
            &&& has_article_ap(olds.store@, u.article@)
            &&& exists|outcome: EditOutcome|
                #[trigger] update_applied(
                    olds.store@,
                    news.store@,
                    olds.conflicts@,
                    news.conflicts@,
                    u.article@,
                    u.object.previous_version@,
                    u.object.diff@,
                    u.object.summary@,
                    creator_id,
                    now,
                    olds.store.fresh_edit_id(),
                    outcome,
                )
        },
    }
}

/// Two instance records that differ at most in their follower and follow
/// lists.
pub open spec fn instance_same_but_lists(a: DbInstance, b: DbInstance) -> bool {
    &&& a.id == b.id
    &&& a.domain == b.domain
    &&& a.ap_id == b.ap_id
    &&& a.description == b.description
    &&& a.articles_url == b.articles_url
    &&& a.inbox_url == b.inbox_url
    &&& a.public_key == b.public_key
    &&& a.private_key == b.private_key
    &&& a.last_refreshed_at == b.last_refreshed_at
    &&& a.local == b.local
}

impl FederationState {
    /// A fresh state around a local instance: no articles, no conflicts, no
    /// known peers, nothing processed or queued.
    pub fn new(local_instance: DbInstance) -> (s: FederationState)
        ensures
            s.store@.len() == 0,
            s.store.fresh_article_id() == 0,
            s.store.fresh_edit_id() == 0,
            s.conflicts@.len() == 0,
            s.local_instance == local_instance,
            s.instances@.len() == 0,
            s.denied_hosts@.len() == 0,
            s.processed@.len() == 0,
            s.outbound@.len() == 0,
    {
        FederationState {
            store: ArticleStore::new(),
            conflicts: ConflictRegistry::new(),
            local_instance: local_instance,
            instances: Vec::new(),
            denied_hosts: Vec::new(),
            processed: Vec::new(),
            outbound: Vec::new(),
        }
    }

    /// Whether a string with this content is in the list.
    #[verifier::loop_isolation(false)]
    fn contains_str(v: &Vec<String>, s: &String) -> (r: bool)
        ensures
            r == seq_has_str(v@, s@),
    {
        let n = v.len();
        let mut i: usize = 0;
        while i < n
            invariant
                i <= n,
                forall|k: int| 0 <= k < i ==> (#[trigger] v@[k])@ != s@,
            decreases n - i,
        {
            if v[i] == *s {
                proof {
                    assert((v@[i as int])@ == s@);
                }
                return true;
            }
            i += 1;
        }
        false
    }

    /// The index of the known instance with this ap_id.
    #[verifier::loop_isolation(false)]
    fn find_instance(v: &Vec<DbInstance>, ap_id: &String) -> (r: Option<usize>)
        ensures
            match r {
                Some(k) => first_instance_match(v@, ap_id@, k as int),
                None => forall|k: int| 0 <= k < v@.len() ==> (#[trigger] v@[k]).ap_id@ != ap_id@,
            },
    {
        let n = v.len();
        let mut i: usize = 0;
        while i < n
            invariant
                i <= n,
                forall|k: int| 0 <= k < i ==> (#[trigger] v@[k]).ap_id@ != ap_id@,
            decreases n - i,
        {
            if v[i].ap_id == *ap_id {
                return Some(i);
            }
            i += 1;
        }
        None
    }

    /// Queues a follow request to the instance with this ap_id. The target
    /// records us as a follower and accepts; only its accept, delivered
    /// back, records the target in our `follows` list.
    pub fn follow(&mut self, target_ap_id: &String, activity_ap_id: String)
        ensures
            *final(self) == (FederationState { outbound: final(self).outbound, ..*old(self) }),
            final(self).outbound@ == old(self).outbound@.push(final(self).outbound@.last()),
            final(self).outbound@.last().to@ == target_ap_id@,
            (final(self).outbound@.last().activity matches Activity::Follow(f) && {
                &&& f.id@ == activity_ap_id@
                &&& f.actor@ == old(self).local_instance.ap_id@
                &&& f.object@ == target_ap_id@
            }),
    {
        let follow = Follow {
            id: activity_ap_id,
            actor: self.local_instance.ap_id.clone(),
            object: target_ap_id.clone(),
        };
        self.outbound.push(
            OutboundActivity { activity: Activity::Follow(follow), to: target_ap_id.clone() },
        );
    }

    /// Handles a fresh follow request: the actor is recorded as a follower
    /// (once) and an accept activity is queued back to it.
    fn handle_follow(&mut self, f: Follow, aid: String) -> (r: Result<(), CoreError>)
        requires
            aid@ == f.id@,
        ensures
            r matches Err(e) ==> *final(self) == *old(self) && activity_rejected(
                *old(self),
                Activity::Follow(f),
                e,
            ),
            r is Ok ==> {
                &&& final(self).processed@ == old(self).processed@.push(
                    final(self).processed@.last(),
                )
                &&& final(self).processed@.last()@ == f.id@
                &&& f.object@ == old(self).local_instance.ap_id@
                &&& !denied(old(self).denied_hosts@, f.actor@)
                &&& final(self).denied_hosts@ == old(self).denied_hosts@
                &&& instance_same_but_lists(final(self).local_instance, old(self).local_instance)
                &&& str_added(
                    old(self).local_instance.followers@,
                    final(self).local_instance.followers@,
                    f.actor@,
                )
                &&& final(self).local_instance.follows@ == old(self).local_instance.follows@
                &&& final(self).store@ == old(self).store@
                &&& final(self).conflicts@ == old(self).conflicts@
                &&& final(self).instances@ == old(self).instances@
                &&& final(self).outbound@ == old(self).outbound@.push(
                    final(self).outbound@.last(),
                )
                &&& final(self).outbound@.last().to@ == f.actor@
                &&& (final(self).outbound@.last().activity matches Activity::Accept(acc) && {
                    &&& acc.actor@ == old(self).local_instance.ap_id@
                    &&& acc.object.actor@ == f.actor@
                    &&& acc.object.object@ == f.object@
                })
            },
    {
        if !(f.object == self.local_instance.ap_id) {
            return Err(CoreError::NotFound);
        }
        let actor_denied = match url_host(f.actor.as_str()) {
            Some(h) => Self::contains_str(&self.denied_hosts, &h),
            None => false,
        };
        if actor_denied {
            return Err(CoreError::Forbidden);
        }
        if !Self::contains_str(&self.local_instance.followers, &f.actor) {
            self.local_instance.followers.push(f.actor.clone());
        }
        let mut accept_id = f.id.clone();
        accept_id.append("/accept");
        let to = f.actor.clone();
        let accept = Accept { id: accept_id, actor: self.local_instance.ap_id.clone(), object: f };
        self.outbound.push(OutboundActivity { activity: Activity::Accept(accept), to: to });
        self.processed.push(aid);
        Ok(())
    }

    /// Handles a fresh accept of a follow this instance sent: the accepting
    /// actor is recorded (once) in the follows list.
    fn handle_accept(&mut self, acc: Accept, aid: String) -> (r: Result<(), CoreError>)
        requires
            aid@ == acc.id@,
        ensures
            r is Ok,
            final(self).processed@ == old(self).processed@.push(final(self).processed@.last()),
            final(self).processed@.last()@ == acc.id@,
            final(self).store@ == old(self).store@,
            final(self).conflicts@ == old(self).conflicts@,
            final(self).instances@ == old(self).instances@,
            final(self).outbound@ == old(self).outbound@,
            final(self).denied_hosts@ == old(self).denied_hosts@,
            instance_same_but_lists(final(self).local_instance, old(self).local_instance),
            final(self).local_instance.followers@ == old(self).local_instance.followers@,
            if acc.object.actor@ == old(self).local_instance.ap_id@ {
                str_added(
                    old(self).local_instance.follows@,
                    final(self).local_instance.follows@,
                    acc.actor@,
                )
            } else {
                final(self).local_instance.follows@ == old(self).local_instance.follows@
            },
    {
        if acc.object.actor == self.local_instance.ap_id {
            if !Self::contains_str(&self.local_instance.follows, &acc.actor) {
                self.local_instance.follows.push(acc.actor.clone());
            }
        }
        self.processed.push(aid);
        Ok(())
    }

    /// Handles a fresh article announcement: checks the actor's domain
    /// against the article's, then inserts a replica keyed by its ap_id,
    /// unless one already exists.
    fn handle_create(&mut self, c: CreateArticle, aid: String, creator_id: i32, now: i64) -> (r:
        Result<(), CoreError>)
        requires
            aid@ == c.id@,
            old(self).store.fresh_article_id() < i32::MAX,
            old(self).store.fresh_edit_id() < i32::MAX,
        ensures
            r matches Err(e) ==> *final(self) == *old(self) && activity_rejected(
                *old(self),
                Activity::CreateArticle(c),
                e,
            ),
            r is Ok ==> {
                &&& final(self).processed@ == old(self).processed@.push(
                    final(self).processed@.last(),
                )
                &&& final(self).processed@.last()@ == c.id@
                &&& hosts_match(c.actor@, c.object.id@)
                &&& final(self).denied_hosts@ == old(self).denied_hosts@
                &&& final(self).local_instance == old(self).local_instance
                &&& final(self).instances@ == old(self).instances@
                &&& final(self).outbound@ == old(self).outbound@
                &&& final(self).conflicts@ == old(self).conflicts@
                &&& if has_article_ap(old(self).store@, c.object.id@) {
                    final(self).store@ == old(self).store@
                } else {
                    &&& final(self).store@ == old(self).store@.push(final(self).store@.last())
                    &&& exists|k: int|
                        0 <= k < old(self).instances@.len()
                            && (#[trigger] old(self).instances@[k]).ap_id@ == c.actor@
                            && created_entry(
                            final(self).store@.last(),
                            c.object.name@,
                            c.object.content@,
                            Seq::<char>::empty(),
                            c.object.id@,
                            old(self).instances@[k].id,
                            creator_id,
                            false,
                            now,
                            old(self).store.fresh_article_id(),
                            old(self).store.fresh_edit_id(),
                        )
                }
            },
    {
        match verify_domains_match(&c.actor, &c.object.id) {
            Err(e) => {
                return Err(e);
            },
            Ok(_) => {},
        }
        match self.store.get_article_by_ap_id(&c.object.id) {
            Some(_) => {
                self.processed.push(aid);
                Ok(())
            },
            None => {
                if c.object.name.as_str().is_empty() {
                    return Err(CoreError::Forbidden);
                }
                let k = match Self::find_instance(&self.instances, &c.actor) {
                    Some(k) => k,
                    None => {
                        return Err(CoreError::NotFound);
                    },
                };
                proof {
                    assert(forall|k2: int|
                        #[trigger] first_instance_match(self.instances@, c.actor@, k2) ==> k2
                            == k as int);
                }
                let inst_id = self.instances[k].id;
                let data = CreateArticleData {
                    title: c.object.name,
                    text: c.object.content,
                    summary: String::new(),
                };
                match self.store.create_article(&data, c.object.id, inst_id, creator_id, false, now)
                    {
                    Ok(_) => {
                        self.processed.push(aid);
                        Ok(())
                    },
                    Err(e) => Err(e),
                }
            },
        }
    }

    /// Handles a fresh inbound edit: checks the actor's domain against the
    /// edit's, then hands the edit to the store, which reconstructs the text
    /// at the edit's previous version, applies the diff to recover the
    /// submitted text, and runs the same merge state machine as a local
    /// edit.
    fn handle_update(&mut self, u: UpdateArticle, aid: String, creator_id: i32, now: i64) -> (r:
        Result<(), CoreError>)
        requires
            aid@ == u.id@,
            old(self).store.fresh_edit_id() < i32::MAX,
        ensures
            r matches Err(e) ==> *final(self) == *old(self) && activity_rejected(
                *old(self),
                Activity::UpdateArticle(u),
                e,
            ),
            r is Ok ==> {
                &&& final(self).processed@ == old(self).processed@.push(
                    final(self).processed@.last(),
                )
                &&& final(self).processed@.last()@ == u.id@
                &&& hosts_match(u.actor@, u.object.id@)
                &&& final(self).denied_hosts@ == old(self).denied_hosts@
                &&& final(self).local_instance == old(self).local_instance
                &&& final(self).instances@ == old(self).instances@
                &&& final(self).outbound@ == old(self).outbound@
                &&& has_article_ap(old(self).store@, u.article@)
                &&& exists|outcome: EditOutcome|
                    #[trigger] update_applied(
                        old(self).store@,
                        final(self).store@,
                        old(self).conflicts@,
                        final(self).conflicts@,
                        u.article@,
                        u.object.previous_version@,
                        u.object.diff@,
                        u.object.summary@,
                        creator_id,
                        now,
                        old(self).store.fresh_edit_id(),
                        outcome,
                    )
            },
    {
        match verify_domains_match(&u.actor, &u.object.id) {
            Err(e) => {
                return Err(e);
            },
            Ok(_) => {},
        }
        match self.store.apply_inbound_edit(
            &mut self.conflicts,
            &u.article,
            &u.object.previous_version,
            &u.object.diff,
            &u.object.summary,
            creator_id,
            now,
        ) {
            Ok(outcome) => {
                self.processed.push(aid);
                proof {
                    assert(update_applied(
                        old(self).store@,
                        self.store@,
                        old(self).conflicts@,
                        self.conflicts@,
                        u.article@,
                        u.object.previous_version@,
                        u.object.diff@,
                        u.object.summary@,
                        creator_id,
                        now,
                        old(self).store.fresh_edit_id(),
                        outcome,
                    ));
                }
                Ok(())
            },
            Err(e) => Err(e),
        }
    }

    /// Receives one inbound activity, after its HTTP signature was checked
    /// by the transport. An activity whose id was already processed is a
    /// no-op; a failed one leaves the state unchanged; a handled one records
    /// its id, so that delivering the same activity twice leaves the same
    /// state as delivering it once.
    pub fn receive_activity(&mut self, activity: Activity, creator_id: i32, now: i64) -> (r: Result<
        (),
        CoreError,
    >)
        requires
            old(self).store.fresh_article_id() < i32::MAX,
            old(self).store.fresh_edit_id() < i32::MAX,
        ensures
            processed_has(*old(self), activity_id(activity)) ==> r is Ok && *final(self) == *old(
                self,
            ),
            r is Err ==> *final(self) == *old(self),
            r matches Err(e) ==> activity_rejected(*old(self), activity, e),
            (r is Ok && !processed_has(*old(self), activity_id(activity))) ==> {
                &&& final(self).processed@ == old(self).processed@.push(
                    final(self).processed@.last(),
                )
                &&& final(self).processed@.last()@ == activity_id(activity)
                &&& activity_handled(*old(self), *final(self), activity, creator_id, now)
            },
    {
        let aid = activity_id_ref(&activity).clone();
        if Self::contains_str(&self.processed, &aid) {
            return Ok(());
        }
        match activity {
            Activity::Follow(f) => self.handle_follow(f, aid),
            Activity::Accept(acc) => self.handle_accept(acc, aid),
            Activity::CreateArticle(c) => self.handle_create(c, aid, creator_id, now),
            Activity::UpdateArticle(u) => self.handle_update(u, aid, creator_id, now),
        }
    }
}

} // verus!
