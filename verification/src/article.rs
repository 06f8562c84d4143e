//! Articles, their append-only edit chains, and the merge state machine.
//!
//! The store keeps, for every article, the materialized current text and the
//! chain of unified-diff edits that produced it. Its invariant ties the two
//! together: replaying the chain from the empty text reproduces the current
//! text, every edit's hash is the version of its diff, and the chain is
//! linear (each edit's previous version is the hash of the edit before it).

use vstd::prelude::*;
use vstd::string::StrSliceExecFns;
use vstd::string::StringExecFns;
use crate::common::CoreError;
use crate::common::CreateArticleData;
use crate::common::EditArticleData;
use crate::diff::apply;
use crate::diff::apply_of;
use crate::diff::make_patch;
use crate::diff::make_patch_of;
use crate::diff::merge_of;
use crate::diff::replay;
use crate::diff::three_way_merge;
use crate::diff::lemma_replay_push;
use crate::diff::lemma_replay_prefix;
use crate::version::default_version_bytes;
use crate::version::hex_of;
use crate::version::version_bytes_of;
use crate::version::EditVersion;

verus! {

/// One stored article: the materialized text and its identifying data.
#[derive(Debug)]
pub struct DbArticle {
    pub id: i32,
    pub title: String,
    pub text: String,
    pub ap_id: String,
    pub instance_id: i32,
    pub local: bool,
    pub protected: bool,
}

/// A single change to an article: a unified-diff patch together with the
/// version it produces and the version it was made against.
#[derive(Debug)]
pub struct DbEdit {
    pub id: i32,
    pub creator_id: i32,
    pub hash: EditVersion,
    pub ap_id: String,
    pub diff: String,
    pub summary: String,
    pub article_id: i32,
    pub previous_version_id: EditVersion,
    pub created: i64,
}

/// Field-wise equality of two articles, strings compared by content.
pub open spec fn article_eqv(a: DbArticle, b: DbArticle) -> bool {
    &&& a.id == b.id
    &&& a.title@ == b.title@
    &&& a.text@ == b.text@
    &&& a.ap_id@ == b.ap_id@
    &&& a.instance_id == b.instance_id
    &&& a.local == b.local
    &&& a.protected == b.protected
}

/// Field-wise equality of two edits, strings compared by content.
pub open spec fn edit_eqv(a: DbEdit, b: DbEdit) -> bool {
    &&& a.id == b.id
    &&& a.creator_id == b.creator_id
    &&& a.hash@ == b.hash@
    &&& a.ap_id@ == b.ap_id@
    &&& a.diff@ == b.diff@
    &&& a.summary@ == b.summary@
    &&& a.article_id == b.article_id
    &&& a.previous_version_id@ == b.previous_version_id@
    &&& a.created == b.created
}

impl DbArticle {
    /// A copy of this article, field by field.
    pub fn duplicate(&self) -> (r: DbArticle)
        ensures
            article_eqv(r, *self),
    {
        DbArticle {
            id: self.id,
            title: self.title.clone(),
            text: self.text.clone(),
            ap_id: self.ap_id.clone(),
            instance_id: self.instance_id,
            local: self.local,
            protected: self.protected,
        }
    }
}

impl DbEdit {
    /// A copy of this edit, field by field.
    pub fn duplicate(&self) -> (r: DbEdit)
        ensures
            edit_eqv(r, *self),
    {
        DbEdit {
            id: self.id,
            creator_id: self.creator_id,
            hash: self.hash.clone(),
            ap_id: self.ap_id.clone(),
            diff: self.diff.clone(),
            summary: self.summary.clone(),
            article_id: self.article_id,
            previous_version_id: self.previous_version_id.clone(),
            created: self.created,
        }
    }
}

/// An article together with its edit chain, oldest edit first.
pub struct ArticleEntry {
    pub article: DbArticle,
    pub edits: Vec<DbEdit>,
}

/// The diffs of a chain, in order.
pub open spec fn chain_diffs(edits: Seq<DbEdit>) -> Seq<Seq<char>> {
    edits.map_values(|e: DbEdit| e.diff@)
}

/// The hash of the last edit: the article's latest version.
pub open spec fn head_of(entry: ArticleEntry) -> Seq<u8> {
    entry.edits@.last().hash@
}

/// Whether some edit in the chain has this version hash.
pub open spec fn in_chain(entry: ArticleEntry, v: Seq<u8>) -> bool {
    exists|j: int| 0 <= j < entry.edits@.len() && (#[trigger] entry.edits@[j]).hash@ == v
}

/// Well-formedness of one article entry: a non-empty linear chain whose
/// edits hash their own diffs and whose replay from the empty text yields
/// the article's current text.
pub open spec fn entry_wf(entry: ArticleEntry) -> bool {
    let edits = entry.edits@;
    &&& edits.len() >= 1
    &&& forall|i: int| 0 <= i < edits.len() ==> (#[trigger] edits[i]).article_id == entry.article.id
    &&& edits[0].previous_version_id@ == default_version_bytes()
    &&& forall|i: int|
        1 <= i < edits.len() ==> (#[trigger] edits[i]).previous_version_id@ == edits[i - 1].hash@
    &&& forall|i: int|
        0 <= i < edits.len() ==> (#[trigger] edits[i]).hash@ == version_bytes_of(edits[i].diff@)
    &&& replay(chain_diffs(edits)) == Some(entry.article.text@)
}

/// The fields of a freshly appended edit: its diff turns `base` into
/// `target`, its hash is the version of that diff, and its ap_id extends
/// the article's ap_id with the hex rendering of the hash.
pub open spec fn edit_fields(
    e: DbEdit,
    a: DbArticle,
    base: Seq<char>,
    target: Seq<char>,
    prev: Seq<u8>,
    summary: Seq<char>,
    creator_id: i32,
    now: i64,
    id: i32,
) -> bool {
    &&& e.id == id
    &&& e.creator_id == creator_id
    &&& e.article_id == a.id
    &&& e.diff@ == make_patch_of(base, target)
    &&& e.hash@ == version_bytes_of(e.diff@)
    &&& e.previous_version_id@ == prev
    &&& e.summary@ == summary
    &&& e.created == now
    &&& e.ap_id@ == a.ap_id@ + seq!['/'] + hex_of(e.hash@)
}

/// Whether some stored article collides with `(title, instance_id)`.
pub open spec fn title_taken(entries: Seq<ArticleEntry>, title: Seq<char>, instance_id: i32) -> bool {
    exists|i: int|
        0 <= i < entries.len() && (#[trigger] entries[i]).article.title@ == title
            && entries[i].article.instance_id == instance_id
}

/// The entry created for a new article: its single first edit patches the
/// empty text into the initial text, based on the default version.
pub open spec fn created_entry(
    entry: ArticleEntry,
    title: Seq<char>,
    text: Seq<char>,
    summary: Seq<char>,
    ap_id: Seq<char>,
    instance_id: i32,
    creator_id: i32,
    local: bool,
    now: i64,
    article_id: i32,
    edit_id: i32,
) -> bool {
    &&& entry.article.id == article_id
    &&& entry.article.title@ == title
    &&& entry.article.text@ == text
    &&& entry.article.ap_id@ == ap_id
    &&& entry.article.instance_id == instance_id
    &&& entry.article.local == local
    &&& entry.article.protected == false
    &&& entry.edits@.len() == 1
    &&& edit_fields(
        entry.edits@[0],
        entry.article,
        Seq::<char>::empty(),
        text,
        default_version_bytes(),
        summary,
        creator_id,
        now,
        edit_id,
    )
}

/// The repository of articles and their edit chains.
pub struct ArticleStore {
    entries: Vec<ArticleEntry>,
    next_article: i32,
    next_edit: i32,
}

impl View for ArticleStore {
    type V = Seq<ArticleEntry>;

    closed spec fn view(&self) -> Seq<ArticleEntry> {
        self.entries@
    }
}

impl ArticleStore {
    /// Every entry is well-formed, article ids are unique, and all ids are
    /// below the fresh-id counter.
    #[verifier::type_invariant]
    spec fn wf(self) -> bool {
        &&& forall|i: int| 0 <= i < self.entries@.len() ==> entry_wf(#[trigger] self.entries@[i])
        &&& forall|i: int, j: int|
            0 <= i < j < self.entries@.len() ==> self.entries@[i].article.id
                != self.entries@[j].article.id
        &&& forall|i: int|
            0 <= i < self.entries@.len() ==> (#[trigger] self.entries@[i]).article.id
                < self.next_article
    }

    /// The id the next created article will get.
    pub closed spec fn fresh_article_id(self) -> i32 {
        self.next_article
    }

    /// The id the next appended edit will get.
    pub closed spec fn fresh_edit_id(self) -> i32 {
        self.next_edit
    }

    /// An empty store.
    pub fn new() -> (s: ArticleStore)
        ensures
            s@.len() == 0,
            s.fresh_article_id() == 0,
            s.fresh_edit_id() == 0,
    {
        ArticleStore { entries: Vec::new(), next_article: 0, next_edit: 0 }
    }

    /// Creates a new article: inserts it with its first edit, a patch from
    /// the empty text to the initial text, and materializes that text.
    /// Fails exactly when `(title, instance_id)` is already taken, leaving
    /// the store unchanged.
    #[verifier::loop_isolation(false)]
    pub fn create_article(
        &mut self,
        data: &CreateArticleData,
        ap_id: String,
        instance_id: i32,
        creator_id: i32,
        local: bool,
        now: i64,
    ) -> (r: Result<DbArticle, CoreError>)
        requires
            old(self).fresh_article_id() < i32::MAX,
            old(self).fresh_edit_id() < i32::MAX,
            data.title@.len() > 0,
        ensures
            match r {
                Err(e) => {
                    &&& e == CoreError::TitleTaken
                    &&& title_taken(old(self)@, data.title@, instance_id)
                    &&& *final(self) == *old(self)
                },
                Ok(a) => {
                    &&& !title_taken(old(self)@, data.title@, instance_id)
                    &&& final(self).fresh_article_id() == old(self).fresh_article_id() + 1
                    &&& final(self).fresh_edit_id() == old(self).fresh_edit_id() + 1
                    &&& final(self)@ == old(self)@.push(final(self)@.last())
                    &&& created_entry(
                        final(self)@.last(),
                        data.title@,
                        data.text@,
                        data.summary@,
                        ap_id@,
                        instance_id,
                        creator_id,
                        local,
                        now,
                        old(self).fresh_article_id(),
                        old(self).fresh_edit_id(),
                    )
                    &&& article_eqv(a, final(self)@.last().article)
                },
            },
    {
        proof {
            use_type_invariant(&*self);
        }
        let n = self.entries.len();
        let mut i: usize = 0;
        while i < n
            invariant
                i <= n,
                forall|k: int|
                    0 <= k < i ==> !((#[trigger] self.entries@[k]).article.title@ == data.title@
                        && self.entries@[k].article.instance_id == instance_id),
            decreases n - i,
        {
            let e = &self.entries[i];
            if e.article.title == data.title && e.article.instance_id == instance_id {
                return Err(CoreError::TitleTaken);
            }
            i += 1;
        }
        let article_id = self.next_article;
        let edit_id = self.next_edit;
        self.next_article = article_id + 1;
        self.next_edit = edit_id + 1;
        let patch = make_patch("", data.text.as_str());
        let version = EditVersion::new(patch.as_str());
        let mut edit_ap = ap_id.clone();
        edit_ap.append("/");
        let hh = version.hash();
        edit_ap.append(hh.as_str());
        let article = DbArticle {
            id: article_id,
            title: data.title.clone(),
            text: data.text.clone(),
            ap_id: ap_id,
            instance_id: instance_id,
            local: local,
            protected: false,
        };
        let edit = DbEdit {
            id: edit_id,
            creator_id: creator_id,
            hash: version,
            ap_id: edit_ap,
            diff: patch,
            summary: data.summary.clone(),
            article_id: article_id,
            previous_version_id: EditVersion::default(),
            created: now,
        };
        let ret = article.duplicate();
        let mut edits: Vec<DbEdit> = Vec::new();
        edits.push(edit);
        let entry = ArticleEntry { article, edits };
        proof {
            reveal_strlit("");
            reveal_strlit("/");
            assert(""@ =~= Seq::<char>::empty());
            assert("/"@ =~= seq!['/']);
            assert(entry.edits@ =~= seq![entry.edits@[0]]);
            assert(chain_diffs(entry.edits@) =~= seq![entry.edits@[0].diff@]);
            assert(chain_diffs(entry.edits@).drop_last() =~= Seq::<Seq<char>>::empty());
            assert(replay(Seq::<Seq<char>>::empty()) == Some(Seq::<char>::empty()));
            assert(chain_diffs(entry.edits@).last() == entry.edits@[0].diff@);
            assert(apply_of(Seq::<char>::empty(), entry.edits@[0].diff@) == Some(data.text@));
            assert(replay(chain_diffs(entry.edits@)) == Some(entry.article.text@));
            assert(entry.edits@[0].ap_id@ == entry.article.ap_id@ + seq!['/'] + hex_of(
                entry.edits@[0].hash@,
            ));
            assert(entry_wf(entry));
        }
        let mut entries: Vec<ArticleEntry> = Vec::new();
        core::mem::swap(&mut entries, &mut self.entries);
        entries.push(entry);
        self.entries = entries;
        Ok(ret)
    }

    /// The index of the article with this id, if any.
    #[verifier::loop_isolation(false)]
    fn find_idx(&self, article_id: i32) -> (r: Option<usize>)
        ensures
            match r {
                Some(i) => i < self@.len() && self@[i as int].article.id == article_id,
                None => !has_article(self@, article_id),
            },
    {
        let n = self.entries.len();
        let mut i: usize = 0;
        while i < n
            invariant
                i <= n,
                forall|k: int| 0 <= k < i ==> (#[trigger] self@[k]).article.id != article_id,
            decreases n - i,
        {
            if self.entries[i].article.id == article_id {
                return Some(i);
            }
            i += 1;
        }
        None
    }

    /// The highest index of an edit whose hash is `v`, if any.
    #[verifier::loop_isolation(false)]
    fn find_version(edits: &Vec<DbEdit>, v: &EditVersion) -> (r: Option<usize>)
        ensures
            match r {
                Some(j) => j < edits@.len() && edits@[j as int].hash@ == v@ && (forall|m: int|
                    j < m < edits@.len() ==> (#[trigger] edits@[m]).hash@ != v@),
                None => forall|m: int| 0 <= m < edits@.len() ==> (#[trigger] edits@[m]).hash@ != v@,
            },
    {
        let mut k: usize = edits.len();
        while k > 0
            invariant
                k <= edits@.len(),
                forall|m: int| k <= m < edits@.len() ==> (#[trigger] edits@[m]).hash@ != v@,
            decreases k,
        {
            k -= 1;
            if edits[k].hash == *v {
                return Some(k);
            }
        }
        None
    }

    /// The text reached by replaying the first `upto` edits of a chain that
    /// replays as a whole.
    #[verifier::loop_isolation(false)]
    fn replay_upto(edits: &Vec<DbEdit>, upto: usize) -> (t: String)
        requires
            upto <= edits@.len(),
            replay(chain_diffs(edits@)) is Some,
        ensures
            Some(t@) == replay(chain_diffs(edits@).take(upto as int)),
    {
        let ghost diffs = chain_diffs(edits@);
        let mut text = String::new();
        let mut k: usize = 0;
        proof {
            assert(diffs.take(0) =~= Seq::<Seq<char>>::empty());
        }
        while k < upto
            invariant
                k <= upto,
                Some(text@) == replay(diffs.take(k as int)),
            decreases upto - k,
        {
            proof {
                lemma_replay_prefix(diffs, k + 1);
                assert(diffs.take(k + 1) =~= diffs.take(k as int).push(edits@[k as int].diff@));
                lemma_replay_push(diffs.take(k as int), edits@[k as int].diff@);
            }
            let res = apply(text.as_str(), edits[k].diff.as_str());
            match res {
                Ok(t2) => {
                    text = t2;
                },
                Err(_) => {
                    proof {
                        assert(false);
                    }
                },
            }
            k += 1;
        }
        text
    }

    /// Appends one already-merged edit to the entry at `idx`: a patch from
    /// the entry's current text to `target`, based on the current head.
    fn append_edit(
        &mut self,
        idx: usize,
        target: &String,
        summary: &String,
        creator_id: i32,
        now: i64,
    ) -> (e: DbEdit)
        requires
            idx < old(self)@.len(),
            old(self).fresh_edit_id() < i32::MAX,
        ensures
            final(self)@.len() == old(self)@.len(),
            final(self)@ == old(self)@.update(idx as int, final(self)@[idx as int]),
            appended_entry(
                final(self)@[idx as int],
                old(self)@[idx as int],
                target@,
                summary@,
                creator_id,
                now,
                old(self).fresh_edit_id(),
            ),
            edit_eqv(e, final(self)@[idx as int].edits@.last()),
            final(self).fresh_article_id() == old(self).fresh_article_id(),
            final(self).fresh_edit_id() == old(self).fresh_edit_id() + 1,
    {
        proof {
            use_type_invariant(&*self);
        }
        let ghost olds = self.entries@;
        let edit_id = self.next_edit;
        self.next_edit = edit_id + 1;
        let mut entries: Vec<ArticleEntry> = Vec::new();
        core::mem::swap(&mut entries, &mut self.entries);
        let mut entry = entries.remove(idx);
        let ghost oe = entry;
        let patch = make_patch(entry.article.text.as_str(), target.as_str());
        let version = EditVersion::new(patch.as_str());
        let elen = entry.edits.len();
        let prev = entry.edits[elen - 1].hash.clone();
        let mut edit_ap = entry.article.ap_id.clone();
        edit_ap.append("/");
        let hh = version.hash();
        edit_ap.append(hh.as_str());
        let edit = DbEdit {
            id: edit_id,
            creator_id: creator_id,
            hash: version,
            ap_id: edit_ap,
            diff: patch,
            summary: summary.clone(),
            article_id: entry.article.id,
            previous_version_id: prev,
            created: now,
        };
        let ret = edit.duplicate();
        entry.edits.push(edit);
        entry.article.text = target.clone();
        proof {
            reveal_strlit("/");
            assert("/"@ =~= seq!['/']);
            assert(chain_diffs(entry.edits@) =~= chain_diffs(oe.edits@).push(
                entry.edits@.last().diff@,
            ));
            lemma_replay_push(chain_diffs(oe.edits@), entry.edits@.last().diff@);
            assert(entry.edits@ =~= oe.edits@.push(entry.edits@.last()));
            assert(entry_wf(entry));
        }
        entries.insert(idx, entry);
        proof {
            assert(entries@ =~= olds.update(idx as int, entries@[idx as int]));
        }
        self.entries = entries;
        ret
    }

    /// The merge state machine for one submitted edit.
    ///
    /// Fast-forward: when the submitted base equals the article's head, the
    /// edit is appended as a patch from the current text to the new text.
    /// Rebase: when the base is an earlier version of the chain, the
    /// submitted text is merged three ways against the text reconstructed at
    /// that base; a clean merge is appended as a fast-forward of the merged
    /// text, a conflicted one is recorded in the registry and returned for
    /// human resolution, with the store unchanged. An unknown base or an
    /// unknown article fails, changing nothing. On every applied edit a
    /// conflict named by `resolve_conflict_id` is deleted.
    #[verifier::rlimit(100)]
    pub fn edit_article(
        &mut self,
        registry: &mut ConflictRegistry,
        data: &EditArticleData,
        creator_id: i32,
        now: i64,
    ) -> (r: Result<EditOutcome, CoreError>)
        requires
            old(self).fresh_edit_id() < i32::MAX,
        ensures
            final(self).fresh_article_id() == old(self).fresh_article_id(),
            (r matches Ok(o) && o matches EditOutcome::Applied(e)) ==> final(self).fresh_edit_id()
                == old(self).fresh_edit_id() + 1,
            (r matches Ok(o) && o matches EditOutcome::Conflict(c)) ==> final(self).fresh_edit_id()
                == old(self).fresh_edit_id(),
            match r {
                Err(e) => {
                    &&& *final(self) == *old(self)
                    &&& *final(registry) == *old(registry)
                    &&& (e == CoreError::NotFound || e == CoreError::UnknownBase)
                    &&& (e == CoreError::NotFound <==> !has_article(old(self)@, data.article_id))
                    &&& forall|i: int|
                        0 <= i < old(self)@.len() && (#[trigger] old(self)@[i]).article.id
                            == data.article_id ==> !in_chain(
                            old(self)@[i],
                            data.previous_version_id@,
                        )
                },
                Ok(outcome) => {
                    &&& has_article(old(self)@, data.article_id)
                    &&& forall|i: int|
                        0 <= i < old(self)@.len() && (#[trigger] old(self)@[i]).article.id
                            == data.article_id ==> edit_outcome_spec(
                            old(self)@,
                            final(self)@,
                            old(registry)@,
                            final(registry)@,
                            data.new_text@,
                            data.summary@,
                            data.previous_version_id@,
                            resolve_view(data.resolve_conflict_id),
                            creator_id,
                            now,
                            old(self).fresh_edit_id(),
                            outcome,
                            i,
                        )
                },
            },
    {
        proof {
            use_type_invariant(&*self);
        }
        let idx = match self.find_idx(data.article_id) {
            Some(i) => i,
            None => {
                return Err(CoreError::NotFound);
            },
        };
        proof {
            assert(forall|i: int|
                0 <= i < self@.len() && (#[trigger] self@[i]).article.id == data.article_id ==> i
                    == idx as int);
        }
        let elen = self.entries[idx].edits.len();
        let is_ff = data.previous_version_id == self.entries[idx].edits[elen - 1].hash;
        if is_ff {
            let e = self.append_edit(idx, &data.new_text, &data.summary, creator_id, now);
            match &data.resolve_conflict_id {
                Some(cid) => {
                    registry.delete(cid);
                },
                None => {},
            }
            return Ok(EditOutcome::Applied(e));
        }
        match Self::find_version(&self.entries[idx].edits, &data.previous_version_id) {
            None => {
                proof {
                    assert(!in_chain(self@[idx as int], data.previous_version_id@));
                }
                Err(CoreError::UnknownBase)
            },
            Some(j) => {
                let ancestor = Self::replay_upto(&self.entries[idx].edits, j + 1);
                let merged = three_way_merge(
                    ancestor.as_str(),
                    data.new_text.as_str(),
                    self.entries[idx].article.text.as_str(),
                );
                match merged {
                    Ok(m) => {
                        let e = self.append_edit(idx, &m, &data.summary, creator_id, now);
                        match &data.resolve_conflict_id {
                            Some(cid) => {
                                registry.delete(cid);
                            },
                            None => {},
                        }
                        Ok(EditOutcome::Applied(e))
                    },
                    Err(c) => {
                        let cid = EditVersion::new(c.as_str());
                        let prev = self.entries[idx].edits[elen - 1].hash.clone();
                        let conflict = DbConflict {
                            id: cid.clone(),
                            article_id: data.article_id,
                            previous_version_id: prev.clone(),
                            three_way_merge: c.clone(),
                            creator_id: creator_id,
                        };
                        registry.insert(conflict);
                        Ok(
                            EditOutcome::Conflict(
                                ApiConflict {
                                    id: cid,
                                    three_way_merge: c,
                                    article_id: data.article_id,
                                    previous_version_id: prev,
                                },
                            ),
                        )
                    },
                }
            },
        }
    }

    /// Forks the article onto another instance: a new article with the same
    /// title and current text whose chain repeats the source's diffs and
    /// hashes under fresh ap_ids and ids. Fails when the article is unknown
    /// or its title is already taken on the target instance.
    #[verifier::loop_isolation(false)]
    #[verifier::rlimit(60)]
    pub fn fork_article(
        &mut self,
        article_id: i32,
        new_ap_id: String,
        target_instance_id: i32,
    ) -> (r: Result<DbArticle, CoreError>)
        requires
            old(self).fresh_article_id() < i32::MAX,
            forall|i: int|
                0 <= i < old(self)@.len() && (#[trigger] old(self)@[i]).article.id == article_id
                    ==> old(self).fresh_edit_id() + old(self)@[i].edits@.len() <= i32::MAX,
        ensures
            match r {
                Err(e) => {
                    &&& *final(self) == *old(self)
                    &&& (e == CoreError::NotFound || e == CoreError::TitleTaken)
                    &&& (e == CoreError::NotFound <==> !has_article(old(self)@, article_id))
                    &&& e == CoreError::TitleTaken ==> forall|i: int|
                        0 <= i < old(self)@.len() && (#[trigger] old(self)@[i]).article.id
                            == article_id ==> title_taken(
                            old(self)@,
                            old(self)@[i].article.title@,
                            target_instance_id,
                        )
                },
                Ok(a) => {
                    &&& has_article(old(self)@, article_id)
                    &&& final(self).fresh_article_id() == old(self).fresh_article_id() + 1
                    &&& final(self).fresh_edit_id() == old(self).fresh_edit_id()
                        + final(self)@.last().edits@.len()
                    &&& forall|i: int|
                        0 <= i < old(self)@.len() && (#[trigger] old(self)@[i]).article.id
                            == article_id ==> !title_taken(
                            old(self)@,
                            old(self)@[i].article.title@,
                            target_instance_id,
                        )
                    &&& final(self)@ == old(self)@.push(final(self)@.last())
                    &&& forall|i: int|
                        0 <= i < old(self)@.len() && (#[trigger] old(self)@[i]).article.id
                            == article_id ==> forked_entry(
                            final(self)@.last(),
                            old(self)@[i],
                            new_ap_id@,
                            target_instance_id,
                            old(self).fresh_article_id(),
                            old(self).fresh_edit_id(),
                        )
                    &&& article_eqv(a, final(self)@.last().article)
                },
            },
    {
        proof {
            use_type_invariant(&*self);
        }
        let idx = match self.find_idx(article_id) {
            Some(i) => i,
            None => {
                return Err(CoreError::NotFound);
            },
        };
        proof {
            assert(forall|i: int|
                0 <= i < self@.len() && (#[trigger] self@[i]).article.id == article_id ==> i
                    == idx as int);
        }
        let n = self.entries.len();
        let mut t: usize = 0;
        while t < n
            invariant
                t <= n,
                forall|k: int|
                    0 <= k < t ==> !((#[trigger] self@[k]).article.title@
                        == self@[idx as int].article.title@ && self@[k].article.instance_id
                        == target_instance_id),
            decreases n - t,
        {
            if self.entries[t].article.title == self.entries[idx].article.title
                && self.entries[t].article.instance_id == target_instance_id {
                return Err(CoreError::TitleTaken);
            }
            t += 1;
        }
        let new_id = self.next_article;
        self.next_article = new_id + 1;
        let first_edit_id = self.next_edit;
        let src_len = self.entries[idx].edits.len();
        let mut new_edits: Vec<DbEdit> = Vec::new();
        let mut eid: i32 = first_edit_id;
        let mut k: usize = 0;
        while k < src_len
            invariant
                k <= src_len,
                eid == first_edit_id + k,
                new_edits@.len() == k,
                forall|q: int|
                    0 <= q < k ==> {
                        let o = self@[idx as int].edits@[q];
                        let ne = #[trigger] new_edits@[q];
                        &&& ne.id == first_edit_id + q
                        &&& ne.creator_id == o.creator_id
                        &&& ne.hash@ == o.hash@
                        &&& ne.diff@ == o.diff@
                        &&& ne.summary@ == o.summary@
                        &&& ne.previous_version_id@ == o.previous_version_id@
                        &&& ne.created == o.created
                        &&& ne.article_id == new_id
                        &&& ne.ap_id@ == new_ap_id@ + seq!['/'] + hex_of(ne.hash@)
                    },
            decreases src_len - k,
        {
            let src = &self.entries[idx].edits[k];
            let hash = src.hash.clone();
            let mut eap = new_ap_id.clone();
            eap.append("/");
            let hh = hash.hash();
            eap.append(hh.as_str());
            proof {
                reveal_strlit("/");
                assert("/"@ =~= seq!['/']);
            }
            let e = DbEdit {
                id: eid,
                creator_id: src.creator_id,
                hash: hash,
                ap_id: eap,
                diff: src.diff.clone(),
                summary: src.summary.clone(),
                article_id: new_id,
                previous_version_id: src.previous_version_id.clone(),
                created: src.created,
            };
            new_edits.push(e);
            k += 1;
            eid = eid + 1;
        }
        self.next_edit = eid;
        let article = DbArticle {
            id: new_id,
            title: self.entries[idx].article.title.clone(),
            text: self.entries[idx].article.text.clone(),
            ap_id: new_ap_id,
            instance_id: target_instance_id,
            local: true,
            protected: false,
        };
        let ret = article.duplicate();
        let entry = ArticleEntry { article, edits: new_edits };
        proof {
            let oe = self@[idx as int];
            assert(chain_diffs(entry.edits@) =~= chain_diffs(oe.edits@));
            assert(forall|q: int|
                0 <= q < entry.edits@.len() ==> forked_edit(
                    #[trigger] entry.edits@[q],
                    oe.edits@[q],
                    entry.article,
                    first_edit_id + q,
                ));
            assert(entry_wf(entry));
        }
        let mut entries: Vec<ArticleEntry> = Vec::new();
        core::mem::swap(&mut entries, &mut self.entries);
        entries.push(entry);
        self.entries = entries;
        Ok(ret)
    }

    /// The article with this id, if any.
    pub fn get_article(&self, article_id: i32) -> (r: Option<DbArticle>)
        ensures
            match r {
                Some(a) => exists|i: int|
                    0 <= i < self@.len() && (#[trigger] self@[i]).article.id == article_id
                        && article_eqv(a, self@[i].article),
                None => !has_article(self@, article_id),
            },
    {
        match self.find_idx(article_id) {
            Some(i) => Some(self.entries[i].article.duplicate()),
            None => None,
        }
    }

    /// The article with this ap_id, if any.
    #[verifier::loop_isolation(false)]
    pub fn get_article_by_ap_id(&self, ap_id: &String) -> (r: Option<DbArticle>)
        ensures
            match r {
                Some(a) => exists|i: int|
                    0 <= i < self@.len() && (#[trigger] self@[i]).article.ap_id@ == ap_id@
                        && article_eqv(a, self@[i].article),
                None => !has_article_ap(self@, ap_id@),
            },
    {
        let n = self.entries.len();
        let mut i: usize = 0;
        while i < n
            invariant
                i <= n,
                forall|k: int| 0 <= k < i ==> (#[trigger] self@[k]).article.ap_id@ != ap_id@,
            decreases n - i,
        {
            if self.entries[i].article.ap_id == *ap_id {
                let a = self.entries[i].article.duplicate();
                proof {
                    assert(self@[i as int].article.ap_id@ == ap_id@);
                    assert(article_eqv(a, self@[i as int].article));
                }
                return Some(a);
            }
            i += 1;
        }
        None
    }

    /// The edit chain of the article with this id, oldest first; empty when
    /// the article is unknown.
    #[verifier::loop_isolation(false)]
    pub fn list_edits(&self, article_id: i32) -> (r: Vec<DbEdit>)
        ensures
            !has_article(self@, article_id) ==> r@.len() == 0,
            forall|i: int|
                0 <= i < self@.len() && (#[trigger] self@[i]).article.id == article_id ==> {
                    &&& r@.len() == self@[i].edits@.len()
                    &&& forall|k: int|
                        0 <= k < r@.len() ==> edit_eqv(#[trigger] r@[k], self@[i].edits@[k])
                },
    {
        proof {
            use_type_invariant(&*self);
        }
        let mut out: Vec<DbEdit> = Vec::new();
        let idx = match self.find_idx(article_id) {
            Some(i) => i,
            None => {
                return out;
            },
        };
        proof {
            assert(forall|i: int|
                0 <= i < self@.len() && (#[trigger] self@[i]).article.id == article_id ==> i
                    == idx as int);
        }
        let n = self.entries[idx].edits.len();
        let mut k: usize = 0;
        while k < n
            invariant
                k <= n,
                out@.len() == k,
                forall|q: int|
                    0 <= q < k ==> edit_eqv(#[trigger] out@[q], self@[idx as int].edits@[q]),
            decreases n - k,
        {
            let e = self.entries[idx].edits[k].duplicate();
            out.push(e);
            k += 1;
        }
        out
    }

    /// The text of the article as of the edit whose hash is `v`: the replay
    /// of the chain up to and including that edit (the most recent one when
    /// the same change occurs twice).
    #[verifier::rlimit(60)]
    pub fn text_at_version(&self, article_id: i32, v: &EditVersion) -> (r: Option<String>)
        ensures
            match r {
                Some(t) => has_article(self@, article_id) && forall|i: int|
                    0 <= i < self@.len() && (#[trigger] self@[i]).article.id == article_id ==> {
                        &&& in_chain(self@[i], v@)
                        &&& forall|j: int|
                            0 <= j < self@[i].edits@.len() && (#[trigger] self@[i].edits@[j]).hash@
                                == v@ && (forall|k: int|
                                j < k < self@[i].edits@.len()
                                    ==> (#[trigger] self@[i].edits@[k]).hash@ != v@) ==> Some(t@)
                                == replay(chain_diffs(self@[i].edits@).take(j + 1))
                    },
                None => forall|i: int|
                    0 <= i < self@.len() && (#[trigger] self@[i]).article.id == article_id
                        ==> !in_chain(self@[i], v@),
            },
    {
        proof {
            use_type_invariant(&*self);
        }
        let idx = match self.find_idx(article_id) {
            Some(i) => i,
            None => {
                return None;
            },
        };
        proof {
            assert(forall|i: int|
                0 <= i < self@.len() && (#[trigger] self@[i]).article.id == article_id ==> i
                    == idx as int);
        }
        let j = match Self::find_version(&self.entries[idx].edits, v) {
            Some(j) => j,
            None => {
                return None;
            },
        };
        let elen = self.entries[idx].edits.len();
        proof {
            assert(j < elen);
        }
        let t = Self::replay_upto(&self.entries[idx].edits, j + 1);
        Some(t)
    }

    /// The hash of the last edit of the article with this id: its latest
    /// version.
    pub fn latest_version(&self, article_id: i32) -> (r: Option<EditVersion>)
        ensures
            match r {
                Some(v) => has_article(self@, article_id) && forall|i: int|
                    0 <= i < self@.len() && (#[trigger] self@[i]).article.id == article_id ==> v@
                        == head_of(self@[i]),
                None => !has_article(self@, article_id),
            },
    {
        proof {
            use_type_invariant(&*self);
        }
        let idx = match self.find_idx(article_id) {
            Some(i) => i,
            None => {
                return None;
            },
        };
        proof {
            assert(forall|i: int|
                0 <= i < self@.len() && (#[trigger] self@[i]).article.id == article_id ==> i
                    == idx as int);
        }
        let elen = self.entries[idx].edits.len();
        Some(self.entries[idx].edits[elen - 1].hash.clone())
    }

    /// The id the next created article will get, as a value, so that a
    /// caller can check the fresh-id headroom before it mutates the store.
    pub fn next_article_id(&self) -> (r: i32)
        ensures
            r == self.fresh_article_id(),
    {
        self.next_article
    }

    /// The id the next appended edit will get, as a value.
    pub fn next_edit_id(&self) -> (r: i32)
        ensures
            r == self.fresh_edit_id(),
    {
        self.next_edit
    }

    /// After any sequence of successful operations, replaying each stored
    /// article's chain from the empty text reproduces its current text, and
    /// every edit's hash is the version of its own diff.
    pub fn chains_replay(&self)
        ensures
            forall|i: int|
                0 <= i < self@.len() ==> replay(chain_diffs((#[trigger] self@[i]).edits@)) == Some(
                    self@[i].article.text@,
                ),
            forall|i: int, j: int|
                0 <= i < self@.len() && 0 <= j < (#[trigger] self@[i]).edits@.len()
                    ==> (#[trigger] self@[i].edits@[j]).hash@ == version_bytes_of(
                    self@[i].edits@[j].diff@,
                ),
    {
        proof {
            use_type_invariant(&*self);
        }
    }

    /// The index of the first article with this ap_id, if any.
    #[verifier::loop_isolation(false)]
    fn find_idx_by_ap(&self, ap_id: &String) -> (r: Option<usize>)
        ensures
            match r {
                Some(i) => first_ap_match(self@, ap_id@, i as int),
                None => !has_article_ap(self@, ap_id@),
            },
    {
        let n = self.entries.len();
        let mut i: usize = 0;
        while i < n
            invariant
                i <= n,
                forall|k: int| 0 <= k < i ==> (#[trigger] self@[k]).article.ap_id@ != ap_id@,
            decreases n - i,
        {
            if self.entries[i].article.ap_id == *ap_id {
                return Some(i);
            }
            i += 1;
        }
        None
    }

    /// Applies one inbound edit to the article with this ap_id: the base
    /// text is reconstructed at the edit's previous version, the diff is
    /// applied to it to recover the submitted text, and the result runs
    /// through the same merge state machine as a local edit.
    #[verifier::rlimit(100)]
    pub fn apply_inbound_edit(
        &mut self,
        registry: &mut ConflictRegistry,
        ap_id: &String,
        previous_version: &EditVersion,
        diff: &String,
        summary: &String,
        creator_id: i32,
        now: i64,
    ) -> (r: Result<EditOutcome, CoreError>)
        requires
            old(self).fresh_edit_id() < i32::MAX,
        ensures
            final(self).fresh_article_id() == old(self).fresh_article_id(),
            old(self).fresh_edit_id() <= final(self).fresh_edit_id() <= old(self).fresh_edit_id()
                + 1,
            match r {
                Err(e) => {
                    &&& *final(self) == *old(self)
                    &&& *final(registry) == *old(registry)
                    &&& match e {
                        CoreError::NotFound => !has_article_ap(old(self)@, ap_id@),
                        CoreError::UnknownBase => has_article_ap(old(self)@, ap_id@) && forall|
                            i: int,
                        |
                            #[trigger] first_ap_match(old(self)@, ap_id@, i) ==> !in_chain(
                                old(self)@[i],
                                previous_version@,
                            ),
                        CoreError::PatchApply => forall|i: int, j: int|
                            first_ap_match(old(self)@, ap_id@, i) && #[trigger] last_hash_match(
                                old(self)@[i],
                                previous_version@,
                                j,
                            ) ==> match replay(chain_diffs(old(self)@[i].edits@).take(j + 1)) {
                                Some(pt) => apply_of(pt, diff@) is None,
                                None => true,
                            },
                        _ => false,
                    }
                },
                Ok(outcome) => update_applied(
                    old(self)@,
                    final(self)@,
                    old(registry)@,
                    final(registry)@,
                    ap_id@,
                    previous_version@,
                    diff@,
                    summary@,
                    creator_id,
                    now,
                    old(self).fresh_edit_id(),
                    outcome,
                ),
            },
    {
        proof {
            use_type_invariant(&*self);
        }
        let idx = match self.find_idx_by_ap(ap_id) {
            Some(i) => i,
            None => {
                return Err(CoreError::NotFound);
            },
        };
        proof {
            assert(forall|i: int|
                #[trigger] first_ap_match(self@, ap_id@, i) ==> i == idx as int);
        }
        let article_id = self.entries[idx].article.id;
        let j = match Self::find_version(&self.entries[idx].edits, previous_version) {
            Some(j) => j,
            None => {
                proof {
                    assert(!in_chain(self@[idx as int], previous_version@));
                }
                return Err(CoreError::UnknownBase);
            },
        };
        let elen = self.entries[idx].edits.len();
        proof {
            assert(j < elen);
            assert(last_hash_match(self@[idx as int], previous_version@, j as int));
            assert(forall|j2: int|
                #[trigger] last_hash_match(self@[idx as int], previous_version@, j2) ==> j2
                    == j as int);
        }
        let prev_text = Self::replay_upto(&self.entries[idx].edits, j + 1);
        let new_text = match apply(prev_text.as_str(), diff.as_str()) {
            Ok(t) => t,
            Err(_) => {
                return Err(CoreError::PatchApply);
            },
        };
        let data = EditArticleData {
            article_id: article_id,
            new_text: new_text,
            summary: summary.clone(),
            previous_version_id: previous_version.clone(),
            resolve_conflict_id: None,
        };
        match self.edit_article(registry, &data, creator_id, now) {
            Ok(outcome) => {
                proof {
                    assert(first_ap_match(old(self)@, ap_id@, idx as int));
                    assert(last_hash_match(old(self)@[idx as int], previous_version@, j as int));
                    assert(Some(prev_text@) == replay(
                        chain_diffs(old(self)@[idx as int].edits@).take(j as int + 1),
                    ));
                    assert(apply_of(prev_text@, diff@) == Some(data.new_text@));
                    assert(resolve_view(data.resolve_conflict_id) == None::<Seq<u8>>);
                    assert(edit_outcome_spec(
                        old(self)@,
                        self@,
                        old(registry)@,
                        registry@,
                        data.new_text@,
                        summary@,
                        previous_version@,
                        None,
                        creator_id,
                        now,
                        old(self).fresh_edit_id(),
                        outcome,
                        idx as int,
                    ));
                    assert(update_applied(
                        old(self)@,
                        self@,
                        old(registry)@,
                        registry@,
                        ap_id@,
                        previous_version@,
                        diff@,
                        summary@,
                        creator_id,
                        now,
                        old(self).fresh_edit_id(),
                        outcome,
                    ));
                }
                Ok(outcome)
            },
            Err(e) => {
                proof {
                    assert(has_article(old(self)@, data.article_id));
                    assert(in_chain(old(self)@[idx as int], data.previous_version_id@));
                    assert(false);
                }
                Err(e)
            },
        }
    }
}

/// `i` is the index of the first article whose ap_id is `ap`.
pub open spec fn first_ap_match(entries: Seq<ArticleEntry>, ap: Seq<char>, i: int) -> bool {
    &&& 0 <= i < entries.len()
    &&& entries[i].article.ap_id@ == ap
    &&& forall|m: int| 0 <= m < i ==> (#[trigger] entries[m]).article.ap_id@ != ap
}

/// `j` is the index of the last edit in the chain whose hash is `v`.
pub open spec fn last_hash_match(entry: ArticleEntry, v: Seq<u8>, j: int) -> bool {
    &&& 0 <= j < entry.edits@.len()
    &&& entry.edits@[j].hash@ == v
    &&& forall|k: int| j < k < entry.edits@.len() ==> (#[trigger] entry.edits@[k]).hash@ != v
}

/// The store and registry after an inbound edit was accepted: at the first
/// article with the given ap_id, the text reconstructed at the edit's
/// previous version takes the diff, and the result runs through the same
/// state machine as a local edit, applying cleanly or recording a conflict.
pub open spec fn update_applied(
    olds: Seq<ArticleEntry>,
    news: Seq<ArticleEntry>,
    oldcs: Seq<DbConflict>,
    newcs: Seq<DbConflict>,
    ap: Seq<char>,
    prev: Seq<u8>,
    diff: Seq<char>,
    summary: Seq<char>,
    creator_id: i32,
    now: i64,
    edit_id: i32,
    outcome: EditOutcome,
) -> bool {
    exists|i: int, j: int|
        #![trigger first_ap_match(olds, ap, i), last_hash_match(olds[i], prev, j)]
        {
            &&& first_ap_match(olds, ap, i)
            &&& last_hash_match(olds[i], prev, j)
            &&& match replay(chain_diffs(olds[i].edits@).take(j + 1)) {
                Some(pt) => match apply_of(pt, diff) {
                    Some(nt) => edit_outcome_spec(
                        olds,
                        news,
                        oldcs,
                        newcs,
                        nt,
                        summary,
                        prev,
                        None,
                        creator_id,
                        now,
                        edit_id,
                        outcome,
                        i,
                    ),
                    None => false,
                },
                None => false,
            }
        }
}

/// Whether the store holds an article with this ap_id.
pub open spec fn has_article_ap(entries: Seq<ArticleEntry>, ap: Seq<char>) -> bool {
    exists|i: int| 0 <= i < entries.len() && (#[trigger] entries[i]).article.ap_id@ == ap
}

/// An edit of a forked article: the same change under the same version, but
/// re-keyed to the new article and addressed under its ap_id.
pub open spec fn forked_edit(n: DbEdit, o: DbEdit, a: DbArticle, id: int) -> bool {
    &&& n.id == id
    &&& n.creator_id == o.creator_id
    &&& n.hash@ == o.hash@
    &&& n.diff@ == o.diff@
    &&& n.summary@ == o.summary@
    &&& n.previous_version_id@ == o.previous_version_id@
    &&& n.created == o.created
    &&& n.article_id == a.id
    &&& n.ap_id@ == a.ap_id@ + seq!['/'] + hex_of(n.hash@)
}

/// A forked article: same title and text as the source, the whole chain
/// copied in order with identical diffs and hashes, fresh ap_ids and ids.
pub open spec fn forked_entry(
    ne: ArticleEntry,
    oe: ArticleEntry,
    new_ap_id: Seq<char>,
    target_instance_id: i32,
    article_id: i32,
    first_edit_id: i32,
) -> bool {
    &&& ne.article.id == article_id
    &&& ne.article.title@ == oe.article.title@
    &&& ne.article.text@ == oe.article.text@
    &&& ne.article.ap_id@ == new_ap_id
    &&& ne.article.instance_id == target_instance_id
    &&& ne.article.local == true
    &&& ne.article.protected == false
    &&& ne.edits@.len() == oe.edits@.len()
    &&& forall|k: int|
        0 <= k < ne.edits@.len() ==> forked_edit(
            #[trigger] ne.edits@[k],
            oe.edits@[k],
            ne.article,
            first_edit_id + k,
        )
}

/// Whether the store holds an article with this id.
pub open spec fn has_article(entries: Seq<ArticleEntry>, id: i32) -> bool {
    exists|i: int| 0 <= i < entries.len() && (#[trigger] entries[i]).article.id == id
}

/// Field-wise equality of two articles up to their text.
pub open spec fn article_eqv_mod_text(a: DbArticle, b: DbArticle) -> bool {
    &&& a.id == b.id
    &&& a.title@ == b.title@
    &&& a.ap_id@ == b.ap_id@
    &&& a.instance_id == b.instance_id
    &&& a.local == b.local
    &&& a.protected == b.protected
}

/// How an entry changes when one edit is appended: the chain grows by an
/// edit that patches the old text into `target`, based on the old head, and
/// the article's text becomes `target`.
pub open spec fn appended_entry(
    ne: ArticleEntry,
    oe: ArticleEntry,
    target: Seq<char>,
    summary: Seq<char>,
    creator_id: i32,
    now: i64,
    edit_id: i32,
) -> bool {
    &&& article_eqv_mod_text(ne.article, oe.article)
    &&& ne.article.text@ == target
    &&& ne.edits@ == oe.edits@.push(ne.edits@.last())
    &&& edit_fields(
        ne.edits@.last(),
        oe.article,
        oe.article.text@,
        target,
        head_of(oe),
        summary,
        creator_id,
        now,
        edit_id,
    )
}

/// How the registry changes on a successfully applied edit: the conflict
/// named for resolution, if any, is deleted.
pub open spec fn registry_resolved(
    oldcs: Seq<DbConflict>,
    newcs: Seq<DbConflict>,
    resolve: Option<Seq<u8>>,
) -> bool {
    match resolve {
        Some(cid) => newcs == without_conflict(oldcs, cid),
        None => newcs == oldcs,
    }
}

/// The version bytes named by an optional conflict id.
pub open spec fn resolve_view(resolve: Option<EditVersion>) -> Option<Seq<u8>> {
    match resolve {
        Some(cid) => Some(cid@),
        None => None,
    }
}

/// The fields of a recorded conflict: it is identified by the version of
/// its marker text and remembers the head it must be resolved against.
pub open spec fn conflict_fields(
    c: DbConflict,
    marker: Seq<char>,
    article_id: i32,
    prev: Seq<u8>,
    creator_id: i32,
) -> bool {
    &&& c.id@ == version_bytes_of(marker)
    &&& c.three_way_merge@ == marker
    &&& c.article_id == article_id
    &&& c.previous_version_id@ == prev
    &&& c.creator_id == creator_id
}

/// The store and registry after an edit was applied to the entry at `i`
/// with merged text `target`.
pub open spec fn applied_spec(
    olds: Seq<ArticleEntry>,
    news: Seq<ArticleEntry>,
    oldcs: Seq<DbConflict>,
    newcs: Seq<DbConflict>,
    summary: Seq<char>,
    resolve: Option<Seq<u8>>,
    creator_id: i32,
    now: i64,
    edit_id: i32,
    outcome: EditOutcome,
    i: int,
    target: Seq<char>,
) -> bool {
    &&& news == olds.update(i, news[i])
    &&& appended_entry(news[i], olds[i], target, summary, creator_id, now, edit_id)
    &&& (outcome matches EditOutcome::Applied(e) && edit_eqv(e, news[i].edits@.last()))
    &&& registry_resolved(oldcs, newcs, resolve)
}

/// The store and registry after a merge conflict on the entry at `i`: the
/// store is unchanged and the registry gains the conflict, which is also
/// returned.
pub open spec fn conflict_spec(
    olds: Seq<ArticleEntry>,
    news: Seq<ArticleEntry>,
    oldcs: Seq<DbConflict>,
    newcs: Seq<DbConflict>,
    creator_id: i32,
    outcome: EditOutcome,
    i: int,
    marker: Seq<char>,
) -> bool {
    &&& news == olds
    &&& newcs == oldcs.push(newcs.last())
    &&& conflict_fields(newcs.last(), marker, olds[i].article.id, head_of(olds[i]), creator_id)
    &&& (outcome matches EditOutcome::Conflict(api) && {
        &&& api.id@ == version_bytes_of(marker)
        &&& api.three_way_merge@ == marker
        &&& api.article_id == olds[i].article.id
        &&& api.previous_version_id@ == head_of(olds[i])
    })
}

/// The whole state machine of `edit_article` for the matching entry `i`.
pub open spec fn edit_outcome_spec(
    olds: Seq<ArticleEntry>,
    news: Seq<ArticleEntry>,
    oldcs: Seq<DbConflict>,
    newcs: Seq<DbConflict>,
    new_text: Seq<char>,
    summary: Seq<char>,
    prev: Seq<u8>,
    resolve: Option<Seq<u8>>,
    creator_id: i32,
    now: i64,
    edit_id: i32,
    outcome: EditOutcome,
    i: int,
) -> bool {
    let oe = olds[i];
    if prev == head_of(oe) {
        applied_spec(
            olds,
            news,
            oldcs,
            newcs,
            summary,
            resolve,
            creator_id,
            now,
            edit_id,
            outcome,
            i,
            new_text,
        )
    } else {
        &&& in_chain(oe, prev)
        &&& forall|j: int|
            0 <= j < oe.edits@.len() && (#[trigger] oe.edits@[j]).hash@ == prev && (forall|k: int|
                j < k < oe.edits@.len() ==> (#[trigger] oe.edits@[k]).hash@ != prev)
                ==> rebase_spec(
                olds,
                news,
                oldcs,
                newcs,
                new_text,
                summary,
                resolve,
                creator_id,
                now,
                edit_id,
                outcome,
                i,
                j,
            )
    }
}

/// The rebase case of `edit_article`: the ancestor text is reconstructed at
/// the base edit `j`, and the submitted text is merged three ways against
/// the current text; a clean merge is applied, a conflict is recorded.
pub open spec fn rebase_spec(
    olds: Seq<ArticleEntry>,
    news: Seq<ArticleEntry>,
    oldcs: Seq<DbConflict>,
    newcs: Seq<DbConflict>,
    new_text: Seq<char>,
    summary: Seq<char>,
    resolve: Option<Seq<u8>>,
    creator_id: i32,
    now: i64,
    edit_id: i32,
    outcome: EditOutcome,
    i: int,
    j: int,
) -> bool {
    match replay(chain_diffs(olds[i].edits@).take(j + 1)) {
        Some(anc) => match merge_of(anc, new_text, olds[i].article.text@) {
            Ok(m) => applied_spec(
                olds,
                news,
                oldcs,
                newcs,
                summary,
                resolve,
                creator_id,
                now,
                edit_id,
                outcome,
                i,
                m,
            ),
            Err(c) => conflict_spec(olds, news, oldcs, newcs, creator_id, outcome, i, c),
        },
        None => false,
    }
}

/// The outcome of a submitted edit: it was applied to the chain, or it
/// produced a conflict awaiting human resolution. A conflict is a normal
/// outcome for the submitting user, not an error.
#[derive(Debug)]
pub enum EditOutcome {
    Applied(DbEdit),
    Conflict(ApiConflict),
}

/// An unresolved three-way merge, owned by the user whose edit produced it.
pub struct DbConflict {
    pub id: EditVersion,
    pub article_id: i32,
    pub previous_version_id: EditVersion,
    pub three_way_merge: String,
    pub creator_id: i32,
}

/// The caller-facing form of a conflict.
#[derive(Debug)]
pub struct ApiConflict {
    pub id: EditVersion,
    pub three_way_merge: String,
    pub article_id: i32,
    pub previous_version_id: EditVersion,
}

/// A conflict is identified by the version of its own marker text.
pub open spec fn conflict_wf(c: DbConflict) -> bool {
    c.id@ == version_bytes_of(c.three_way_merge@)
}

/// The registry without the conflicts named `id`, order kept.
pub open spec fn without_conflict(cs: Seq<DbConflict>, id: Seq<u8>) -> Seq<DbConflict>
    decreases cs.len(),
{
    if cs.len() == 0 {
        cs
    } else {
        let rest = without_conflict(cs.drop_last(), id);
        if cs.last().id@ == id {
            rest
        } else {
            rest.push(cs.last())
        }
    }
}

/// An article as callers read it: the record, its latest version and its
/// chain.
#[derive(Debug)]
pub struct ArticleView {
    pub article: DbArticle,
    pub latest_version: EditVersion,
    pub edits: Vec<DbEdit>,
}

/// The table of unresolved three-way merges awaiting human input.
pub struct ConflictRegistry {
    conflicts: Vec<DbConflict>,
}

impl View for ConflictRegistry {
    type V = Seq<DbConflict>;

    closed spec fn view(&self) -> Seq<DbConflict> {
        self.conflicts@
    }
}

impl ConflictRegistry {
    /// Every recorded conflict is identified by the version of its marker.
    #[verifier::type_invariant]
    spec fn wf(self) -> bool {
        forall|i: int| 0 <= i < self.conflicts@.len() ==> conflict_wf(#[trigger] self.conflicts@[i])
    }

    /// An empty registry.
    pub fn new() -> (r: ConflictRegistry)
        ensures
            r@.len() == 0,
    {
        ConflictRegistry { conflicts: Vec::new() }
    }

    /// Records one conflict.
    pub(crate) fn insert(&mut self, c: DbConflict)
        requires
            conflict_wf(c),
        ensures
            final(self)@ == old(self)@.push(c),
    {
        proof {
            use_type_invariant(&*self);
        }
        let mut cs: Vec<DbConflict> = Vec::new();
        core::mem::swap(&mut cs, &mut self.conflicts);
        cs.push(c);
        self.conflicts = cs;
    }

    /// Deletes every conflict with this id, keeping the others in order.
    #[verifier::loop_isolation(false)]
    #[verifier::rlimit(60)]
    pub fn delete(&mut self, id: &EditVersion)
        ensures
            final(self)@ == without_conflict(old(self)@, id@),
    {
        proof {
            use_type_invariant(&*self);
        }
        let mut cs: Vec<DbConflict> = Vec::new();
        core::mem::swap(&mut cs, &mut self.conflicts);
        let ghost orig = cs@;
        let n0 = cs.len();
        proof {
            assert(orig.len() == n0 as int);
        }
        let mut k: usize = 0;
        let mut m: usize = 0;
        proof {
            assert(orig.take(0) =~= Seq::<DbConflict>::empty());
            assert(orig.skip(0) =~= orig);
            assert(without_conflict(orig.take(0), id@) + orig.skip(0) =~= cs@);
        }
        while m < cs.len()
            invariant
                m <= k <= orig.len(),
                orig.len() <= usize::MAX,
                cs@ == without_conflict(orig.take(k as int), id@) + orig.skip(k as int),
                m == without_conflict(orig.take(k as int), id@).len(),
            decreases orig.len() - k,
        {
            proof {
                assert(cs@.len() == m + orig.len() - k);
                assert(k < orig.len());
                assert(orig.take(k + 1).drop_last() =~= orig.take(k as int));
                assert(orig.take(k + 1).last() == orig[k as int]);
                assert(cs@[m as int] == orig[k as int]);
            }
            let matched = cs[m].id == *id;
            if matched {
                let _ = cs.remove(m);
                proof {
                    assert(cs@ =~= without_conflict(orig.take(k + 1), id@) + orig.skip(k + 1));
                }
            } else {
                m += 1;
                proof {
                    assert(cs@ =~= without_conflict(orig.take(k + 1), id@) + orig.skip(k + 1));
                }
            }
            k += 1;
        }
        proof {
            assert(orig.take(orig.len() as int) =~= orig);
            assert(cs@ =~= without_conflict(orig, id@));
            lemma_without_conflict_wf(orig, id@);
        }
        self.conflicts = cs;
    }
}

/// Deleting conflicts keeps the remaining ones well-identified.
pub proof fn lemma_without_conflict_wf(cs: Seq<DbConflict>, id: Seq<u8>)
    requires
        forall|i: int| 0 <= i < cs.len() ==> conflict_wf(#[trigger] cs[i]),
    ensures
        forall|i: int|
            0 <= i < without_conflict(cs, id).len() ==> conflict_wf(
                #[trigger] without_conflict(cs, id)[i],
            ),
    decreases cs.len(),
{
    if cs.len() > 0 {
        assert(forall|i: int|
            0 <= i < cs.drop_last().len() ==> conflict_wf(#[trigger] cs.drop_last()[i]));
        lemma_without_conflict_wf(cs.drop_last(), id);
        assert(conflict_wf(cs[cs.len() - 1]));
        assert(cs.last() == cs[cs.len() - 1]);
        if cs.last().id@ != id {
            let sub = without_conflict(cs.drop_last(), id);
            assert(without_conflict(cs, id) == sub.push(cs.last()));
            assert(forall|i: int|
                0 <= i < sub.len() ==> #[trigger] sub.push(cs.last())[i] == sub[i]);
        }
    }
}

} // verus!
