//! Feeds and episodes: the data model, episode ordering, and the rules that
//! replace a feed's episode list after its document is reparsed.

use vstd::prelude::*;
use vstd::seq_lib::{to_multiset_remove, to_multiset_insert};
use core::cmp::Ordering;
use crate::list::{Styled, StyleHint, ThingList};
use crate::download::Downloadable;
use crate::strings::{lower_of, lowercase, contains_seq, contains_str, replace_char};

verus! {

/// An episode's remote media URL.
#[derive(Clone, Debug)]
pub struct Enclosure {
    pub url: String,
}

/// One downloadable item of a feed. The publish timestamp is the parsed
/// date as seconds since the epoch, and `pub_date_text` its rendered form;
/// `feed_save_folder` names the owning feed's save folder, carried here so
/// the save path needs no lookup.
#[derive(Clone, Debug)]
pub struct Episode {
    pub name: String,
    pub pub_date: Option<i64>,
    pub pub_date_text: String,
    pub enclosure: Enclosure,
    pub downloaded: bool,
    pub feed_save_folder: String,
}

/// The episodes of one parsed feed document.
pub struct Channel {
    pub episodes: Vec<Episode>,
}

/// A subscribed source of episodes. The episode list is wholesale replaced
/// whenever the feed's cached document is reloaded.
#[derive(Clone, Debug)]
pub struct Feed {
    pub name: String,
    pub folder: String,
    pub save_folder: String,
    pub url: String,
    pub episodes: ThingList<Episode>,
}

/// The file name an episode is saved under: its title with every path
/// separator replaced by an underscore, then the media extension.
pub open spec fn filename_spec(name: Seq<char>) -> Seq<char> {
    name.map_values(|c: char| if c == '/' { '_' } else { c }) + seq!['.', 'm', 'p', '3']
}

impl Episode {
    /// The file name this episode is saved under.
    pub fn filename(&self) -> (r: String)
        ensures
            r@ == filename_spec(self.name@),
    {
        let mut r = replace_char(self.name.as_str(), '/', '_');
        r.push('.');
        r.push('m');
        r.push('p');
        r.push('3');
        proof {
            assert(r@ =~= filename_spec(self.name@));
        }
        r
    }
}

impl Downloadable for Episode {
    open spec fn url_spec(&self) -> Seq<char> {
        self.enclosure.url@
    }

    open spec fn save_path_spec(&self) -> Seq<char> {
        self.feed_save_folder@ + seq!['/'] + filename_spec(self.name@)
    }

    fn url(&self) -> (r: String) {
        self.enclosure.url.clone()
    }

    fn save_path(&self) -> (r: String) {
        let mut r = self.feed_save_folder.clone();
        r.push('/');
        let f = self.filename();
        r.append(f.as_str());
        proof {
            assert(r@ =~= self.save_path_spec());
        }
        r
    }
}

impl Styled for Episode {
    open spec fn text_spec(&self) -> Seq<char> {
        self.name@ + seq![' '] + (if self.pub_date is Some {
            self.pub_date_text@
        } else {
            seq!['d', 'a', 't', 'e', ' ', 'u', 'n', 'k', 'n', 'o', 'w', 'n']
        })
    }

    open spec fn style_spec(&self) -> StyleHint {
        if self.downloaded {
            StyleHint::Emphasized
        } else {
            StyleHint::Normal
        }
    }

    fn render_text(&self) -> (r: String) {
        let mut r = self.name.clone();
        r.push(' ');
        match self.pub_date {
            Some(_) => {
                r.append(self.pub_date_text.as_str());
            },
            None => {
                r.append("date unknown");
                proof {
                    reveal_strlit("date unknown");
                }
            },
        }
        proof {
            assert(r@ =~= self.text_spec());
        }
        r
    }

    fn style_hint(&self) -> (r: StyleHint) {
        if self.downloaded {
            StyleHint::Emphasized
        } else {
            StyleHint::Normal
        }
    }
}

impl Feed {
    /// Set each episode's downloaded flag from whether a file exists at its
    /// computed destination, as the caller observed it. Nothing else changes.
    pub fn check_episodes_downloaded(&mut self, exists: Vec<bool>)
        requires
            exists@.len() == old(self).episodes.things@.len(),
        ensures
            final(self).episodes.things@.len() == old(self).episodes.things@.len(),
            forall|i: int| 0 <= i < exists@.len()
                ==> #[trigger] final(self).episodes.things@[i]
                    == (Episode { downloaded: exists@[i], ..old(self).episodes.things@[i] }),
            final(self).episodes.selected_index == old(self).episodes.selected_index,
            final(self).name == old(self).name,
            final(self).folder == old(self).folder,
            final(self).save_folder == old(self).save_folder,
            final(self).url == old(self).url,
    {
        let n = self.episodes.things.len();
        let mut i: usize = 0;
        while i < n
            invariant
                i <= n,
                n == self.episodes.things@.len(),
                exists@.len() == n,
                forall|j: int| 0 <= j < i
                    ==> #[trigger] self.episodes.things@[j]
                        == (Episode { downloaded: exists@[j], ..old(self).episodes.things@[j] }),
                forall|j: int| i <= j < n
                    ==> #[trigger] self.episodes.things@[j] == old(self).episodes.things@[j],
                self.episodes.selected_index == old(self).episodes.selected_index,
                self.name == old(self).name,
                self.folder == old(self).folder,
                self.save_folder == old(self).save_folder,
                self.url == old(self).url,
            decreases n - i,
        {
            self.episodes.things[i].downloaded = exists[i];
            i = i + 1;
        }
    }
}

impl Downloadable for Feed {
    open spec fn url_spec(&self) -> Seq<char> {
        self.url@
    }

    open spec fn save_path_spec(&self) -> Seq<char> {
        self.folder@ + seq!['.', 'r', 's', 's']
    }

    fn url(&self) -> (r: String) {
        self.url.clone()
    }

    fn save_path(&self) -> (r: String) {
        let mut r = self.folder.clone();
        r.push('.');
        r.push('r');
        r.push('s');
        r.push('s');
        proof {
            assert(r@ =~= self.save_path_spec());
        }
        r
    }
}

impl Styled for Feed {
    open spec fn text_spec(&self) -> Seq<char> {
        self.name@ + seq![' ', '('] + self.folder@ + seq![')']
    }

    /// A feed stands out while its newest episode is neither a teaser nor
    /// already downloaded.
    open spec fn style_spec(&self) -> StyleHint {
        if self.episodes.things@.len() > 0
            && !contains_seq(
                lower_of(self.episodes.things@[0].name@),
                seq!['t', 'e', 'a', 's', 'e', 'r'],
            )
            && !self.episodes.things@[0].downloaded {
            StyleHint::Emphasized
        } else {
            StyleHint::Normal
        }
    }

    fn render_text(&self) -> (r: String) {
        let mut r = self.name.clone();
        r.push(' ');
        r.push('(');
        r.append(self.folder.as_str());
        r.push(')');
        proof {
            assert(r@ =~= self.text_spec());
        }
        r
    }

    fn style_hint(&self) -> (r: StyleHint) {
        if self.episodes.things.len() > 0 {
            let first = &self.episodes.things[0];
            let lowered = lowercase(first.name.as_str());
            let teaser = contains_str(lowered.as_str(), "teaser");
            proof {
                reveal_strlit("teaser");
                assert("teaser"@ =~= seq!['t', 'e', 'a', 's', 'e', 'r']);
            }
            if !teaser && !first.downloaded {
                StyleHint::Emphasized
            } else {
                StyleHint::Normal
            }
        } else {
            StyleHint::Normal
        }
    }
}

/// The documented episode ordering: descending by publish timestamp when both
/// episodes have one; when either timestamp is missing, the left operand is
/// always treated as the greater one. This tie-break is asymmetric on
/// purpose: it reproduces the ordering the application has always used, and
/// is not a total order.
pub open spec fn episode_cmp_spec(d1: Option<i64>, d2: Option<i64>) -> Ordering {
    match (d1, d2) {
        (Some(a), Some(b)) => if b > a {
            Ordering::Greater
        } else if b == a {
            Ordering::Equal
        } else {
            Ordering::Less
        },
        _ => Ordering::Greater,
    }
}

/// Compare two episodes for sorting: exactly [`episode_cmp_spec`] on their
/// publish timestamps.
pub fn compare_episodes(e1: &Episode, e2: &Episode) -> (r: Ordering)
    ensures
        r == episode_cmp_spec(e1.pub_date, e2.pub_date),
{
    match (e1.pub_date, e2.pub_date) {
        (Some(d1), Some(d2)) => {
            if d2 > d1 {
                Ordering::Greater
            } else if d2 == d1 {
                Ordering::Equal
            } else {
                Ordering::Less
            }
        },
        _ => Ordering::Greater,
    }
}

/// For any two episodes that both have timestamps, the ordering places the
/// later timestamp first; when either timestamp is missing, the comparison
/// always calls the left operand the greater one, whichever side it stands on.
pub proof fn lemma_episode_ordering(d1: Option<i64>, d2: Option<i64>)
    ensures
        (d1 is Some && d2 is Some && d2.unwrap() > d1.unwrap())
            ==> episode_cmp_spec(d1, d2) == Ordering::Greater,
        (d1 is Some && d2 is Some && d2.unwrap() < d1.unwrap())
            ==> episode_cmp_spec(d1, d2) == Ordering::Less,
        (d1 is None || d2 is None) ==> episode_cmp_spec(d1, d2) == Ordering::Greater
            && episode_cmp_spec(d2, d1) == Ordering::Greater,
{
}

/// Every episode has a publish timestamp.
pub open spec fn all_dated(s: Seq<Episode>) -> bool {
    forall|i: int| 0 <= i < s.len() ==> #[trigger] s[i].pub_date is Some
}

/// Publish timestamps never increase along the sequence.
pub open spec fn sorted_desc(s: Seq<Episode>) -> bool {
    forall|a: int, b: int| 0 <= a < b < s.len()
        ==> #[trigger] s[a].pub_date.unwrap() >= #[trigger] s[b].pub_date.unwrap()
}

/// Whether the episode at `k` must still move left: the comparator calls its
/// left neighbour the greater one.
fn must_move_left(v: &Vec<Episode>, k: usize) -> (r: bool)
    requires
        0 < k < v@.len(),
    ensures
        r == (episode_cmp_spec(v@[k - 1].pub_date, v@[k as int].pub_date) == Ordering::Greater),
{
    match (v[k - 1].pub_date, v[k].pub_date) {
        (Some(d1), Some(d2)) => d2 > d1,
        _ => true,
    }
}

/// Sort episodes with [`compare_episodes`], by insertion: the result holds
/// the same episodes, and when every episode has a timestamp they end up in
/// descending timestamp order. When timestamps are missing the comparator is
/// not a total order, and no order is promised beyond the permutation.
pub fn sort_episodes(v: &mut Vec<Episode>)
    ensures
        final(v)@.len() == old(v)@.len(),
        final(v)@.to_multiset() == old(v)@.to_multiset(),
        all_dated(old(v)@) ==> sorted_desc(final(v)@),
        all_dated(final(v)@) == all_dated(old(v)@),
{
    let ghost orig = v@;
    let n = v.len();
    if n <= 1 {
        return;
    }
    let mut j: usize = 1;
    while j < n
        invariant
            1 <= j <= n,
            n == v@.len(),
            v@.to_multiset() == orig.to_multiset(),
            all_dated(v@) == all_dated(orig),
            all_dated(orig) ==> sorted_desc(v@.take(j as int)),
        decreases n - j,
    {
        proof {
            if all_dated(orig) {
                assert forall|a: int, b: int| 0 <= a < b <= j && b != j implies
                    v@[a].pub_date.unwrap() >= v@[b].pub_date.unwrap() by {
                    assert(v@.take(j as int)[a] == v@[a]);
                    assert(v@.take(j as int)[b] == v@[b]);
                }
            }
        }
        let mut k: usize = j;
        while k > 0 && must_move_left(v, k)
            invariant
                k <= j < n,
                n == v@.len(),
                v@.to_multiset() == orig.to_multiset(),
                all_dated(v@) == all_dated(orig),
                all_dated(orig) ==> forall|a: int, b: int|
                    0 <= a < b <= j && b != k
                        ==> v@[a].pub_date.unwrap() >= v@[b].pub_date.unwrap(),
            decreases k,
        {
            let ghost before = v@;
            let e = v.remove(k);
            v.insert(k - 1, e);
            proof {
                assert(v@ =~= before.update(k as int, before[k - 1]).update(k - 1, before[k as int]));
                to_multiset_remove(before, k as int);
                to_multiset_insert(before.remove(k as int), k - 1, before[k as int]);
                assert(before.remove(k as int).insert(k - 1, before[k as int]) =~= v@);
                assert(v@.to_multiset() =~= before.to_multiset()) by {
                    vstd::seq_lib::to_multiset_contains(before, before[k as int]);
                    assert(before.contains(before[k as int]));
                    broadcast use vstd::multiset::group_multiset_axioms;
                }
                if all_dated(orig) {
                    assert forall|a: int, b: int|
                        0 <= a < b <= j && b != k - 1 implies
                        v@[a].pub_date.unwrap() >= v@[b].pub_date.unwrap() by {
                        if a == k - 1 {
                            if b == k {
                                // the swapped pair: the comparator said Greater
                            } else {
                                assert(before[k as int].pub_date.unwrap() >= before[k - 1].pub_date.unwrap());
                                assert(before[k - 1].pub_date.unwrap() >= before[b].pub_date.unwrap());
                            }
                        } else if a == k {
                            assert(v@[a] == before[k - 1]);
                        } else if b == k {
                            assert(v@[b] == before[k - 1]);
                            assert(before[a].pub_date.unwrap() >= before[k - 1].pub_date.unwrap());
                        } else {
                            assert(v@[a] == before[a] && v@[b] == before[b]);
                        }
                    }
                    assert(all_dated(v@)) by {
                        assert forall|i: int| 0 <= i < v@.len() implies #[trigger] v@[i].pub_date is Some by {
                            if i == k - 1 {
                                assert(v@[i] == before[k as int]);
                            } else if i == k {
                                assert(v@[i] == before[k - 1]);
                            } else {
                                assert(v@[i] == before[i]);
                            }
                        }
                    }
                } else {
                    assert(!all_dated(v@)) by {
                        let ghost w = choose|i: int| 0 <= i < before.len() && !(#[trigger] before[i].pub_date is Some);
                        if w == k - 1 {
                            assert(v@[k as int] == before[k - 1]);
                        } else if w == k {
                            assert(v@[k - 1] == before[k as int]);
                        } else {
                            assert(v@[w] == before[w]);
                        }
                    }
                }
            }
            k = k - 1;
        }
        proof {
            if all_dated(orig) {
                assert forall|a: int, b: int| 0 <= a < b <= j implies
                    v@[a].pub_date.unwrap() >= v@[b].pub_date.unwrap() by {
                    if b == k {
                        assert(k > 0);
                        assert(episode_cmp_spec(v@[k - 1].pub_date, v@[k as int].pub_date) != Ordering::Greater);
                        assert(v@[k - 1].pub_date.unwrap() >= v@[k as int].pub_date.unwrap());
                        if a < k - 1 {
                            assert(v@[a].pub_date.unwrap() >= v@[k - 1].pub_date.unwrap());
                        }
                    }
                }
                assert(sorted_desc(v@.take(j + 1))) by {
                    assert forall|a: int, b: int| 0 <= a < b < j + 1 implies
                        #[trigger] v@.take(j + 1)[a].pub_date.unwrap()
                            >= #[trigger] v@.take(j + 1)[b].pub_date.unwrap() by {
                        assert(v@.take(j + 1)[a] == v@[a]);
                        assert(v@.take(j + 1)[b] == v@[b]);
                    }
                }
            }
        }
        j = j + 1;
    }
    proof {
        if n > 0 {
            assert(v@.take(n as int) =~= v@);
        }
        if all_dated(orig) {
            assert(sorted_desc(v@));
        }
        vstd::seq_lib::to_multiset_len(v@);
        vstd::seq_lib::to_multiset_len(orig);
    }
}

} // verus!

verus! {

/// The same episode, owned by the feed with the given save folder.
pub open spec fn set_folder(e: Episode, folder: String) -> Episode {
    Episode { feed_save_folder: folder, ..e }
}

impl Feed {
    /// Replace this feed's episodes by a freshly parsed list: each episode
    /// learns the feed's save folder, the list is sorted by
    /// [`compare_episodes`], and the cursor is kept where it still fits and
    /// reset to the top where it does not. The downloaded flags are the
    /// parsed ones; the caller rechecks them against the filesystem after.
    pub fn install_episodes(&mut self, eps: Vec<Episode>)
        ensures
            final(self).episodes.things@.len() == eps@.len(),
            final(self).episodes.things@.to_multiset()
                == eps@.map_values(|e: Episode| set_folder(e, old(self).save_folder)).to_multiset(),
            all_dated(eps@) ==> sorted_desc(final(self).episodes.things@),
            final(self).episodes.selected_index == (if old(self).episodes.selected_index < eps@.len() {
                old(self).episodes.selected_index as int
            } else {
                0
            }),
            final(self).episodes.cursor_ok(),
            final(self).name == old(self).name,
            final(self).folder == old(self).folder,
            final(self).save_folder == old(self).save_folder,
            final(self).url == old(self).url,
    {
        let ghost eps0 = eps@;
        let mut eps = eps;
        let n = eps.len();
        let mut i: usize = 0;
        while i < n
            invariant
                i <= n,
                n == eps@.len(),
                eps0.len() == n,
                forall|j: int| 0 <= j < i
                    ==> #[trigger] eps@[j] == set_folder(eps0[j], self.save_folder),
                forall|j: int| i <= j < n ==> #[trigger] eps@[j] == eps0[j],
                *self == *old(self),
            decreases n - i,
        {
            eps[i].feed_save_folder = self.save_folder.clone();
            i = i + 1;
        }
        proof {
            assert(eps@ =~= eps0.map_values(|e: Episode| set_folder(e, self.save_folder)));
            if all_dated(eps0) {
                assert(all_dated(eps@)) by {
                    assert forall|j: int| 0 <= j < eps@.len() implies
                        #[trigger] eps@[j].pub_date is Some by {
                        assert(eps@[j] == set_folder(eps0[j], self.save_folder));
                    }
                }
            }
        }
        sort_episodes(&mut eps);
        let len = eps.len();
        self.episodes.things = eps;
        if self.episodes.selected_index >= len {
            self.episodes.selected_index = 0;
        }
    }
}

} // verus!

verus! {

/// Prepare a cached feed document for parsing: rename the namespaced title
/// tag the parser trips over, and escape bare ampersands. Exactly two
/// left-to-right replacements, in this order.
pub fn prepare_feed_document(s: &str) -> (r: String)
    ensures
        r@ == crate::strings::replace_seq(
            crate::strings::replace_seq(s@, "itunes:title"@, "itunes-title"@),
            "& "@,
            "&amp; "@,
        ),
{
    proof {
        reveal_strlit("itunes:title");
        reveal_strlit("& ");
    }
    let a = crate::strings::replace_str(s, "itunes:title", "itunes-title");
    crate::strings::replace_str(a.as_str(), "& ", "&amp; ")
}

} // verus!
