//! Stable sorting, by an integer key or by text: the orders the player
//! lists albums in, by release year, by release date, and by release date
//! as text on an artist's page.
use vstd::prelude::*;

use crate::catalog::{ApiAlbum, Albums};
use crate::convert::{album_dated, album_from_api, album_of, checked_album_from_api, date_day_number, date_day_number_of};
use crate::service::{Album, AlbumView};

verus! {

/// Whether `p` lists each of `0..n` exactly once.
pub open spec fn is_arrangement(p: Seq<int>, n: int) -> bool {
    &&& p.len() == n
    &&& forall|i: int| 0 <= i < n ==> 0 <= #[trigger] p[i] < n
    &&& forall|i: int, j: int| 0 <= i < j < n ==> p[i] != p[j]
}

/// Whether taking `keys` in the order `p` gives a stable sort: the keys do
/// not decrease, and equal keys keep their first order.
pub open spec fn stable_arrangement(keys: Seq<i64>, p: Seq<int>) -> bool {
    &&& is_arrangement(p, keys.len() as int)
    &&& forall|i: int, j: int| 0 <= i < j < p.len() ==> keys[p[i]] <= keys[p[j]]
    &&& forall|i: int, j: int| 0 <= i < j < p.len() && keys[p[i]] == keys[p[j]] ==> p[i] < p[j]
}

/// The elements of `s` in the order `p`.
pub open spec fn arranged<T>(s: Seq<T>, p: Seq<int>) -> Seq<T> {
    p.map_values(|i: int| s[i])
}

/// An arrangement of `0..n` lists every one of them.
pub proof fn lemma_arrangement_covers(p: Seq<int>, n: int, x: int)
    requires
        is_arrangement(p, n),
        0 <= x < n,
    ensures
        exists|k: int| 0 <= k < n && p[k] == x,
{
    vstd::set_lib::lemma_int_range(0, n);
    assert(p.no_duplicates()) by {
        assert forall|i: int, j: int| 0 <= i < p.len() && 0 <= j < p.len() && i != j implies p[i] != p[j] by {
            if i < j {
            } else {
            }
        }
    }
    p.unique_seq_to_set();
    let r = vstd::set_lib::set_int_range(0, n);
    assert(p.to_set().subset_of(r)) by {
        assert forall|v: int| p.to_set().contains(v) implies r.contains(v) by {
            let k = choose|k: int| 0 <= k < p.len() && p[k] == v;
            assert(0 <= p[k] < n);
        }
    }
    vstd::set_lib::lemma_len_subset(p.to_set(), r);
    vstd::set_lib::lemma_subset_equality(p.to_set(), r);
    assert(r.contains(x));
    assert(p.to_set().contains(x));
    let k = choose|k: int| 0 <= k < p.len() && p[k] == x;
    assert(0 <= k < n && p[k] == x);
}

proof fn lemma_unique_prefix(keys: Seq<i64>, p1: Seq<int>, p2: Seq<int>, i: int)
    requires
        stable_arrangement(keys, p1),
        stable_arrangement(keys, p2),
        0 <= i <= keys.len(),
    ensures
        forall|k: int| 0 <= k < i ==> p1[k] == p2[k],
    decreases i,
{
    if i > 0 {
        lemma_unique_prefix(keys, p1, p2, i - 1);
        let n = keys.len() as int;
        let x = p1[i - 1];
        let y = p2[i - 1];
        if x != y {
            lemma_arrangement_covers(p2, n, x);
            let j = choose|k: int| 0 <= k < n && p2[k] == x;
            if j < i - 1 {
                assert(p1[j] == p2[j]);
                assert(p1[j] != p1[i - 1]);
            }
            assert(j > i - 1);
            lemma_arrangement_covers(p1, n, y);
            let m = choose|k: int| 0 <= k < n && p1[k] == y;
            if m < i - 1 {
                assert(p1[m] == p2[m]);
                assert(p2[m] != p2[i - 1]);
            }
            assert(m > i - 1);
            assert(keys[y] <= keys[x]);
            assert(keys[x] <= keys[y]);
            assert(y < x);
            assert(x < y);
        }
    }
}

/// A stable sort has only one outcome: two stable arrangements of the same
/// keys are the same.
pub proof fn lemma_stable_arrangement_unique(keys: Seq<i64>, p1: Seq<int>, p2: Seq<int>)
    requires
        stable_arrangement(keys, p1),
        stable_arrangement(keys, p2),
    ensures
        p1 == p2,
{
    lemma_unique_prefix(keys, p1, p2, keys.len() as int);
    assert(p1 =~= p2);
}

/// Sorts `items` by `keys` (one key per item, moved along with it),
/// keeping items with equal keys in their order.
pub fn stable_sort_by_key<T>(items: &mut Vec<T>, keys: &mut Vec<i64>)
    requires
        old(items)@.len() == old(keys)@.len(),
    ensures
        exists|p: Seq<int>| {
            &&& stable_arrangement(old(keys)@, p)
            &&& final(items)@ == arranged(old(items)@, p)
            &&& final(keys)@ == arranged(old(keys)@, p)
        },
{
    let ghost ks0 = keys@;
    let ghost is0 = items@;
    let n = items.len();
    if n == 0 {
        proof {
            let p = Seq::<int>::empty();
            assert(items@ =~= arranged(is0, p));
            assert(keys@ =~= arranged(ks0, p));
            assert(stable_arrangement(ks0, p));
        }
        return;
    }
    let ghost mut p: Seq<int> = seq![0int];
    let mut i: usize = 1;
    while i < n
        invariant
            n == ks0.len(),
            n == is0.len(),
            1 <= i <= n,
            items@.len() == n,
            keys@.len() == n,
            is_arrangement(p, i as int),
            forall|a: int, b: int| 0 <= a < b < i ==> ks0[p[a]] <= ks0[p[b]],
            forall|a: int, b: int| 0 <= a < b < i && ks0[p[a]] == ks0[p[b]] ==> p[a] < p[b],
            forall|a: int| #![trigger items@[a]] 0 <= a < i ==> items@[a] == is0[p[a]],
            forall|a: int| 0 <= a < i ==> keys@[a] == ks0[p[a]],
            forall|a: int| #![trigger items@[a]] i <= a < n ==> items@[a] == is0[a],
            forall|a: int| i <= a < n ==> keys@[a] == ks0[a],
        decreases n - i,
    {
        let ghost items0 = items@;
        let ghost keys0 = keys@;
        let x = items.remove(i);
        let kx = keys.remove(i);
        assert(items@ == items0.remove(i as int));
        assert(keys@ == keys0.remove(i as int));
        let mut j: usize = i;
        while j > 0 && keys[j - 1] > kx
            invariant
                0 <= j <= i,
                i < n,
                keys@.len() == n - 1,
                items@.len() == n - 1,
                items0.len() == n,
                keys0.len() == n,
                items@ == items0.remove(i as int),
                keys@ == keys0.remove(i as int),
                forall|a: int| j <= a < i ==> keys@[a] > kx,
            decreases j,
        {
            j = j - 1;
        }
        proof {
            assert(kx == ks0[i as int]);
            assert(x == is0[i as int]);
            let q = p.insert(j as int, i as int);
            // keys before j are at most kx, keys from j on (within the prefix) exceed it
            assert forall|a: int| 0 <= a < j implies ks0[p[a]] <= kx by {
                assert(keys@[a] == ks0[p[a]]);
                if j > 0 {
                    assert(keys@[j - 1] <= kx);
                    assert(keys@[j - 1] == ks0[p[j - 1]]);
                    if a < j - 1 {
                        assert(ks0[p[a]] <= ks0[p[j - 1]]);
                    }
                }
            }
            assert forall|a: int| j <= a < i implies ks0[p[a]] > kx by {
                assert(keys@[a] == ks0[p[a]]);
            }
            assert(is_arrangement(q, i + 1)) by {
                assert forall|a: int| 0 <= a < i + 1 implies 0 <= #[trigger] q[a] < i + 1 by {
                    if a < j {
                        assert(q[a] == p[a]);
                    } else if a > j {
                        assert(q[a] == p[a - 1]);
                    }
                }
                assert forall|a: int, b: int| 0 <= a < b < i + 1 implies q[a] != q[b] by {
                    if a < j && b < j {
                        assert(q[a] == p[a] && q[b] == p[b]);
                    } else if a < j && b == j {
                        assert(q[a] == p[a]);
                    } else if a < j && b > j {
                        assert(q[a] == p[a] && q[b] == p[b - 1]);
                    } else if a == j {
                        assert(q[b] == p[b - 1]);
                    } else {
                        assert(q[a] == p[a - 1] && q[b] == p[b - 1]);
                    }
                }
            }
            assert forall|a: int, b: int| 0 <= a < b < i + 1 implies ks0[q[a]] <= ks0[q[b]] by {
                if a < j && b < j {
                    assert(q[a] == p[a] && q[b] == p[b]);
                } else if a < j && b == j {
                    assert(q[a] == p[a]);
                } else if a < j && b > j {
                    assert(q[a] == p[a] && q[b] == p[b - 1]);
                } else if a == j {
                    assert(q[b] == p[b - 1]);
                } else {
                    assert(q[a] == p[a - 1] && q[b] == p[b - 1]);
                }
            }
            assert forall|a: int, b: int| 0 <= a < b < i + 1 && ks0[q[a]] == ks0[q[b]] implies q[a] < q[b] by {
                if a < j && b < j {
                    assert(q[a] == p[a] && q[b] == p[b]);
                } else if a < j && b == j {
                    assert(q[a] == p[a]);
                } else if a < j && b > j {
                    assert(q[a] == p[a] && q[b] == p[b - 1]);
                } else if a == j {
                    assert(q[b] == p[b - 1]);
                } else {
                    assert(q[a] == p[a - 1] && q[b] == p[b - 1]);
                }
            }
        }
        let ghost items_before = items@;
        let ghost keys_before = keys@;
        items.insert(j, x);
        keys.insert(j, kx);
        proof {
            let q = p.insert(j as int, i as int);
            assert(items@ == items_before.insert(j as int, x));
            assert(keys@ == keys_before.insert(j as int, kx));
            assert forall|a: int| #![trigger items@[a]] #![trigger keys@[a]] 0 <= a < i + 1 implies items@[a] == is0[q[a]] && keys@[a] == ks0[q[a]] by {
                if a < j {
                    assert(items@[a] == items_before[a]);
                    assert(items_before[a] == items0[a]);
                    assert(keys@[a] == keys_before[a]);
                    assert(keys_before[a] == keys0[a]);
                    assert(q[a] == p[a]);
                } else if a == j {
                    assert(q[a] == i);
                } else {
                    assert(items@[a] == items_before[a - 1]);
                    assert(items_before[a - 1] == items0[a - 1]);
                    assert(keys@[a] == keys_before[a - 1]);
                    assert(keys_before[a - 1] == keys0[a - 1]);
                    assert(q[a] == p[a - 1]);
                }
            }
            assert forall|a: int| #![trigger items@[a]] #![trigger keys@[a]] i + 1 <= a < n implies items@[a] == is0[a] && keys@[a] == ks0[a] by {
                assert(items_before == items0.remove(i as int));
                assert(keys_before == keys0.remove(i as int));
                assert(items0.remove(i as int)[a - 1] == items0[a]);
                assert(keys0[a] == ks0[a]);
                assert(items0[a] == is0[a]);
                assert(keys0.remove(i as int)[a - 1] == keys0[a]);
                assert(items@[a] == items_before[a - 1]);
                assert(items_before[a - 1] == items0[a]);
                assert(keys@[a] == keys_before[a - 1]);
                assert(keys_before[a - 1] == keys0[a]);
            }
            p = q;
        }
        i = i + 1;
    }
    proof {
        assert(items@ =~= arranged(is0, p));
        assert(keys@ =~= arranged(ks0, p));
        assert(stable_arrangement(ks0, p));
    }
}

/// The release-date keys of a list of albums: each album's day number.
pub open spec fn date_keys(items: Seq<ApiAlbum>) -> Seq<i64> {
    items.map_values(|a: ApiAlbum| date_day_number_of(a.info.release_date_original@).unwrap() as i64)
}

/// Whether the albums' release dates can be compared: all are dates, or
/// there is nothing to compare.
pub open spec fn dates_comparable(items: Seq<ApiAlbum>) -> bool {
    items.len() <= 1 || forall|i: int| 0 <= i < items.len() ==> date_day_number_of((#[trigger] items[i]).info.release_date_original@) is Some
}

impl Albums {
    /// Orders the albums by original release date, oldest first, albums of
    /// the same date keeping their order.
    pub fn sort_by_date(&mut self)
        requires
            dates_comparable(old(self).items@),
        ensures
            final(self).limit == old(self).limit,
            final(self).offset == old(self).offset,
            final(self).total == old(self).total,
            exists|p: Seq<int>| {
                &&& stable_arrangement(date_keys(old(self).items@), p)
                &&& final(self).items@ == arranged(old(self).items@, p)
            },
    {
        let ghost start = self.items@;
        let mut keys: Vec<i64> = Vec::new();
        let mut i: usize = 0;
        while i < self.items.len()
            invariant
                self.items@ == start,
                i <= start.len(),
                keys@.len() == i,
                start.len() > 1 ==> keys@ =~= date_keys(start).take(i as int),
                dates_comparable(start),
            decreases start.len() - i,
        {
            let key = match date_day_number(self.items[i].info.release_date_original.as_str()) {
                Some(d) => d as i64,
                None => 0,
            };
            proof {
                if start.len() > 1 {
                    assert(date_day_number_of(start[i as int].info.release_date_original@) is Some);
                }
            }
            keys.push(key);
            proof {
                if start.len() > 1 {
                    assert(keys@ =~= date_keys(start).take(i + 1));
                } else {
                    assert(keys@.len() == i + 1);
                }
            }
            i = i + 1;
        }
        proof {
            if start.len() > 1 {
                assert(date_keys(start).take(i as int) =~= date_keys(start));
            }
        }
        if self.items.len() <= 1 {
            proof {
                let p: Seq<int> = Seq::new(start.len(), |k: int| k);
                assert(stable_arrangement(date_keys(start), p));
                assert(self.items@ =~= arranged(start, p));
            }
            return;
        }
        stable_sort_by_key(&mut self.items, &mut keys);
    }
}

impl Albums {
    /// Orders the albums by release date as `sort_by_date` does when every
    /// date can be compared, and says so; otherwise leaves them as they are.
    pub fn try_sort_by_date(&mut self) -> (r: bool)
        ensures
            r == dates_comparable(old(self).items@),
            r ==> exists|p: Seq<int>| {
                &&& stable_arrangement(date_keys(old(self).items@), p)
                &&& final(self).items@ == arranged(old(self).items@, p)
            },
            !r ==> final(self).items@ == old(self).items@,
            final(self).limit == old(self).limit,
            final(self).offset == old(self).offset,
            final(self).total == old(self).total,
    {
        if self.items.len() > 1 {
            let mut i: usize = 0;
            while i < self.items.len()
                invariant
                    i <= self.items@.len(),
                    self.items@.len() > 1,
                    forall|k: int| 0 <= k < i ==> date_day_number_of((#[trigger] self.items@[k]).info.release_date_original@) is Some,
                decreases self.items@.len() - i,
            {
                if date_day_number(self.items[i].info.release_date_original.as_str()).is_none() {
                    proof {
                        assert(!(date_day_number_of(self.items@[i as int].info.release_date_original@) is Some));
                        assert(self.items@.len() > 1);
                    }
                    return false;
                }
                i = i + 1;
            }
        }
        self.sort_by_date();
        true
    }
}

/// The release years of a list of albums.
pub open spec fn year_keys(items: Seq<Album>) -> Seq<i64> {
    items.map_values(|a: Album| a.release_year as i64)
}

/// Orders albums by release year, albums of the same year keeping their order.
pub fn sort_albums_by_year(albums: &mut Vec<Album>)
    ensures
        exists|p: Seq<int>| {
            &&& stable_arrangement(year_keys(old(albums)@), p)
            &&& final(albums)@ == arranged(old(albums)@, p)
        },
{
    let ghost start = albums@;
    let mut keys: Vec<i64> = Vec::new();
    let mut i: usize = 0;
    while i < albums.len()
        invariant
            albums@ == start,
            i <= start.len(),
            keys@ =~= year_keys(start).take(i as int),
        decreases start.len() - i,
    {
        keys.push(albums[i].release_year as i64);
        proof {
            assert(keys@ =~= year_keys(start).take(i + 1));
        }
        i = i + 1;
    }
    proof {
        assert(year_keys(start).take(i as int) =~= year_keys(start));
    }
    stable_sort_by_key(albums, &mut keys);
}


/// Whether text `a` comes before text `b`, character by character as
/// strings compare (UTF-8 keeps the order of code points), a proper prefix
/// first.
pub open spec fn text_lt(a: Seq<char>, b: Seq<char>) -> bool
    decreases a.len(),
{
    if a.len() == 0 {
        b.len() > 0
    } else if b.len() == 0 {
        false
    } else if a[0] != b[0] {
        (a[0] as int) < (b[0] as int)
    } else {
        text_lt(a.drop_first(), b.drop_first())
    }
}

/// No text comes before itself, and of two texts at most one comes first.
pub proof fn lemma_text_lt_asymmetric(a: Seq<char>, b: Seq<char>)
    ensures
        !(text_lt(a, b) && text_lt(b, a)),
    decreases a.len(),
{
    if a.len() > 0 && b.len() > 0 && a[0] == b[0] {
        lemma_text_lt_asymmetric(a.drop_first(), b.drop_first());
    }
}

/// Of two different texts, one comes before the other.
pub proof fn lemma_text_lt_total(a: Seq<char>, b: Seq<char>)
    ensures
        a != b ==> text_lt(a, b) || text_lt(b, a),
    decreases a.len(),
{
    if a.len() > 0 && b.len() > 0 && a[0] == b[0] {
        lemma_text_lt_total(a.drop_first(), b.drop_first());
        if a.drop_first() == b.drop_first() {
            assert(a =~= seq![a[0]] + a.drop_first());
            assert(b =~= seq![b[0]] + b.drop_first());
        }
    } else if a.len() == 0 && b.len() == 0 {
        assert(a =~= b);
    } else if a.len() > 0 && b.len() > 0 {
        let x = a[0];
        let y = b[0];
        assert(x != y);
        assert((x as int) != (y as int));
    }
}

/// The order of texts is transitive.
pub proof fn lemma_text_lt_transitive(a: Seq<char>, b: Seq<char>, c: Seq<char>)
    requires
        text_lt(a, b),
        text_lt(b, c),
    ensures
        text_lt(a, c),
    decreases a.len(),
{
    if a.len() > 0 && b.len() > 0 && c.len() > 0 && a[0] == b[0] && b[0] == c[0] {
        lemma_text_lt_transitive(a.drop_first(), b.drop_first(), c.drop_first());
    }
}

proof fn lemma_text_lt_skip(a: Seq<char>, b: Seq<char>, i: int)
    requires
        0 <= i < a.len(),
        i < b.len(),
        a[i] == b[i],
    ensures
        text_lt(a.skip(i), b.skip(i)) == text_lt(a.skip(i + 1), b.skip(i + 1)),
{
    assert(a.skip(i).drop_first() =~= a.skip(i + 1));
    assert(b.skip(i).drop_first() =~= b.skip(i + 1));
}

/// Whether text `a` comes before text `b`.
pub fn text_less(a: &str, b: &str) -> (r: bool)
    ensures
        r == text_lt(a@, b@),
{
    let n = a.unicode_len();
    let m = b.unicode_len();
    let mut i: usize = 0;
    assert(a@.skip(0) =~= a@);
    assert(b@.skip(0) =~= b@);
    while i < n && i < m
        invariant
            n == a@.len(),
            m == b@.len(),
            i <= n,
            i <= m,
            text_lt(a@, b@) == text_lt(a@.skip(i as int), b@.skip(i as int)),
        decreases n - i,
    {
        let x = a.get_char(i);
        let y = b.get_char(i);
        if x != y {
            assert(a@.skip(i as int)[0] == x);
            assert(b@.skip(i as int)[0] == y);
            let less = (x as u32) < (y as u32);
            assert(x as u32 == x as int && y as u32 == y as int);
            return less;
        }
        proof {
            lemma_text_lt_skip(a@, b@, i as int);
        }
        i = i + 1;
    }
    i < m
}

/// How many of `keys` come before `x`.
pub open spec fn count_below(keys: Seq<Seq<char>>, x: Seq<char>) -> nat
    decreases keys.len(),
{
    if keys.len() == 0 {
        0
    } else {
        count_below(keys.drop_last(), x) + if text_lt(keys.last(), x) {
            1nat
        } else {
            0nat
        }
    }
}

proof fn lemma_count_below_monotone(keys: Seq<Seq<char>>, x: Seq<char>, y: Seq<char>)
    requires
        text_lt(x, y),
    ensures
        count_below(keys, x) <= count_below(keys, y),
        keys.contains(x) ==> count_below(keys, x) < count_below(keys, y),
    decreases keys.len(),
{
    if keys.len() > 0 {
        let rest = keys.drop_last();
        lemma_count_below_monotone(rest, x, y);
        if text_lt(keys.last(), x) {
            lemma_text_lt_transitive(keys.last(), x, y);
        }
        if keys.contains(x) {
            let k = choose|k: int| 0 <= k < keys.len() && keys[k] == x;
            if k < keys.len() - 1 {
                assert(rest[k] == x);
                assert(rest.contains(x));
            } else {
                assert(keys.last() == x);
                lemma_text_lt_asymmetric(x, x);
            }
        }
    }
}

/// Each text of `keys` numbered by how many of `keys` come before it:
/// numbers that order the texts as the texts order themselves.
pub open spec fn text_ranks(keys: Seq<Seq<char>>) -> Seq<i64> {
    keys.map_values(|x: Seq<char>| count_below(keys, x) as i64)
}

/// Whether taking `keys` in the order `p` gives a stable sort of texts: no
/// text comes before one taken earlier, and equal texts keep their first
/// order.
pub open spec fn text_stable_arrangement(keys: Seq<Seq<char>>, p: Seq<int>) -> bool {
    &&& is_arrangement(p, keys.len() as int)
    &&& forall|i: int, j: int| 0 <= i < j < p.len() ==> !text_lt(keys[p[j]], keys[p[i]])
    &&& forall|i: int, j: int| 0 <= i < j < p.len() && keys[p[i]] == keys[p[j]] ==> p[i] < p[j]
}

proof fn lemma_ranks_order_texts(keys: Seq<Seq<char>>, a: int, b: int)
    requires
        0 <= a < keys.len(),
        0 <= b < keys.len(),
        keys.len() <= i64::MAX,
    ensures
        text_lt(keys[a], keys[b]) ==> text_ranks(keys)[a] < text_ranks(keys)[b],
        keys[a] == keys[b] ==> text_ranks(keys)[a] == text_ranks(keys)[b],
        keys[a] != keys[b] ==> text_ranks(keys)[a] != text_ranks(keys)[b],
{
    lemma_count_below_bounded(keys, keys[a]);
    lemma_count_below_bounded(keys, keys[b]);
    assert(keys.contains(keys[a]));
    assert(keys.contains(keys[b]));
    if text_lt(keys[a], keys[b]) {
        lemma_count_below_monotone(keys, keys[a], keys[b]);
    }
    if keys[a] != keys[b] {
        lemma_text_lt_total(keys[a], keys[b]);
        if text_lt(keys[b], keys[a]) {
            lemma_count_below_monotone(keys, keys[b], keys[a]);
        } else {
            lemma_count_below_monotone(keys, keys[a], keys[b]);
        }
    }
}

proof fn lemma_count_below_bounded(keys: Seq<Seq<char>>, x: Seq<char>)
    ensures
        count_below(keys, x) <= keys.len(),
    decreases keys.len(),
{
    if keys.len() > 0 {
        lemma_count_below_bounded(keys.drop_last(), x);
    }
}

/// A stable sort by the texts' ranks is a stable sort by the texts.
proof fn lemma_rank_sort_sorts_texts(keys: Seq<Seq<char>>, p: Seq<int>)
    requires
        stable_arrangement(text_ranks(keys), p),
        keys.len() <= i64::MAX,
    ensures
        text_stable_arrangement(keys, p),
{
    let ranks = text_ranks(keys);
    assert forall|i: int, j: int| 0 <= i < j < p.len() implies !text_lt(keys[p[j]], keys[p[i]]) by {
        lemma_ranks_order_texts(keys, p[j], p[i]);
        assert(ranks[p[i]] <= ranks[p[j]]);
    }
    assert forall|i: int, j: int| 0 <= i < j < p.len() && keys[p[i]] == keys[p[j]] implies p[i] < p[j] by {
        lemma_ranks_order_texts(keys, p[i], p[j]);
    }
}

/// The texts of a list of strings.
pub open spec fn texts(v: Seq<String>) -> Seq<Seq<char>> {
    v.map_values(|s: String| s@)
}

/// Sorts `items` by the texts `keys` (one per item), keeping items with
/// equal texts in their order.
pub fn stable_sort_by_text<T>(items: &mut Vec<T>, keys: &Vec<String>)
    requires
        old(items)@.len() == keys@.len(),
        keys@.len() <= i64::MAX,
    ensures
        exists|p: Seq<int>| {
            &&& text_stable_arrangement(texts(keys@), p)
            &&& final(items)@ == arranged(old(items)@, p)
        },
{
    let ghost ks = texts(keys@);
    let n = keys.len();
    let mut ranks: Vec<i64> = Vec::new();
    let mut i: usize = 0;
    while i < n
        invariant
            n == keys@.len(),
            ks == texts(keys@),
            n <= i64::MAX,
            i <= n,
            ranks@ == text_ranks(ks).take(i as int),
        decreases n - i,
    {
        let mut count: i64 = 0;
        let mut j: usize = 0;
        assert(ks.take(0) =~= Seq::<Seq<char>>::empty());
        while j < n
            invariant
                n == keys@.len(),
                ks == texts(keys@),
                n <= i64::MAX,
                i < n,
                j <= n,
                count == count_below(ks.take(j as int), ks[i as int]),
                count <= j,
            decreases n - j,
        {
            proof {
                assert(ks.take(j + 1).drop_last() =~= ks.take(j as int));
            }
            if text_less(keys[j].as_str(), keys[i].as_str()) {
                count = count + 1;
            }
            j = j + 1;
        }
        assert(ks.take(n as int) =~= ks);
        ranks.push(count);
        assert(ranks@ =~= text_ranks(ks).take(i + 1));
        i = i + 1;
    }
    assert(text_ranks(ks).take(n as int) =~= text_ranks(ks));
    let ghost r0 = ranks@;
    stable_sort_by_key(items, &mut ranks);
    proof {
        let p = choose|p: Seq<int>| {
            &&& stable_arrangement(r0, p)
            &&& items@ == arranged(old(items)@, p)
            &&& ranks@ == arranged(r0, p)
        };
        lemma_rank_sort_sorts_texts(ks, p);
    }
}


proof fn lemma_unique_prefix_text(keys: Seq<Seq<char>>, p1: Seq<int>, p2: Seq<int>, i: int)
    requires
        text_stable_arrangement(keys, p1),
        text_stable_arrangement(keys, p2),
        0 <= i <= keys.len(),
    ensures
        forall|k: int| 0 <= k < i ==> p1[k] == p2[k],
    decreases i,
{
    if i > 0 {
        lemma_unique_prefix_text(keys, p1, p2, i - 1);
        let n = keys.len() as int;
        let x = p1[i - 1];
        let y = p2[i - 1];
        if x != y {
            lemma_arrangement_covers(p2, n, x);
            let j = choose|k: int| 0 <= k < n && p2[k] == x;
            if j < i - 1 {
                assert(p1[j] == p2[j]);
                assert(p1[j] != p1[i - 1]);
            }
            assert(j > i - 1);
            lemma_arrangement_covers(p1, n, y);
            let m = choose|k: int| 0 <= k < n && p1[k] == y;
            if m < i - 1 {
                assert(p1[m] == p2[m]);
                assert(p2[m] != p2[i - 1]);
            }
            assert(m > i - 1);
            assert(!text_lt(keys[x], keys[y]));
            assert(!text_lt(keys[y], keys[x]));
            lemma_text_lt_total(keys[x], keys[y]);
            assert(keys[x] == keys[y]);
            assert(y < x);
            assert(x < y);
        }
    }
}

/// A stable sort by text has only one outcome: two stable arrangements of
/// the same texts are the same.
pub proof fn lemma_text_stable_arrangement_unique(keys: Seq<Seq<char>>, p1: Seq<int>, p2: Seq<int>)
    requires
        text_stable_arrangement(keys, p1),
        text_stable_arrangement(keys, p2),
    ensures
        p1 == p2,
{
    lemma_unique_prefix_text(keys, p1, p2, keys.len() as int);
    assert(p1 =~= p2);
}


/// The release dates of a list of albums, as text.
pub open spec fn release_texts(items: Seq<ApiAlbum>) -> Seq<Seq<char>> {
    items.map_values(|a: ApiAlbum| a.info.release_date_original@)
}

/// Whether every album of a list can be kept as the player keeps albums:
/// its dates give years and its tracks can be numbered.
pub open spec fn albums_convertible(items: Seq<ApiAlbum>) -> bool {
    forall|i: int| 0 <= i < items.len() ==> {
        &&& album_dated(#[trigger] items[i])
        &&& items[i].tracks matches Some(ts) ==> ts@.len() <= u32::MAX
    }
}

/// The albums of an artist's page that can be streamed, in `order`, as the
/// player keeps them.
pub open spec fn offered_albums(items: Seq<ApiAlbum>, order: Seq<int>) -> Seq<AlbumView> {
    arranged(items, order).filter(|a: ApiAlbum| a.info.streamable).map_values(|a: ApiAlbum| album_of(a))
}

/// The player's view of each album.
pub open spec fn album_views(v: Seq<Album>) -> Seq<AlbumView> {
    v.map_values(|a: Album| a@)
}

/// The albums an artist's page offers to play: ordered by release date as
/// text, earliest first and albums of the same date in their order, and
/// only those that can be streamed.
pub fn artist_album_choices(albums: &Vec<ApiAlbum>) -> (r: Vec<Album>)
    requires
        albums@.len() <= i64::MAX,
        albums_convertible(albums@),
    ensures
        exists|p: Seq<int>| {
            &&& text_stable_arrangement(release_texts(albums@), p)
            &&& album_views(r@) == offered_albums(albums@, p)
        },
{
    let n = albums.len();
    let mut order: Vec<usize> = Vec::new();
    let mut keys: Vec<String> = Vec::new();
    let mut i: usize = 0;
    while i < n
        invariant
            n == albums@.len(),
            i <= n,
            order@.len() == i,
            forall|k: int| 0 <= k < i ==> order@[k] == k,
            texts(keys@) == release_texts(albums@).take(i as int),
        decreases n - i,
    {
        order.push(i);
        let date = albums[i].info.release_date_original.clone();
        assert(date@ == albums@[i as int].info.release_date_original@);
        let ghost before = keys@;
        keys.push(date);
        assert(keys@ == before.push(date));
        assert(texts(keys@) =~= texts(before).push(date@));
        assert(release_texts(albums@).take(i + 1) =~= release_texts(albums@).take(i as int).push(date@));
        i = i + 1;
    }
    assert(release_texts(albums@).take(n as int) =~= release_texts(albums@));
    let ghost order0 = order@;
    stable_sort_by_text(&mut order, &keys);
    let ghost p = choose|p: Seq<int>| {
        &&& text_stable_arrangement(texts(keys@), p)
        &&& order@ == arranged(order0, p)
    };
    assert(text_stable_arrangement(release_texts(albums@), p));
    let ghost sorted = arranged(albums@, p);
    assert forall|k: int| 0 <= k < n implies #[trigger] order@[k] == p[k] && 0 <= p[k] < n by {
        assert(order@[k] == order0[p[k]]);
    }
    let ghost keep = |a: ApiAlbum| a.info.streamable;
    let mut out: Vec<Album> = Vec::new();
    let mut k: usize = 0;
    assert(sorted.take(0) =~= Seq::<ApiAlbum>::empty());
    assert(sorted.take(0).filter(keep) =~= Seq::<ApiAlbum>::empty()) by {
        reveal(Seq::filter);
    }
    while k < n
        invariant
            n == albums@.len(),
            albums_convertible(albums@),
            k <= n,
            order@.len() == n,
            sorted == arranged(albums@, p),
            sorted.len() == n,
            forall|m: int| 0 <= m < n ==> #[trigger] order@[m] == p[m] && 0 <= p[m] < n,
            keep == (|a: ApiAlbum| a.info.streamable),
            album_views(out@) == sorted.take(k as int).filter(keep).map_values(|a: ApiAlbum| album_of(a)),
        decreases n - k,
    {
        let idx = order[k];
        proof {
            assert(sorted[k as int] == albums@[idx as int]);
            assert(sorted.take(k + 1) =~= sorted.take(k as int).push(sorted[k as int]));
            crate::queue::lemma_filter_push(sorted.take(k as int), sorted[k as int], keep);
        }
        if albums[idx].info.streamable {
            let a = album_from_api(&albums[idx]);
            let ghost before = out@;
            out.push(a);
            assert(out@ == before.push(a));
            assert(album_views(out@) =~= album_views(before).push(album_of(sorted[k as int])));
            assert(sorted.take(k + 1).filter(keep) == sorted.take(k as int).filter(keep).push(sorted[k as int]));
            assert(album_views(out@) =~= sorted.take(k + 1).filter(keep).map_values(|a: ApiAlbum| album_of(a)));
        } else {
            assert(album_views(out@) =~= sorted.take(k + 1).filter(keep).map_values(|a: ApiAlbum| album_of(a)));
        }
        k = k + 1;
    }
    assert(sorted.take(n as int) =~= sorted);
    assert(album_views(out@) == offered_albums(albums@, p));
    assert(text_stable_arrangement(release_texts(albums@), p));
    out
}

/// The albums an artist's page offers to play, or `None` when one of the
/// albums cannot be kept as the player keeps albums (a release date that
/// gives no year, or more tracks than places to number them), or there
/// are more albums than a sort key can count.
pub fn try_artist_album_choices(albums: &Vec<ApiAlbum>) -> (r: Option<Vec<Album>>)
    ensures
        albums@.len() <= i64::MAX && albums_convertible(albums@) ==> (r matches Some(v) && exists|p: Seq<int>| {
            &&& text_stable_arrangement(release_texts(albums@), p)
            &&& album_views(v@) == offered_albums(albums@, p)
        }),
        !(albums@.len() <= i64::MAX && albums_convertible(albums@)) ==> r is None,
{
    if albums.len() as u64 > 0x7fff_ffff_ffff_ffff {
        return None;
    }
    let mut i: usize = 0;
    while i < albums.len()
        invariant
            i <= albums@.len(),
            forall|k: int| 0 <= k < i ==> {
                &&& album_dated(#[trigger] albums@[k])
                &&& albums@[k].tracks matches Some(ts) ==> ts@.len() <= u32::MAX
            },
        decreases albums@.len() - i,
    {
        if checked_album_from_api(&albums[i]).is_none() {
            return None;
        }
        i = i + 1;
    }
    Some(artist_album_choices(albums))
}

} // verus!
