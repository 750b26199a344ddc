//! Paging through records: which positions of a table a page holds.

use vstd::prelude::*;

verus! {

/// The positions before `upto` of the first `limit` marked entries, in
/// ascending order.
pub open spec fn first_hits(mask: Seq<bool>, upto: int, limit: int) -> Seq<int>
    decreases upto,
{
    if upto <= 0 {
        Seq::empty()
    } else {
        let before = first_hits(mask, upto - 1, limit);
        if mask[upto - 1] && before.len() < limit {
            before.push(upto - 1)
        } else {
            before
        }
    }
}

/// The positions from `from` on of the last `limit` marked entries, in
/// descending order.
pub open spec fn last_hits(mask: Seq<bool>, from: int, limit: int) -> Seq<int>
    decreases mask.len() - from,
{
    if from >= mask.len() {
        Seq::empty()
    } else {
        let after = last_hits(mask, from + 1, limit);
        if mask[from] && after.len() < limit {
            after.push(from)
        } else {
            after
        }
    }
}

/// The positions that a page of at most `limit` marked entries holds: the
/// first ones in ascending order, or the last ones in descending order.
pub open spec fn hits(mask: Seq<bool>, limit: int, newest_first: bool) -> Seq<int> {
    if newest_first {
        last_hits(mask, 0, limit)
    } else {
        first_hits(mask, mask.len() as int, limit)
    }
}

/// A page is no longer than its limit and holds marked positions only, in
/// strictly ascending order.
pub proof fn lemma_first_hits(mask: Seq<bool>, upto: int, limit: int)
    requires
        0 <= upto <= mask.len(),
    ensures
        first_hits(mask, upto, limit).len() <= upto,
        limit >= 0 ==> first_hits(mask, upto, limit).len() <= limit,
        limit <= 0 ==> first_hits(mask, upto, limit).len() == 0,
        forall|k: int|
            0 <= k < first_hits(mask, upto, limit).len() ==> 0 <= (#[trigger] first_hits(
                mask,
                upto,
                limit,
            )[k]) < upto && mask[first_hits(mask, upto, limit)[k]],
        forall|k: int, l: int|
            0 <= k < l < first_hits(mask, upto, limit).len() ==> (#[trigger] first_hits(
                mask,
                upto,
                limit,
            )[k]) < (#[trigger] first_hits(mask, upto, limit)[l]),
    decreases upto,
{
    if upto > 0 {
        lemma_first_hits(mask, upto - 1, limit);
    }
}

/// A page read from the end is no longer than its limit and holds marked
/// positions only, in strictly descending order.
pub proof fn lemma_last_hits(mask: Seq<bool>, from: int, limit: int)
    requires
        0 <= from <= mask.len(),
    ensures
        last_hits(mask, from, limit).len() <= mask.len() - from,
        limit >= 0 ==> last_hits(mask, from, limit).len() <= limit,
        limit <= 0 ==> last_hits(mask, from, limit).len() == 0,
        forall|k: int|
            0 <= k < last_hits(mask, from, limit).len() ==> from <= (#[trigger] last_hits(
                mask,
                from,
                limit,
            )[k]) < mask.len() && mask[last_hits(mask, from, limit)[k]],
        forall|k: int, l: int|
            0 <= k < l < last_hits(mask, from, limit).len() ==> (#[trigger] last_hits(
                mask,
                from,
                limit,
            )[k]) > (#[trigger] last_hits(mask, from, limit)[l]),
    decreases mask.len() - from,
{
    if from < mask.len() {
        lemma_last_hits(mask, from + 1, limit);
    }
}

/// The positions of a page, as machine integers.
pub open spec fn as_positions(v: Seq<usize>) -> Seq<int> {
    Seq::new(v.len(), |k: int| v[k] as int)
}

/// Computes the positions that a page holds.
pub fn select(mask: &Vec<bool>, limit: i64, newest_first: bool) -> (r: Vec<usize>)
    ensures
        as_positions(r@) == hits(mask@, limit as int, newest_first),
        forall|k: int| 0 <= k < r.len() ==> (#[trigger] r@[k]) < mask.len(),
{
    let mut out: Vec<usize> = Vec::new();
    if limit <= 0 {
        proof {
            lemma_first_hits(mask@, mask.len() as int, limit as int);
            lemma_last_hits(mask@, 0, limit as int);
            assert(as_positions(out@) =~= hits(mask@, limit as int, newest_first));
        }
        return out;
    }
    if newest_first {
        let mut i: usize = mask.len();
        proof {
            assert(as_positions(out@) =~= last_hits(mask@, i as int, limit as int));
        }
        while i > 0
            invariant
                i <= mask.len(),
                limit > 0,
                as_positions(out@) == last_hits(mask@, i as int, limit as int),
                forall|k: int| 0 <= k < out.len() ==> (#[trigger] out@[k]) < mask.len(),
            decreases i,
        {
            proof {
                lemma_last_hits(mask@, i as int, limit as int);
            }
            i -= 1;
            if mask[i] && (out.len() as u64) < (limit as u64) {
                let ghost before = out@;
                out.push(i);
                proof {
                    assert(as_positions(out@) =~= as_positions(before).push(i as int));
                }
            }
        }
    } else {
        let mut i: usize = 0;
        proof {
            assert(as_positions(out@) =~= first_hits(mask@, 0, limit as int));
        }
        while i < mask.len()
            invariant
                i <= mask.len(),
                limit > 0,
                as_positions(out@) == first_hits(mask@, i as int, limit as int),
                forall|k: int| 0 <= k < out.len() ==> (#[trigger] out@[k]) < mask.len(),
            decreases mask.len() - i,
        {
            proof {
                lemma_first_hits(mask@, i as int, limit as int);
            }
            if mask[i] && (out.len() as u64) < (limit as u64) {
                let ghost before = out@;
                out.push(i);
                proof {
                    assert(as_positions(out@) =~= as_positions(before).push(i as int));
                }
            }
            i += 1;
        }
    }
    out
}

/// Where a page starts and how long it is.
#[derive(Clone, Copy, Debug, PartialEq, Eq, Structural)]
pub enum Page {
    /// The oldest records.
    Limit(i64),
    /// The records with a greater identifier, oldest first.
    IdGt(u128, i64),
    /// The records with a lesser identifier, newest first.
    IdLt(u128, i64),
}

impl Page {
    /// The most records that the page holds.
    pub open spec fn limit(self) -> int {
        match self {
            Page::Limit(n) => n as int,
            Page::IdGt(_, n) => n as int,
            Page::IdLt(_, n) => n as int,
        }
    }

    /// Whether the page is read from the newest record down.
    pub open spec fn newest_first(self) -> bool {
        self is IdLt
    }

    /// Whether a record with identifier `id` lies on the page's side of its cursor.
    pub open spec fn admits(self, id: u128) -> bool {
        match self {
            Page::Limit(_) => true,
            Page::IdGt(gt, _) => id > gt,
            Page::IdLt(lt, _) => id < lt,
        }
    }

    /// Computes [`Page::limit`].
    pub fn get_limit(&self) -> (r: i64)
        ensures
            r == self.limit(),
    {
        match self {
            Page::Limit(n) => *n,
            Page::IdGt(_, n) => *n,
            Page::IdLt(_, n) => *n,
        }
    }

    /// Computes [`Page::newest_first`].
    pub fn is_newest_first(&self) -> (r: bool)
        ensures
            r == self.newest_first(),
    {
        match self {
            Page::IdLt(_, _) => true,
            _ => false,
        }
    }

    /// Computes [`Page::admits`].
    pub fn is_admitted(&self, id: u128) -> (r: bool)
        ensures
            r == self.admits(id),
    {
        match self {
            Page::Limit(_) => true,
            Page::IdGt(gt, _) => id > *gt,
            Page::IdLt(lt, _) => id < *lt,
        }
    }
}

/// Whether an optional list of identifiers keeps `id`: no list keeps everything.
pub open spec fn keeps_id(ids: Option<Vec<u128>>, id: u128) -> bool {
    match ids {
        None => true,
        Some(v) => v@.contains(id),
    }
}

/// Whether an optional list of identifiers keeps an optional identifier: no
/// list keeps everything, a list keeps only what it names.
pub open spec fn keeps_opt_id(ids: Option<Vec<u128>>, id: Option<u128>) -> bool {
    match ids {
        None => true,
        Some(v) => id is Some && v@.contains(id->0),
    }
}

/// Whether an optional list of texts keeps `text`: no list keeps everything.
pub open spec fn keeps_text(texts: Option<Vec<String>>, text: Seq<char>) -> bool {
    match texts {
        None => true,
        Some(v) => crate::text::has_text(v@, text),
    }
}

/// Computes [`keeps_id`].
pub fn is_id_kept(ids: &Option<Vec<u128>>, id: u128) -> (r: bool)
    ensures
        r == keeps_id(*ids, id),
{
    match ids {
        None => true,
        Some(v) => crate::text::contains_id(v, id),
    }
}

/// Computes [`keeps_opt_id`].
pub fn is_opt_id_kept(ids: &Option<Vec<u128>>, id: Option<u128>) -> (r: bool)
    ensures
        r == keeps_opt_id(*ids, id),
{
    match ids {
        None => true,
        Some(v) => match id {
            Some(x) => crate::text::contains_id(v, x),
            None => false,
        },
    }
}

/// Computes [`keeps_text`].
pub fn is_text_kept(texts: &Option<Vec<String>>, text: &str) -> (r: bool)
    ensures
        r == keeps_text(*texts, text@),
{
    match texts {
        None => true,
        Some(v) => crate::text::contains_text(v, text),
    }
}

/// Whether a tenant mask admits a record of a service: no mask admits
/// everything, a mask admits the records of its service alone.
pub open spec fn mask_admits(mask: Option<u128>, service_id: Option<u128>) -> bool {
    match mask {
        None => true,
        Some(m) => service_id == Some(m),
    }
}

/// Computes [`mask_admits`].
pub fn is_mask_admitted(mask: Option<u128>, service_id: Option<u128>) -> (r: bool)
    ensures
        r == mask_admits(mask, service_id),
{
    match mask {
        None => true,
        Some(m) => match service_id {
            Some(s) => s == m,
            None => false,
        },
    }
}

} // verus!
