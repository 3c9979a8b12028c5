//! Tables of rows: what it means to update, select and order the rows of a table, and the loops
//! that do so.
use vstd::prelude::*;

verus! {

/// A value that is known by its mathematical model: it can be copied without changing the model,
/// and two values can be compared by their models.
pub trait Row: DeepView + Sized {
    fn dup(&self) -> (r: Self)
        ensures
            r.deep_view() == self.deep_view(),
    ;

    fn same(&self, other: &Self) -> (r: bool)
        ensures
            r == (self.deep_view() == other.deep_view()),
    ;
}

impl Row for String {
    fn dup(&self) -> (r: Self) {
        self.clone()
    }

    fn same(&self, other: &Self) -> (r: bool) {
        *self == *other
    }
}

impl Row for bool {
    fn dup(&self) -> (r: Self) {
        *self
    }

    fn same(&self, other: &Self) -> (r: bool) {
        *self == *other
    }
}

impl Row for i64 {
    fn dup(&self) -> (r: Self) {
        *self
    }

    fn same(&self, other: &Self) -> (r: bool) {
        *self == *other
    }
}

impl Row for u64 {
    fn dup(&self) -> (r: Self) {
        *self
    }

    fn same(&self, other: &Self) -> (r: bool) {
        *self == *other
    }
}

impl Row for u128 {
    fn dup(&self) -> (r: Self) {
        *self
    }

    fn same(&self, other: &Self) -> (r: bool) {
        *self == *other
    }
}

impl Row for u32 {
    fn dup(&self) -> (r: Self) {
        *self
    }

    fn same(&self, other: &Self) -> (r: bool) {
        *self == *other
    }
}

impl Row for usize {
    fn dup(&self) -> (r: Self) {
        *self
    }

    fn same(&self, other: &Self) -> (r: bool) {
        *self == *other
    }
}

impl<T: Row> Row for Option<T> {
    fn dup(&self) -> (r: Self) {
        match self {
            Some(value) => Some(value.dup()),
            None => None,
        }
    }

    fn same(&self, other: &Self) -> (r: bool) {
        match (self, other) {
            (Some(a), Some(b)) => a.same(b),
            (None, None) => true,
            _ => false,
        }
    }
}

impl<T: Row> Row for Vec<T> {
    fn dup(&self) -> (r: Self) {
        let mut r: Vec<T> = Vec::new();
        let mut i: usize = 0;
        while i < self.len()
            invariant
                i <= self.len(),
                r.deep_view() == self.deep_view().take(i as int),
            decreases self.len() - i,
        {
            let row = self[i].dup();
            let ghost before = r;
            r.push(row);
            assert(r.deep_view() =~= before.deep_view().push(row.deep_view()));
            assert(self.deep_view().take(i + 1) =~= self.deep_view().take(i as int).push(
                self@[i as int].deep_view(),
            ));
            i = i + 1;
        }
        assert(self.deep_view().take(i as int) =~= self.deep_view());
        r
    }

    fn same(&self, other: &Self) -> (r: bool) {
        if self.len() != other.len() {
            assert(self.deep_view().len() != other.deep_view().len());
            return false;
        }
        let mut i: usize = 0;
        while i < self.len()
            invariant
                i <= self.len(),
                self.len() == other.len(),
                forall|j: int| 0 <= j < i ==> self.deep_view()[j] == other.deep_view()[j],
            decreases self.len() - i,
        {
            if !self[i].same(&other[i]) {
                assert(self.deep_view()[i as int] != other.deep_view()[i as int]);
                return false;
            }
            i = i + 1;
        }
        assert(self.deep_view() =~= other.deep_view());
        true
    }
}

/// Whether some row meets a condition.
pub open spec fn any<M>(rows: Seq<M>, p: spec_fn(M) -> bool) -> bool {
    exists|i: int| 0 <= i < rows.len() && p(#[trigger] rows[i])
}

/// The first row that meets a condition.
pub open spec fn first<M>(rows: Seq<M>, p: spec_fn(M) -> bool) -> Option<M>
    decreases rows.len(),
{
    if rows.len() == 0 {
        None
    } else if p(rows[0]) {
        Some(rows[0])
    } else {
        first(rows.drop_first(), p)
    }
}

/// The rows that meet a condition, in table order.
pub open spec fn select<M>(rows: Seq<M>, p: spec_fn(M) -> bool) -> Seq<M>
    decreases rows.len(),
{
    if rows.len() == 0 {
        Seq::empty()
    } else if p(rows.last()) {
        select(rows.drop_last(), p).push(rows.last())
    } else {
        select(rows.drop_last(), p)
    }
}

/// How many rows meet a condition.
pub open spec fn count<M>(rows: Seq<M>, p: spec_fn(M) -> bool) -> nat {
    select(rows, p).len()
}

/// A row placed into an ordered sequence, behind every row that does not come after it.
pub open spec fn place<M>(rows: Seq<M>, row: M, before: spec_fn(M, M) -> bool) -> Seq<M>
    decreases rows.len(),
{
    if rows.len() == 0 || !before(row, rows.last()) {
        rows.push(row)
    } else {
        place(rows.drop_last(), row, before).push(rows.last())
    }
}

/// The rows in order; rows that neither come before the other keep their table order.
pub open spec fn ordered<M>(rows: Seq<M>, before: spec_fn(M, M) -> bool) -> Seq<M>
    decreases rows.len(),
{
    if rows.len() == 0 {
        Seq::empty()
    } else {
        place(ordered(rows.drop_last(), before), rows.last(), before)
    }
}

/// The last `n` rows.
pub open spec fn tail<M>(rows: Seq<M>, n: nat) -> Seq<M> {
    if rows.len() <= n {
        rows
    } else {
        rows.subrange(rows.len() - n, rows.len() as int)
    }
}

/// The first `n` rows.
pub open spec fn head<M>(rows: Seq<M>, n: nat) -> Seq<M> {
    if rows.len() <= n {
        rows
    } else {
        rows.take(n as int)
    }
}

/// The rows, with the one that `same_key` picks replaced, or with the new row at the end where
/// there is none.
pub open spec fn upsert<M>(
    rows: Seq<M>,
    same_key: spec_fn(M) -> bool,
    merged: spec_fn(M) -> M,
    new_row: M,
) -> Seq<M> {
    if any(rows, same_key) {
        rows.map_values(
            |row: M|
                if same_key(row) {
                    merged(row)
                } else {
                    row
                },
        )
    } else {
        rows.push(new_row)
    }
}

/// No two rows have the same key.
pub open spec fn unique<M, K>(rows: Seq<M>, key: spec_fn(M) -> K) -> bool {
    forall|i: int, j: int|
        #![trigger rows[i], rows[j]]
        0 <= i < rows.len() && 0 <= j < rows.len() && key(rows[i]) == key(rows[j]) ==> i == j
}

pub proof fn lemma_first_any<M>(rows: Seq<M>, p: spec_fn(M) -> bool)
    ensures
        first(rows, p) is Some <==> any(rows, p),
        first(rows, p) matches Some(row) ==> p(row) && rows.contains(row),
    decreases rows.len(),
{
    if rows.len() > 0 {
        lemma_first_any(rows.drop_first(), p);
        let rest = rows.drop_first();
        if p(rows[0]) {
            assert(rows.contains(rows[0]));
        } else {
            if any(rest, p) {
                let i = choose|i: int| 0 <= i < rest.len() && p(#[trigger] rest[i]);
                assert(p(rows[i + 1]));
                let row = first(rest, p)->0;
                let j = choose|j: int| 0 <= j < rest.len() && rest[j] == row;
                assert(rows[j + 1] == row);
            }
            if any(rows, p) {
                let i = choose|i: int| 0 <= i < rows.len() && p(#[trigger] rows[i]);
                assert(rest[i - 1] == rows[i]);
            }
        }
    }
}

/// A row that is added counts only where no row before it meets the condition.
pub proof fn lemma_first_push<M>(rows: Seq<M>, row: M, p: spec_fn(M) -> bool)
    ensures
        first(rows.push(row), p) == if any(rows, p) {
            first(rows, p)
        } else if p(row) {
            Some(row)
        } else {
            None
        },
        any(rows.push(row), p) <==> any(rows, p) || p(row),
    decreases rows.len(),
{
    let all = rows.push(row);
    if p(row) {
        assert(p(all[all.len() - 1]));
    }
    if any(rows, p) {
        let i = choose|i: int| 0 <= i < rows.len() && p(#[trigger] rows[i]);
        assert(p(all[i]));
    }
    if any(all, p) && !p(row) {
        let i = choose|i: int| 0 <= i < all.len() && p(#[trigger] all[i]);
        assert(p(rows[i]));
    }
    if rows.len() > 0 {
        let rest = rows.drop_first();
        lemma_first_push(rest, row, p);
        assert(all.drop_first() =~= rest.push(row));
        assert(all[0] == rows[0]);
        if any(rest, p) {
            let i = choose|i: int| 0 <= i < rest.len() && p(#[trigger] rest[i]);
            assert(p(rows[i + 1]));
        } else if any(rows, p) && !p(rows[0]) {
            let i = choose|i: int| 0 <= i < rows.len() && p(#[trigger] rows[i]);
            assert(p(rest[i - 1]));
        }
    } else {
        assert(all[0] == row);
        assert(all.drop_first() =~= rows);
    }
}

/// Rows that change without changing whether they meet the condition are found as before.
pub proof fn lemma_first_map<M>(rows: Seq<M>, g: spec_fn(M) -> M, p: spec_fn(M) -> bool)
    requires
        forall|i: int| 0 <= i < rows.len() ==> p(g(#[trigger] rows[i])) == p(rows[i]),
    ensures
        first(rows.map_values(g), p) == match first(rows, p) {
            Some(row) => Some(g(row)),
            None => None,
        },
        any(rows.map_values(g), p) == any(rows, p),
    decreases rows.len(),
{
    let all = rows.map_values(g);
    if rows.len() > 0 {
        let rest = rows.drop_first();
        assert forall|i: int| 0 <= i < rest.len() implies p(g(#[trigger] rest[i])) == p(rest[i]) by {
            assert(rest[i] == rows[i + 1]);
        }
        lemma_first_map(rest, g, p);
        assert(all.drop_first() =~= rest.map_values(g));
        assert(all[0] == g(rows[0]));
        assert(p(g(rows[0])) == p(rows[0]));
    }
    lemma_first_any(rows, p);
    lemma_first_any(all, p);
}

/// Where no row meets a condition after a change, none is found.
pub proof fn lemma_none_after<M>(rows: Seq<M>, g: spec_fn(M) -> M, p: spec_fn(M) -> bool)
    requires
        forall|m: M| !#[trigger] p(g(m)),
    ensures
        !any(rows.map_values(g), p),
        first(rows.map_values(g), p) is None,
        select(rows.map_values(g), p).len() == 0,
{
    let all = rows.map_values(g);
    assert forall|i: int| 0 <= i < all.len() implies !p(#[trigger] all[i]) by {
        assert(all[i] == g(rows[i]));
    }
    lemma_first_any(all, p);
    lemma_select_any(all, p);
}

/// Some row is selected exactly when some row meets the condition.
pub proof fn lemma_select_any<M>(rows: Seq<M>, p: spec_fn(M) -> bool)
    ensures
        select(rows, p).len() > 0 <==> any(rows, p),
    decreases rows.len(),
{
    if rows.len() > 0 {
        let rest = rows.drop_last();
        lemma_select_any(rest, p);
        if any(rest, p) {
            let i = choose|i: int| 0 <= i < rest.len() && p(#[trigger] rest[i]);
            assert(p(rows[i]));
        }
        if p(rows.last()) {
            assert(p(rows[rows.len() - 1]));
        } else if any(rows, p) {
            let i = choose|i: int| 0 <= i < rows.len() && p(#[trigger] rows[i]);
            assert(p(rest[i]));
        }
    }
}

proof fn lemma_place_len<M>(rows: Seq<M>, row: M, before: spec_fn(M, M) -> bool)
    ensures
        place(rows, row, before).len() == rows.len() + 1,
    decreases rows.len(),
{
    if rows.len() > 0 && before(row, rows.last()) {
        lemma_place_len(rows.drop_last(), row, before);
    }
}

/// Ordering keeps the number of rows.
pub proof fn lemma_ordered_len<M>(rows: Seq<M>, before: spec_fn(M, M) -> bool)
    ensures
        ordered(rows, before).len() == rows.len(),
    decreases rows.len(),
{
    if rows.len() > 0 {
        lemma_ordered_len(rows.drop_last(), before);
        lemma_place_len(ordered(rows.drop_last(), before), rows.last(), before);
    }
}

/// A row that meets the condition is selected.
pub proof fn lemma_select_keeps<M>(rows: Seq<M>, p: spec_fn(M) -> bool, row: M)
    requires
        rows.contains(row),
        p(row),
    ensures
        select(rows, p).contains(row),
    decreases rows.len(),
{
    let i = choose|i: int| 0 <= i < rows.len() && rows[i] == row;
    let rest = rows.drop_last();
    let kept = select(rest, p);
    if i < rest.len() {
        assert(rest[i] == row);
        lemma_select_keeps(rest, p, row);
        let k = choose|k: int| 0 <= k < kept.len() && kept[k] == row;
        if p(rows.last()) {
            assert(kept.push(rows.last())[k] == row);
        }
    } else {
        assert(kept.push(rows.last())[kept.len() as int] == row);
    }
}

/// A row placed into a sequence joins its rows.
proof fn lemma_place_rows<M>(rows: Seq<M>, row: M, before: spec_fn(M, M) -> bool)
    ensures
        place(rows, row, before).to_multiset() == rows.to_multiset().insert(row),
    decreases rows.len(),
{
    broadcast use vstd::seq_lib::group_to_multiset_ensures;

    if rows.len() > 0 && before(row, rows.last()) {
        let rest = rows.drop_last();
        lemma_place_rows(rest, row, before);
        assert(rest.push(rows.last()) =~= rows);
        assert(rest.to_multiset().insert(row).insert(rows.last()) =~= rest.to_multiset().insert(
            rows.last(),
        ).insert(row));
    }
}

/// Rows in order are the same rows, each as often.
pub proof fn lemma_ordered_rows<M>(rows: Seq<M>, before: spec_fn(M, M) -> bool)
    ensures
        ordered(rows, before).to_multiset() == rows.to_multiset(),
        forall|row: M| ordered(rows, before).contains(row) <==> rows.contains(row),
    decreases rows.len(),
{
    broadcast use vstd::seq_lib::group_to_multiset_ensures;

    if rows.len() > 0 {
        let rest = rows.drop_last();
        lemma_ordered_rows(rest, before);
        lemma_place_rows(ordered(rest, before), rows.last(), before);
        assert(rest.push(rows.last()) =~= rows);
    }
    assert forall|row: M| ordered(rows, before).contains(row) <==> rows.contains(row) by {
        assert(ordered(rows, before).to_multiset().count(row) == rows.to_multiset().count(row));
    }
}

/// A row placed among rows in order leaves them in order.
proof fn lemma_place_sorted<M>(rows: Seq<M>, row: M, before: spec_fn(M, M) -> bool)
    requires
        forall|a: M, b: M| #[trigger] before(a, b) ==> !before(b, a),
        forall|a: M, b: M, c: M|
            !(#[trigger] before(b, a)) && !(#[trigger] before(c, b)) ==> !before(c, a),
        in_order(rows, before),
    ensures
        in_order(place(rows, row, before), before),
    decreases rows.len(),
{
    broadcast use vstd::seq_lib::group_to_multiset_ensures;

    let out = place(rows, row, before);
    if rows.len() > 0 && before(row, rows.last()) {
        let rest = rows.drop_last();
        let placed = place(rest, row, before);
        assert(in_order(rest, before));
        lemma_place_sorted(rest, row, before);
        lemma_place_rows(rest, row, before);
        assert forall|i: int, j: int| 0 <= i < j < out.len() implies !before(
            #[trigger] out[j],
            #[trigger] out[i],
        ) by {
            if j < placed.len() {
                assert(out[i] == placed[i] && out[j] == placed[j]);
            } else {
                assert(placed.to_multiset().contains(placed[i]));
                if placed[i] != row {
                    assert(rest.to_multiset().contains(placed[i]));
                    assert(rest.contains(placed[i]));
                    let k = choose|k: int| 0 <= k < rest.len() && rest[k] == placed[i];
                    assert(rows[k] == placed[i]);
                    assert(!before(rows[rows.len() - 1], rows[k]));
                }
            }
        }
    } else if rows.len() > 0 {
        assert forall|i: int, j: int| 0 <= i < j < out.len() implies !before(
            #[trigger] out[j],
            #[trigger] out[i],
        ) by {
            if j == rows.len() {
                assert(!before(row, rows.last()));
                if i < rows.len() - 1 {
                    assert(!before(rows[rows.len() - 1], rows[i]));
                }
            } else {
                assert(out[i] == rows[i] && out[j] == rows[j]);
            }
        }
    }
}

/// No row stands behind one that it comes before.
pub open spec fn in_order<M>(rows: Seq<M>, before: spec_fn(M, M) -> bool) -> bool {
    forall|i: int, j: int|
        0 <= i < j < rows.len() ==> !before(#[trigger] rows[j], #[trigger] rows[i])
}

/// Where one row coming before another is an order, rows in order stand in that order.
pub proof fn law_ordered_is_sorted<M>(rows: Seq<M>, before: spec_fn(M, M) -> bool)
    requires
        forall|a: M, b: M| #[trigger] before(a, b) ==> !before(b, a),
        forall|a: M, b: M, c: M|
            !(#[trigger] before(b, a)) && !(#[trigger] before(c, b)) ==> !before(c, a),
    ensures
        in_order(ordered(rows, before), before),
        ordered(rows, before).to_multiset() == rows.to_multiset(),
    decreases rows.len(),
{
    lemma_ordered_rows(rows, before);
    if rows.len() > 0 {
        law_ordered_is_sorted(rows.drop_last(), before);
        lemma_place_sorted(ordered(rows.drop_last(), before), rows.last(), before);
    }
}

/// Whether one row coming before another is an order of the rows that meet a condition, in which
/// only rows with the same key have the same place.
pub open spec fn orders<M, K>(
    before: spec_fn(M, M) -> bool,
    p: spec_fn(M) -> bool,
    key: spec_fn(M) -> K,
) -> bool {
    &&& forall|a: M, b: M| #[trigger] before(a, b) ==> !before(b, a)
    &&& forall|a: M, b: M, c: M|
        !(#[trigger] before(b, a)) && !(#[trigger] before(c, b)) ==> !before(c, a)
    &&& forall|a: M, b: M|
        p(a) && p(b) && !(#[trigger] before(a, b)) && !before(b, a) ==> key(a) == key(b)
}

/// Every row comes before all that stand behind it.
pub open spec fn ascending<M>(rows: Seq<M>, before: spec_fn(M, M) -> bool) -> bool {
    forall|i: int, j: int|
        0 <= i < j < rows.len() ==> before(#[trigger] rows[i], #[trigger] rows[j])
}

/// A listing holds exactly the rows that meet its condition, each once, and every one comes before
/// all that stand behind it.
pub proof fn law_listing_ascends<M, K>(
    rows: Seq<M>,
    p: spec_fn(M) -> bool,
    before: spec_fn(M, M) -> bool,
    key: spec_fn(M) -> K,
)
    requires
        unique(rows, key),
        orders(before, p, key),
    ensures
        ascending(ordered(select(rows, p), before), before),
        forall|row: M| #[trigger]
            ordered(select(rows, p), before).contains(row) <==> rows.contains(row) && p(row),
        ordered(select(rows, p), before).no_duplicates(),
{
    let chosen = select(rows, p);
    let list = ordered(chosen, before);
    lemma_select_from(rows, p);
    lemma_ordered_rows(chosen, before);
    law_ordered_is_sorted(chosen, before);
    lemma_unique_select(rows, key, p);
    assert(chosen.no_duplicates()) by {
        assert forall|i: int, j: int| 0 <= i < j < chosen.len() implies chosen[i] != chosen[j] by {
            assert(key(chosen[i]) != key(chosen[j]));
        }
    }
    chosen.lemma_multiset_has_no_duplicates();
    list.lemma_multiset_has_no_duplicates_conv();
    assert forall|row: M| #[trigger] list.contains(row) implies rows.contains(row) && p(row) by {
        assert(chosen.contains(row));
        let i = choose|i: int| 0 <= i < chosen.len() && chosen[i] == row;
        assert(rows.contains(chosen[i]));
    }
    assert forall|row: M| rows.contains(row) && p(row) implies #[trigger] list.contains(row) by {
        lemma_select_keeps(rows, p, row);
    }
    assert forall|i: int, j: int| 0 <= i < j < list.len() implies before(
        #[trigger] list[i],
        #[trigger] list[j],
    ) by {
        assert(list.contains(list[i]) && list.contains(list[j]));
        assert(!before(list[j], list[i]));
        assert(list[i] != list[j]);
        let k = choose|k: int| 0 <= k < rows.len() && rows[k] == list[i];
        let l = choose|l: int| 0 <= l < rows.len() && rows[l] == list[j];
        assert(k != l);
        assert(key(rows[k]) != key(rows[l]));
        if !before(list[i], list[j]) {
            assert(key(list[i]) == key(list[j]));
        }
    }
}

/// A selection of rows keeps the keys unique.
pub proof fn lemma_unique_select<M, K>(rows: Seq<M>, key: spec_fn(M) -> K, p: spec_fn(M) -> bool)
    requires
        unique(rows, key),
    ensures
        unique(select(rows, p), key),
    decreases rows.len(),
{
    if rows.len() > 0 {
        let rest = rows.drop_last();
        assert(unique(rest, key)) by {
            assert forall|i: int, j: int|
                #![trigger rest[i], rest[j]]
                0 <= i < rest.len() && 0 <= j < rest.len() && key(rest[i]) == key(
                    rest[j],
                ) implies i == j by {
                assert(rows[i] == rest[i] && rows[j] == rest[j]);
            }
        }
        lemma_unique_select(rest, key, p);
        if p(rows.last()) {
            let part = select(rest, p);
            let whole = part.push(rows.last());
            lemma_select_from(rest, p);
            assert forall|i: int, j: int|
                #![trigger whole[i], whole[j]]
                0 <= i < whole.len() && 0 <= j < whole.len() && key(whole[i]) == key(
                    whole[j],
                ) implies i == j by {
                if i < part.len() && j < part.len() {
                    assert(part[i] == whole[i] && part[j] == whole[j]);
                } else if i < part.len() || j < part.len() {
                    let m = if i < part.len() {
                        i
                    } else {
                        j
                    };
                    assert(part[m] == whole[m]);
                    assert(rest.contains(part[m]));
                    let n = choose|n: int| 0 <= n < rest.len() && rest[n] == part[m];
                    assert(rows[n] == part[m]);
                    assert(rows[rows.len() - 1] == rows.last());
                }
            }
        }
    }
}

/// What is chosen out of an ascending listing is ascending and repeats no row of it.
pub proof fn lemma_select_ascends<M>(
    rows: Seq<M>,
    p: spec_fn(M) -> bool,
    before: spec_fn(M, M) -> bool,
)
    requires
        ascending(rows, before),
    ensures
        ascending(select(rows, p), before),
        forall|row: M| #[trigger] select(rows, p).contains(row) <==> rows.contains(row) && p(row),
    decreases rows.len(),
{
    lemma_select_from(rows, p);
    assert forall|row: M| rows.contains(row) && p(row) implies #[trigger] select(
        rows,
        p,
    ).contains(row) by {
        lemma_select_keeps(rows, p, row);
    }
    if rows.len() > 0 {
        let rest = rows.drop_last();
        assert(ascending(rest, before));
        lemma_select_ascends(rest, p, before);
        lemma_select_from(rest, p);
        let kept = select(rest, p);
        assert forall|i: int| 0 <= i < kept.len() implies before(
            #[trigger] kept[i],
            rows.last(),
        ) by {
            let k = choose|k: int| 0 <= k < rest.len() && rest[k] == kept[i];
            assert(before(rows[k], rows[rows.len() - 1]));
        }
    }
}

/// No more rows are selected than there are.
pub proof fn lemma_select_len<M>(rows: Seq<M>, p: spec_fn(M) -> bool)
    ensures
        select(rows, p).len() <= rows.len(),
    decreases rows.len(),
{
    if rows.len() > 0 {
        lemma_select_len(rows.drop_last(), p);
    }
}

/// The only row that can meet a condition is the one that is found.
pub proof fn lemma_first_unique<M, K>(
    rows: Seq<M>,
    key: spec_fn(M) -> K,
    p: spec_fn(M) -> bool,
    i: int,
)
    requires
        unique(rows, key),
        0 <= i < rows.len(),
        p(rows[i]),
        forall|j: int| 0 <= j < rows.len() && p(#[trigger] rows[j]) ==> key(rows[j]) == key(rows[i]),
    ensures
        first(rows, p) == Some(rows[i]),
{
    lemma_first_any(rows, p);
    let found = first(rows, p)->0;
    let j = choose|j: int| 0 <= j < rows.len() && rows[j] == found;
    assert(p(rows[j]));
}

/// Where no row meets a condition, none is found.
pub proof fn lemma_first_none<M>(rows: Seq<M>, p: spec_fn(M) -> bool)
    requires
        forall|j: int| 0 <= j < rows.len() ==> !p(#[trigger] rows[j]),
    ensures
        first(rows, p) is None,
        !any(rows, p),
        select(rows, p).len() == 0,
{
    lemma_first_any(rows, p);
    lemma_select_any(rows, p);
}

/// Every selected row is a row of the table that meets the condition.
pub proof fn lemma_select_from<M>(rows: Seq<M>, p: spec_fn(M) -> bool)
    ensures
        forall|i: int|
            0 <= i < select(rows, p).len() ==> rows.contains(#[trigger] select(rows, p)[i]) && p(
                select(rows, p)[i],
            ),
    decreases rows.len(),
{
    if rows.len() > 0 {
        let rest = rows.drop_last();
        lemma_select_from(rest, p);
        assert forall|i: int| 0 <= i < select(rows, p).len() implies rows.contains(
            #[trigger] select(rows, p)[i],
        ) && p(select(rows, p)[i]) by {
            if i < select(rest, p).len() {
                let x = select(rest, p)[i];
                assert(select(rows, p)[i] == x);
                let j = choose|j: int| 0 <= j < rest.len() && rest[j] == x;
                assert(rows[j] == x);
            } else {
                assert(rows[rows.len() - 1] == rows.last());
            }
        }
    }
}

proof fn lemma_first_at<M>(rows: Seq<M>, p: spec_fn(M) -> bool, i: int)
    requires
        0 <= i < rows.len(),
        p(rows[i]),
        forall|j: int| 0 <= j < i ==> !p(#[trigger] rows[j]),
    ensures
        first(rows, p) == Some(rows[i]),
    decreases i,
{
    if i > 0 {
        assert(!p(rows[0]));
        let rest = rows.drop_first();
        assert forall|j: int| 0 <= j < i - 1 implies !p(#[trigger] rest[j]) by {
            assert(rest[j] == rows[j + 1]);
        }
        lemma_first_at(rest, p, i - 1);
    }
}

/// Replaces every row by what `f` makes of it; rows for which `f` has nothing stay.
pub fn update_rows<T: Row, F: Fn(&T) -> Option<T>>(
    rows: &mut Vec<T>,
    f: F,
    Ghost(g): Ghost<spec_fn(T::V) -> T::V>,
)
    requires
        forall|row: &T| #[trigger] f.requires((row,)),
        forall|row: &T, out: Option<T>| #[trigger]
            f.ensures((row,), out) ==> match out {
                Some(new_row) => new_row.deep_view() == g(row.deep_view()),
                None => g(row.deep_view()) == row.deep_view(),
            },
    ensures
        final(rows).deep_view() == old(rows).deep_view().map_values(g),
{
    let mut i: usize = 0;
    let ghost before = rows@;
    while i < rows.len()
        invariant
            i <= rows.len(),
            rows.len() == before.len(),
            forall|j: int| 0 <= j < i ==> (#[trigger] rows@[j]).deep_view() == g(before[j].deep_view()),
            forall|j: int| i <= j < rows.len() ==> #[trigger] rows@[j] == before[j],
            forall|row: &T| #[trigger] f.requires((row,)),
            forall|row: &T, out: Option<T>| #[trigger]
                f.ensures((row,), out) ==> match out {
                    Some(new_row) => new_row.deep_view() == g(row.deep_view()),
                    None => g(row.deep_view()) == row.deep_view(),
                },
        decreases rows.len() - i,
    {
        let out = f(&rows[i]);
        match out {
            Some(new_row) => {
                rows.set(i, new_row);
            },
            None => {},
        }
        i = i + 1;
    }
    assert(rows.deep_view() =~= old(rows).deep_view().map_values(g));
}

/// The index of the first row that `f` accepts.
pub fn find_row<T: Row, F: Fn(&T) -> bool>(
    rows: &Vec<T>,
    f: F,
    Ghost(p): Ghost<spec_fn(T::V) -> bool>,
) -> (r: Option<usize>)
    requires
        forall|row: &T| #[trigger] f.requires((row,)),
        forall|row: &T, b: bool| #[trigger] f.ensures((row,), b) ==> b == p(row.deep_view()),
    ensures
        match r {
            Some(i) => {
                &&& i < rows.len()
                &&& p(rows.deep_view()[i as int])
                &&& first(rows.deep_view(), p) == Some(rows.deep_view()[i as int])
                &&& any(rows.deep_view(), p)
            },
            None => first(rows.deep_view(), p) is None && !any(rows.deep_view(), p),
        },
{
    let mut i: usize = 0;
    while i < rows.len()
        invariant
            i <= rows.len(),
            forall|j: int| 0 <= j < i ==> !p(#[trigger] rows.deep_view()[j]),
            forall|row: &T| #[trigger] f.requires((row,)),
            forall|row: &T, b: bool| #[trigger] f.ensures((row,), b) ==> b == p(row.deep_view()),
        decreases rows.len() - i,
    {
        if f(&rows[i]) {
            proof {
                let m = rows.deep_view();
                assert(m[i as int] == rows@[i as int].deep_view());
                lemma_first_at(m, p, i as int);
            }
            return Some(i);
        }
        assert(rows.deep_view()[i as int] == rows@[i as int].deep_view());
        i = i + 1;
    }
    proof {
        lemma_first_any(rows.deep_view(), p);
    }
    None
}

/// Copies of the rows that `f` accepts, in table order.
pub fn select_rows<T: Row, F: Fn(&T) -> bool>(
    rows: &Vec<T>,
    f: F,
    Ghost(p): Ghost<spec_fn(T::V) -> bool>,
) -> (r: Vec<T>)
    requires
        forall|row: &T| #[trigger] f.requires((row,)),
        forall|row: &T, b: bool| #[trigger] f.ensures((row,), b) ==> b == p(row.deep_view()),
    ensures
        r.deep_view() == select(rows.deep_view(), p),
{
    let mut r: Vec<T> = Vec::new();
    let mut i: usize = 0;
    assert(r.deep_view() =~= select(rows.deep_view().take(0), p));
    while i < rows.len()
        invariant
            i <= rows.len(),
            r.deep_view() == select(rows.deep_view().take(i as int), p),
            forall|row: &T| #[trigger] f.requires((row,)),
            forall|row: &T, b: bool| #[trigger] f.ensures((row,), b) ==> b == p(row.deep_view()),
        decreases rows.len() - i,
    {
        let ghost part = rows.deep_view().take(i + 1);
        assert(part.drop_last() =~= rows.deep_view().take(i as int));
        assert(part.last() == rows@[i as int].deep_view());
        if f(&rows[i]) {
            let row = rows[i].dup();
            let ghost before = r;
            r.push(row);
            assert(r.deep_view() =~= before.deep_view().push(row.deep_view()));
        }
        i = i + 1;
    }
    assert(rows.deep_view().take(i as int) =~= rows.deep_view());
    r
}

/// What `f` makes of each row.
pub fn project_rows<T: Row, U: DeepView, F: Fn(&T) -> U>(
    rows: &Vec<T>,
    f: F,
    Ghost(g): Ghost<spec_fn(T::V) -> U::V>,
) -> (r: Vec<U>)
    requires
        forall|row: &T| #[trigger] f.requires((row,)),
        forall|row: &T, out: U| #[trigger]
            f.ensures((row,), out) ==> out.deep_view() == g(row.deep_view()),
    ensures
        r.deep_view() == rows.deep_view().map_values(g),
{
    let mut r: Vec<U> = Vec::new();
    let mut i: usize = 0;
    while i < rows.len()
        invariant
            i <= rows.len(),
            r.len() == i,
            forall|j: int|
                0 <= j < i ==> (#[trigger] r@[j]).deep_view() == g(rows@[j].deep_view()),
            forall|row: &T| #[trigger] f.requires((row,)),
            forall|row: &T, out: U| #[trigger]
                f.ensures((row,), out) ==> out.deep_view() == g(row.deep_view()),
        decreases rows.len() - i,
    {
        let out = f(&rows[i]);
        r.push(out);
        i = i + 1;
    }
    assert(r.deep_view() =~= rows.deep_view().map_values(g));
    r
}

/// Adds a row at the end.
pub fn push_row<T: Row>(rows: &mut Vec<T>, row: T)
    ensures
        final(rows).deep_view() == old(rows).deep_view().push(row.deep_view()),
{
    rows.push(row);
    assert(rows.deep_view() =~= old(rows).deep_view().push(row.deep_view()));
}

proof fn lemma_place_split<M>(s: Seq<M>, row: M, before: spec_fn(M, M) -> bool, k: int)
    requires
        0 <= k <= s.len(),
        k == 0 || !before(row, s[k - 1]),
        forall|j: int| k <= j < s.len() ==> before(row, #[trigger] s[j]),
    ensures
        place(s, row, before) == s.insert(k, row),
    decreases s.len(),
{
    if k == s.len() {
        assert(s.insert(k, row) =~= s.push(row));
    } else {
        lemma_place_split(s.drop_last(), row, before, k);
        assert(s.insert(k, row) =~= s.drop_last().insert(k, row).push(s.last()));
    }
}

/// The rows in order, ties in table order.
pub fn order_rows<T: Row, F: Fn(&T, &T) -> bool>(
    rows: Vec<T>,
    f: F,
    Ghost(before): Ghost<spec_fn(T::V, T::V) -> bool>,
) -> (r: Vec<T>)
    requires
        forall|a: &T, b: &T| #[trigger] f.requires((a, b)),
        forall|a: &T, b: &T, lt: bool| #[trigger]
            f.ensures((a, b), lt) ==> lt == before(a.deep_view(), b.deep_view()),
    ensures
        r.deep_view() == ordered(rows.deep_view(), before),
{
    let mut r: Vec<T> = Vec::new();
    let mut i: usize = 0;
    assert(r.deep_view() =~= ordered(rows.deep_view().take(0), before));
    while i < rows.len()
        invariant
            i <= rows.len(),
            r.deep_view() == ordered(rows.deep_view().take(i as int), before),
            forall|a: &T, b: &T| #[trigger] f.requires((a, b)),
            forall|a: &T, b: &T, lt: bool| #[trigger]
                f.ensures((a, b), lt) ==> lt == before(a.deep_view(), b.deep_view()),
        decreases rows.len() - i,
    {
        let row = rows[i].dup();
        let mut k: usize = r.len();
        let mut done = false;
        while k > 0 && !done
            invariant
                k <= r.len(),
                forall|j: int|
                    k <= j < r.len() ==> before(row.deep_view(), #[trigger] r.deep_view()[j]),
                done ==> k > 0 && !before(row.deep_view(), r.deep_view()[k - 1]),
                forall|a: &T, b: &T| #[trigger] f.requires((a, b)),
                forall|a: &T, b: &T, lt: bool| #[trigger]
                    f.ensures((a, b), lt) ==> lt == before(a.deep_view(), b.deep_view()),
            decreases
                k + if done {
                    0int
                } else {
                    1int
                },
        {
            if f(&row, &r[k - 1]) {
                assert(r.deep_view()[k - 1] == r@[k - 1].deep_view());
                k = k - 1;
            } else {
                assert(r.deep_view()[k - 1] == r@[k - 1].deep_view());
                done = true;
            }
        }
        let ghost old_r = r;
        proof {
            lemma_place_split(r.deep_view(), row.deep_view(), before, k as int);
            let part = rows.deep_view().take(i + 1);
            assert(part.drop_last() =~= rows.deep_view().take(i as int));
            assert(part.last() == rows@[i as int].deep_view());
        }
        r.insert(k, row);
        assert(r.deep_view() =~= old_r.deep_view().insert(k as int, row.deep_view()));
        i = i + 1;
    }
    assert(rows.deep_view().take(i as int) =~= rows.deep_view());
    r
}

/// The last `n` rows.
pub fn tail_rows<T: Row>(rows: &Vec<T>, n: usize) -> (r: Vec<T>)
    ensures
        r.deep_view() == tail(rows.deep_view(), n as nat),
{
    let start: usize = if rows.len() <= n {
        0
    } else {
        rows.len() - n
    };
    let mut r: Vec<T> = Vec::new();
    let mut i: usize = start;
    while i < rows.len()
        invariant
            start <= i <= rows.len(),
            r.deep_view() == rows.deep_view().subrange(start as int, i as int),
        decreases rows.len() - i,
    {
        let row = rows[i].dup();
        let ghost before = r;
        r.push(row);
        assert(r.deep_view() =~= before.deep_view().push(row.deep_view()));
        assert(r.deep_view() =~= rows.deep_view().subrange(start as int, i + 1));
        i = i + 1;
    }
    assert(r.deep_view() =~= tail(rows.deep_view(), n as nat));
    r
}

/// The first `n` rows.
pub fn head_rows<T: Row>(rows: &Vec<T>, n: usize) -> (r: Vec<T>)
    ensures
        r.deep_view() == head(rows.deep_view(), n as nat),
{
    let end: usize = if rows.len() <= n {
        rows.len()
    } else {
        n
    };
    let mut r: Vec<T> = Vec::new();
    let mut i: usize = 0;
    while i < end
        invariant
            i <= end <= rows.len(),
            r.deep_view() == rows.deep_view().take(i as int),
        decreases end - i,
    {
        let row = rows[i].dup();
        let ghost before = r;
        r.push(row);
        assert(r.deep_view() =~= before.deep_view().push(row.deep_view()));
        assert(r.deep_view() =~= rows.deep_view().take(i + 1));
        i = i + 1;
    }
    assert(r.deep_view() =~= head(rows.deep_view(), n as nat));
    r
}

/// Replaces the row that `f` turns into a new one, or adds the new row at the end.
pub fn upsert_row<T: Row, K: Fn(&T) -> bool, F: Fn(&T) -> Option<T>>(
    rows: &mut Vec<T>,
    is_key: K,
    merge: F,
    new_row: T,
    Ghost(same_key): Ghost<spec_fn(T::V) -> bool>,
    Ghost(merged): Ghost<spec_fn(T::V) -> T::V>,
)
    requires
        forall|row: &T| #[trigger] is_key.requires((row,)),
        forall|row: &T, b: bool| #[trigger]
            is_key.ensures((row,), b) ==> b == same_key(row.deep_view()),
        forall|row: &T| #[trigger] merge.requires((row,)),
        forall|row: &T, out: Option<T>| #[trigger]
            merge.ensures((row,), out) ==> match out {
                Some(m) => same_key(row.deep_view()) && m.deep_view() == merged(row.deep_view()),
                None => !same_key(row.deep_view()),
            },
    ensures
        final(rows).deep_view() == upsert(
            old(rows).deep_view(),
            same_key,
            merged,
            new_row.deep_view(),
        ),
{
    match find_row(rows, is_key, Ghost(same_key)) {
        Some(_) => {
            let ghost g = |row: T::V|
                if same_key(row) {
                    merged(row)
                } else {
                    row
                };
            update_rows(rows, merge, Ghost(g));
        },
        None => {
            push_row(rows, new_row);
        },
    }
}

/// Whether no two rows have the same key.
pub fn keys_unique<T: Row, K, F: Fn(&T, &T) -> bool>(
    rows: &Vec<T>,
    same_key: F,
    Ghost(key): Ghost<spec_fn(T::V) -> K>,
) -> (r: bool)
    requires
        forall|a: &T, b: &T| #[trigger] same_key.requires((a, b)),
        forall|a: &T, b: &T, same: bool| #[trigger]
            same_key.ensures((a, b), same) ==> same == (key(a.deep_view()) == key(b.deep_view())),
    ensures
        r == unique(rows.deep_view(), key),
{
    let ghost all = rows.deep_view();
    let mut i: usize = 0;
    while i < rows.len()
        invariant
            i <= rows.len(),
            all == rows.deep_view(),
            forall|a: &T, b: &T| #[trigger] same_key.requires((a, b)),
            forall|a: &T, b: &T, same: bool| #[trigger]
                same_key.ensures((a, b), same) ==> same == (key(a.deep_view()) == key(
                    b.deep_view(),
                )),
            forall|x: int, y: int|
                #![trigger all[x], all[y]]
                0 <= x < i && 0 <= y < i && key(all[x]) == key(all[y]) ==> x == y,
        decreases rows.len() - i,
    {
        let mut j: usize = 0;
        while j < i
            invariant
                j <= i < rows.len(),
                all == rows.deep_view(),
                forall|a: &T, b: &T| #[trigger] same_key.requires((a, b)),
                forall|a: &T, b: &T, same: bool| #[trigger]
                    same_key.ensures((a, b), same) ==> same == (key(a.deep_view()) == key(
                        b.deep_view(),
                    )),
                forall|x: int| 0 <= x < j ==> key(#[trigger] all[x]) != key(all[i as int]),
            decreases i - j,
        {
            assert(all[j as int] == rows@[j as int].deep_view());
            assert(all[i as int] == rows@[i as int].deep_view());
            if same_key(&rows[j], &rows[i]) {
                return false;
            }
            j = j + 1;
        }
        i = i + 1;
    }
    true
}

} // verus!
