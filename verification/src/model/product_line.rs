//! Product lines and their products, and the grouping of the joined query rows.

use vstd::prelude::*;
use crate::text::{text_le, str_le, lemma_text_le_total, lemma_text_le_transitive};
use vstd::seq_lib::{to_multiset_build, to_multiset_insert, to_multiset_contains, to_multiset_len};

verus! {

/// A product line row.
pub struct EnProductLine {
    pub id: i16,
    pub title: String,
}

/// A product line with the products that belong to it.
pub struct EnProductLineProducts {
    pub id: i16,
    pub title: String,
    pub products: Vec<EnProduct>,
}

/// A product row.
pub struct EnProduct {
    pub id: i16,
    pub title: String,
    pub product_line_id: i16,
}

/// One row of the product line / product left join.
pub struct FromQueryProductLineProduct {
    pub pl_id: i16,
    pub pl_title: String,
    pub p_id: Option<i16>,
    pub p_title: Option<String>,
    pub p_product_line_id: Option<i16>,
}

/// Mathematical value of an [`EnProduct`].
pub struct EnProductView {
    pub id: i16,
    pub title: Seq<char>,
    pub product_line_id: i16,
}

/// Mathematical value of an [`EnProductLineProducts`].
pub struct EnProductLineProductsView {
    pub id: i16,
    pub title: Seq<char>,
    pub products: Seq<EnProductView>,
}

/// Mathematical value of a [`FromQueryProductLineProduct`].
pub struct FromQueryProductLineProductView {
    pub pl_id: i16,
    pub pl_title: Seq<char>,
    pub p_id: Option<i16>,
    pub p_title: Option<Seq<char>>,
    pub p_product_line_id: Option<i16>,
}

impl View for EnProduct {
    type V = EnProductView;

    open spec fn view(&self) -> EnProductView {
        EnProductView { id: self.id, title: self.title@, product_line_id: self.product_line_id }
    }
}

pub open spec fn products_view(s: Seq<EnProduct>) -> Seq<EnProductView> {
    s.map_values(|p: EnProduct| p@)
}

impl View for EnProductLineProducts {
    type V = EnProductLineProductsView;

    open spec fn view(&self) -> EnProductLineProductsView {
        EnProductLineProductsView {
            id: self.id,
            title: self.title@,
            products: products_view(self.products@),
        }
    }
}

pub open spec fn lines_view(s: Seq<EnProductLineProducts>) -> Seq<EnProductLineProductsView> {
    s.map_values(|l: EnProductLineProducts| l@)
}

pub open spec fn opt_text(o: Option<String>) -> Option<Seq<char>> {
    match o {
        Some(s) => Some(s@),
        None => None,
    }
}

impl View for FromQueryProductLineProduct {
    type V = FromQueryProductLineProductView;

    open spec fn view(&self) -> FromQueryProductLineProductView {
        FromQueryProductLineProductView {
            pl_id: self.pl_id,
            pl_title: self.pl_title@,
            p_id: self.p_id,
            p_title: opt_text(self.p_title),
            p_product_line_id: self.p_product_line_id,
        }
    }
}

pub open spec fn rows_view(s: Seq<FromQueryProductLineProduct>) -> Seq<FromQueryProductLineProductView> {
    s.map_values(|r: FromQueryProductLineProduct| r@)
}

/// The ids of the product lines, in order.
pub open spec fn line_ids(lines: Seq<EnProductLineProductsView>) -> Seq<i16> {
    lines.map_values(|l: EnProductLineProductsView| l.id)
}

/// The product a row carries: present when its three product columns are all present.
pub open spec fn row_product(r: FromQueryProductLineProductView) -> Option<EnProductView> {
    match (r.p_id, r.p_title, r.p_product_line_id) {
        (Some(id), Some(title), Some(product_line_id)) => Some(
            EnProductView { id, title, product_line_id },
        ),
        _ => None,
    }
}

/// The grouped lines after one more row: the row's product line is added at the end
/// when no line has its id yet, and the row's product, if any, is appended to the
/// products of the line with that id.
pub open spec fn apply_row(
    lines: Seq<EnProductLineProductsView>,
    r: FromQueryProductLineProductView,
) -> Seq<EnProductLineProductsView> {
    let with_line = if line_ids(lines).contains(r.pl_id) {
        lines
    } else {
        lines.push(EnProductLineProductsView { id: r.pl_id, title: r.pl_title, products: seq![] })
    };
    match row_product(r) {
        Some(p) => with_line.map_values(
            |l: EnProductLineProductsView|
                if l.id == r.pl_id {
                    EnProductLineProductsView { id: l.id, title: l.title, products: l.products.push(p) }
                } else {
                    l
                },
        ),
        None => with_line,
    }
}

/// Rows grouped by product line id, lines in order of first appearance.
pub open spec fn group_rows(rows: Seq<FromQueryProductLineProductView>) -> Seq<EnProductLineProductsView>
    decreases rows.len(),
{
    if rows.len() == 0 {
        seq![]
    } else {
        apply_row(group_rows(rows.drop_last()), rows.last())
    }
}

/// Where a stable insertion by title puts `x` in `sorted`: after every line whose
/// title is not greater than the title of `x`.
pub open spec fn title_insert_pos(sorted: Seq<EnProductLineProductsView>, x: EnProductLineProductsView) -> int
    decreases sorted.len(),
{
    if sorted.len() == 0 {
        0
    } else if text_le(sorted.last().title, x.title) {
        sorted.len() as int
    } else {
        title_insert_pos(sorted.drop_last(), x)
    }
}

/// The stable sort of the lines by title.
pub open spec fn sort_by_title(s: Seq<EnProductLineProductsView>) -> Seq<EnProductLineProductsView>
    decreases s.len(),
{
    if s.len() == 0 {
        seq![]
    } else {
        let sorted = sort_by_title(s.drop_last());
        sorted.insert(title_insert_pos(sorted, s.last()), s.last())
    }
}

/// The lines are in non-decreasing order of title.
pub open spec fn sorted_by_title(s: Seq<EnProductLineProductsView>) -> bool {
    forall|i: int, j: int| 0 <= i < j < s.len() ==> text_le(#[trigger] s[i].title, #[trigger] s[j].title)
}

/// No two lines share an id.
pub open spec fn distinct_ids(s: Seq<EnProductLineProductsView>) -> bool {
    forall|i: int, j: int| 0 <= i < j < s.len() ==> #[trigger] s[i].id != #[trigger] s[j].id
}

/// Index of the line with the given id, if any.
fn find_line_index(lines: &Vec<EnProductLineProducts>, id: i16) -> (res: Option<usize>)
    ensures
        match res {
            Some(k) => k < lines@.len() && lines@[k as int].id == id,
            None => forall|j: int| 0 <= j < lines@.len() ==> lines@[j].id != id,
        },
{
    let mut k: usize = 0;
    while k < lines.len()
        invariant
            k <= lines@.len(),
            forall|j: int| 0 <= j < k ==> lines@[j].id != id,
        decreases lines@.len() - k,
    {
        if lines[k].id == id {
            return Some(k);
        }
        k = k + 1;
    }
    None
}

fn clone_text(s: &String) -> (res: String)
    ensures
        res@ == s@,
{
    s.clone()
}

proof fn lemma_group_step(rows: Seq<FromQueryProductLineProductView>, i: int)
    requires
        0 <= i < rows.len(),
    ensures
        group_rows(rows.take(i + 1)) == apply_row(group_rows(rows.take(i)), rows[i]),
{
    assert(rows.take(i + 1).drop_last() =~= rows.take(i));
    assert(rows.take(i + 1).last() == rows[i]);
}

/// Groups the joined product line / product rows into product lines holding their
/// products, then orders the lines by title (a stable sort: lines with the same
/// title keep the order in which they first appeared).
pub fn map_product_line(items: Vec<FromQueryProductLineProduct>) -> (res: Vec<EnProductLineProducts>)
    ensures
        lines_view(res@) == sort_by_title(group_rows(rows_view(items@))),
{
    let mut lines: Vec<EnProductLineProducts> = Vec::new();
    let ghost rows = rows_view(items@);
    let mut i: usize = 0;
    while i < items.len()
        invariant
            i <= items@.len(),
            rows == rows_view(items@),
            lines_view(lines@) == group_rows(rows.take(i as int)),
            distinct_ids(lines_view(lines@)),
        decreases items@.len() - i,
    {
        let row = &items[i];
        proof {
            lemma_group_step(rows, i as int);
            assert(rows[i as int] == row@);
        }
        let ghost before = lines_view(lines@);
        let k: usize = match find_line_index(&lines, row.pl_id) {
            Some(k) => {
                assert(before[k as int].id == row.pl_id);
                assert(line_ids(before)[k as int] == row.pl_id);
                k
            },
            None => {
                assert(!line_ids(before).contains(row.pl_id)) by {
                    if line_ids(before).contains(row.pl_id) {
                        let j = choose|j: int| 0 <= j < line_ids(before).len() && line_ids(before)[j] == row.pl_id;
                        assert(lines@[j].id == row.pl_id);
                    }
                }
                let title = clone_text(&row.pl_title);
                lines.push(EnProductLineProducts { id: row.pl_id, title, products: Vec::new() });
                proof {
                    assert(products_view(Seq::<EnProduct>::empty()) =~= Seq::<EnProductView>::empty());
                    assert(lines_view(lines@) =~= before.push(
                        EnProductLineProductsView { id: row.pl_id, title: row.pl_title@, products: seq![] },
                    ));
                }
                lines.len() - 1
            },
        };
        let ghost with_line = lines_view(lines@);
        proof {
            assert(with_line[k as int].id == row.pl_id);
            assert(distinct_ids(with_line));
        }
        match (&row.p_id, &row.p_title, &row.p_product_line_id) {
            (Some(p_id), Some(p_title), Some(p_product_line_id)) => {
                let product = EnProduct {
                    id: *p_id,
                    title: clone_text(p_title),
                    product_line_id: *p_product_line_id,
                };
                let ghost pv = product@;
                let mut line = lines.remove(k);
                let ghost old_products = line.products@;
                line.products.push(product);
                lines.insert(k, line);
                proof {
                    assert(row_product(row@) == Some(pv));
                    assert(products_view(old_products.push(product)) =~= products_view(old_products).push(pv));
                    let upd = |l: EnProductLineProductsView|
                        if l.id == row.pl_id {
                            EnProductLineProductsView { id: l.id, title: l.title, products: l.products.push(pv) }
                        } else {
                            l
                        };
                    assert forall|j: int| 0 <= j < with_line.len() implies #[trigger] lines_view(lines@)[j] == upd(with_line[j]) by {
                        if j != k {
                            assert(with_line[j].id != row.pl_id);
                        }
                    }
                    assert(lines_view(lines@) =~= with_line.map_values(upd));
                    assert(distinct_ids(lines_view(lines@))) by {
                        assert forall|a: int, b: int| 0 <= a < b < lines@.len() implies
                            #[trigger] lines_view(lines@)[a].id != #[trigger] lines_view(lines@)[b].id by {
                            assert(lines_view(lines@)[a].id == with_line[a].id);
                            assert(lines_view(lines@)[b].id == with_line[b].id);
                        }
                    }
                }
            },
            _ => {
                assert(row_product(row@) is None);
            },
        }
        i = i + 1;
    }
    proof {
        assert(rows.take(items@.len() as int) =~= rows);
    }
    sort_lines_by_title(lines)
}

/// Stable insertion sort of the lines by title.
fn sort_lines_by_title(lines: Vec<EnProductLineProducts>) -> (res: Vec<EnProductLineProducts>)
    ensures
        lines_view(res@) == sort_by_title(lines_view(lines@)),
{
    let ghost input = lines_view(lines@);
    // Reverse the input so that popping yields its elements in their original order.
    let mut pending: Vec<EnProductLineProducts> = Vec::new();
    let mut lines = lines;
    while lines.len() > 0
        invariant
            lines_view(lines@) + lines_view(pending@).reverse() == input,
        decreases lines@.len(),
    {
        let ghost l0 = lines@;
        let ghost p0 = pending@;
        let x = lines.pop().unwrap();
        pending.push(x);
        proof {
            assert(lines_view(p0.push(x)).reverse() =~= seq![x@] + lines_view(p0).reverse());
            assert(lines_view(l0) =~= lines_view(lines@).push(x@));
        }
    }
    proof {
        assert(lines_view(lines@) =~= Seq::<EnProductLineProductsView>::empty());
        assert(lines_view(pending@).reverse() =~= input);
    }
    let mut sorted: Vec<EnProductLineProducts> = Vec::new();
    let ghost mut done: int = 0;
    while pending.len() > 0
        invariant
            0 <= done <= input.len(),
            done + pending@.len() == input.len(),
            lines_view(pending@).reverse() == input.subrange(done, input.len() as int),
            lines_view(sorted@) == sort_by_title(input.take(done)),
        decreases pending@.len(),
    {
        let ghost p0 = pending@;
        let x = pending.pop().unwrap();
        proof {
            assert(lines_view(p0).reverse()[0] == x@);
            assert(input[done] == x@);
            assert(lines_view(pending@).reverse() =~= input.subrange(done + 1, input.len() as int)) by {
                assert(lines_view(p0) =~= lines_view(pending@).push(x@));
                assert(lines_view(p0).reverse() =~= seq![x@] + lines_view(pending@).reverse());
                assert(input.subrange(done, input.len() as int).drop_first()
                    =~= input.subrange(done + 1, input.len() as int));
            }
        }
        let ghost sv = lines_view(sorted@);
        let mut pos: usize = sorted.len();
        assert(sv.take(pos as int) =~= sv);
        while pos > 0 && !str_le(sorted[pos - 1].title.as_str(), x.title.as_str())
            invariant
                pos <= sorted@.len(),
                sv == lines_view(sorted@),
                title_insert_pos(sv, x@) == title_insert_pos(sv.take(pos as int), x@),
            decreases pos,
        {
            proof {
                let t = sv.take(pos as int);
                assert(t.drop_last() =~= sv.take(pos - 1));
                assert(t.last() == sv[pos - 1]);
            }
            pos = pos - 1;
        }
        proof {
            let t = sv.take(pos as int);
            if pos > 0 {
                assert(t.last() == sv[pos - 1]);
            }
            assert(title_insert_pos(t, x@) == pos);
            let taken = input.take(done + 1);
            assert(taken.drop_last() =~= input.take(done));
            assert(taken.last() == x@);
        }
        let ghost xv = x@;
        sorted.insert(pos, x);
        proof {
            assert(lines_view(sorted@) =~= sv.insert(pos as int, xv));
            done = done + 1;
        }
    }
    proof {
        assert(input.take(input.len() as int) =~= input);
    }
    sorted
}

proof fn lemma_insert_pos(t: Seq<EnProductLineProductsView>, x: EnProductLineProductsView)
    requires
        sorted_by_title(t),
    ensures
        0 <= title_insert_pos(t, x) <= t.len(),
        forall|i: int| 0 <= i < title_insert_pos(t, x) ==> text_le(#[trigger] t[i].title, x.title),
        forall|i: int| title_insert_pos(t, x) <= i < t.len() ==> text_le(x.title, #[trigger] t[i].title),
    decreases t.len(),
{
    if t.len() > 0 {
        let last = t.last();
        if text_le(last.title, x.title) {
            assert forall|i: int| 0 <= i < t.len() implies text_le(#[trigger] t[i].title, x.title) by {
                if i < t.len() - 1 {
                    assert(text_le(t[i].title, t[t.len() - 1].title));
                    lemma_text_le_transitive(t[i].title, last.title, x.title);
                }
            }
        } else {
            let d = t.drop_last();
            assert(sorted_by_title(d));
            lemma_insert_pos(d, x);
            lemma_text_le_total(last.title, x.title);
            assert forall|i: int| title_insert_pos(t, x) <= i < t.len() implies text_le(x.title, #[trigger] t[i].title) by {
                if i < t.len() - 1 {
                    assert(d[i] == t[i]);
                }
            }
            assert forall|i: int| 0 <= i < title_insert_pos(t, x) implies text_le(#[trigger] t[i].title, x.title) by {
                assert(d[i] == t[i]);
            }
        }
    }
}

/// Sorting by title orders the lines by title.
pub proof fn lemma_sort_by_title_sorted(s: Seq<EnProductLineProductsView>)
    ensures
        sorted_by_title(sort_by_title(s)),
    decreases s.len(),
{
    if s.len() > 0 {
        let t = sort_by_title(s.drop_last());
        let x = s.last();
        lemma_sort_by_title_sorted(s.drop_last());
        lemma_insert_pos(t, x);
        let p = title_insert_pos(t, x);
        let r = t.insert(p, x);
        t.insert_ensures(p, x);
        assert forall|i: int, j: int| 0 <= i < j < r.len() implies text_le(#[trigger] r[i].title, #[trigger] r[j].title) by {
            if j < p {
                assert(r[i] == t[i] && r[j] == t[j]);
            } else if j == p {
                assert(r[i] == t[i]);
            } else if i < p {
                assert(r[i] == t[i] && r[j] == t[j - 1]);
                lemma_text_le_transitive(t[i].title, x.title, t[j - 1].title);
            } else if i == p {
                assert(r[j] == t[j - 1]);
            } else {
                assert(r[i] == t[i - 1] && r[j] == t[j - 1]);
            }
        }
    }
}

/// Sorting by title keeps every line, as many times as it occurs.
pub proof fn lemma_sort_by_title_permutes(s: Seq<EnProductLineProductsView>)
    ensures
        sort_by_title(s).to_multiset() == s.to_multiset(),
    decreases s.len(),
{
    if s.len() > 0 {
        let t = sort_by_title(s.drop_last());
        let x = s.last();
        lemma_sort_by_title_permutes(s.drop_last());
        lemma_sort_by_title_sorted(s.drop_last());
        lemma_insert_pos(t, x);
        assert(s =~= s.drop_last().push(x));
        to_multiset_insert(t, title_insert_pos(t, x), x);
        to_multiset_build(s.drop_last(), x);
        assert(sort_by_title(s) == t.insert(title_insert_pos(t, x), x));
        assert(sort_by_title(s).to_multiset() == t.to_multiset().insert(x));
        assert(s.to_multiset() == s.drop_last().to_multiset().insert(x));
    } else {
        assert(s =~= sort_by_title(s));
    }
}

/// Sorting by title keeps lines with distinct ids distinct.
pub proof fn lemma_sort_by_title_distinct(s: Seq<EnProductLineProductsView>)
    requires
        distinct_ids(s),
    ensures
        distinct_ids(sort_by_title(s)),
    decreases s.len(),
{
    if s.len() > 0 {
        let d = s.drop_last();
        let t = sort_by_title(d);
        let x = s.last();
        assert(distinct_ids(d));
        lemma_sort_by_title_distinct(d);
        lemma_sort_by_title_permutes(d);
        lemma_sort_by_title_sorted(d);
        lemma_insert_pos(t, x);
        let p = title_insert_pos(t, x);
        let r = t.insert(p, x);
        t.insert_ensures(p, x);
        assert forall|i: int| 0 <= i < t.len() implies #[trigger] t[i].id != x.id by {
            to_multiset_contains(t, t[i]);
            to_multiset_contains(d, t[i]);
            assert(t.contains(t[i]));
            assert(d.contains(t[i]));
            let k = choose|k: int| 0 <= k < d.len() && d[k] == t[i];
            assert(s[k] == d[k]);
            assert(s[s.len() - 1] == x);
        }
        assert forall|i: int, j: int| 0 <= i < j < r.len() implies #[trigger] r[i].id != #[trigger] r[j].id by {
            if j < p {
                assert(r[i] == t[i] && r[j] == t[j]);
            } else if j == p {
                assert(r[i] == t[i]);
            } else if i < p {
                assert(r[i] == t[i] && r[j] == t[j - 1]);
            } else if i == p {
                assert(r[j] == t[j - 1]);
            } else {
                assert(r[i] == t[i - 1] && r[j] == t[j - 1]);
            }
        }
    }
}

/// Grouping gives each product line id one line, and a line exactly for the ids
/// that occur in the rows.
pub proof fn lemma_group_rows_ids(rows: Seq<FromQueryProductLineProductView>)
    ensures
        distinct_ids(group_rows(rows)),
        forall|id: i16| #[trigger] line_ids(group_rows(rows)).contains(id) <==> exists|k: int| 0 <= k < rows.len() && rows[k].pl_id == id,
    decreases rows.len(),
{
    if rows.len() > 0 {
        let d = rows.drop_last();
        let r = rows.last();
        lemma_group_rows_ids(d);
        let g = group_rows(d);
        let with_line = if line_ids(g).contains(r.pl_id) {
            g
        } else {
            g.push(EnProductLineProductsView { id: r.pl_id, title: r.pl_title, products: seq![] })
        };
        assert(line_ids(with_line).len() == with_line.len());
        assert forall|i: int| 0 <= i < with_line.len() implies #[trigger] line_ids(group_rows(rows))[i] == with_line[i].id by {
        }
        assert(line_ids(group_rows(rows)) =~= line_ids(with_line));
        assert(distinct_ids(with_line)) by {
            if !line_ids(g).contains(r.pl_id) {
                assert forall|i: int| 0 <= i < g.len() implies #[trigger] g[i].id != r.pl_id by {
                    assert(line_ids(g)[i] == g[i].id);
                }
            }
        }
        assert forall|id: i16| #[trigger] line_ids(group_rows(rows)).contains(id) <==> exists|k: int| 0 <= k < rows.len() && rows[k].pl_id == id by {
            if exists|k: int| 0 <= k < rows.len() && rows[k].pl_id == id {
                let k = choose|k: int| 0 <= k < rows.len() && rows[k].pl_id == id;
                if k < d.len() {
                    assert(d[k].pl_id == id);
                    assert(line_ids(g).contains(id));
                    let j = choose|j: int| 0 <= j < line_ids(g).len() && line_ids(g)[j] == id;
                    assert(line_ids(with_line)[j] == id);
                } else if !line_ids(g).contains(r.pl_id) {
                    assert(line_ids(with_line)[g.len() as int] == id);
                }
            }
            if line_ids(with_line).contains(id) {
                let j = choose|j: int| 0 <= j < line_ids(with_line).len() && line_ids(with_line)[j] == id;
                if j < g.len() {
                    assert(line_ids(g)[j] == id);
                    assert(line_ids(g).contains(id));
                    let k = choose|k: int| 0 <= k < d.len() && d[k].pl_id == id;
                    assert(rows[k].pl_id == id);
                } else {
                    assert(rows[rows.len() - 1].pl_id == id);
                }
            }
        }
        let gr = group_rows(rows);
        assert(distinct_ids(gr)) by {
            assert forall|i: int, j: int| 0 <= i < j < gr.len() implies #[trigger] gr[i].id != #[trigger] gr[j].id by {
                assert(line_ids(gr)[i] == with_line[i].id);
                assert(line_ids(gr)[j] == with_line[j].id);
            }
        }
    }
}

/// What `map_product_line` returns: lines ordered by title, one line per product
/// line id, and a line for exactly the product line ids of the rows.
pub proof fn lemma_map_product_line_shape(rows: Seq<FromQueryProductLineProductView>)
    ensures
        sorted_by_title(sort_by_title(group_rows(rows))),
        distinct_ids(sort_by_title(group_rows(rows))),
        sort_by_title(group_rows(rows)).len() == group_rows(rows).len(),
        forall|id: i16| #[trigger] line_ids(sort_by_title(group_rows(rows))).contains(id)
            <==> exists|k: int| 0 <= k < rows.len() && rows[k].pl_id == id,
{
    let g = group_rows(rows);
    let r = sort_by_title(g);
    lemma_group_rows_ids(rows);
    lemma_sort_by_title_sorted(g);
    lemma_sort_by_title_distinct(g);
    lemma_sort_by_title_permutes(g);
    to_multiset_len(r);
    to_multiset_len(g);
    assert forall|id: i16| #[trigger] line_ids(r).contains(id)
        <==> exists|k: int| 0 <= k < rows.len() && rows[k].pl_id == id by {
        if line_ids(r).contains(id) {
            let i = choose|i: int| 0 <= i < line_ids(r).len() && line_ids(r)[i] == id;
            to_multiset_contains(r, r[i]);
            to_multiset_contains(g, r[i]);
            assert(r.contains(r[i]));
            let j = choose|j: int| 0 <= j < g.len() && g[j] == r[i];
            assert(line_ids(g)[j] == id);
            assert(line_ids(g).contains(id));
        }
        if exists|k: int| 0 <= k < rows.len() && rows[k].pl_id == id {
            assert(line_ids(g).contains(id));
            let j = choose|j: int| 0 <= j < line_ids(g).len() && line_ids(g)[j] == id;
            to_multiset_contains(g, g[j]);
            to_multiset_contains(r, g[j]);
            assert(g.contains(g[j]));
            let i = choose|i: int| 0 <= i < r.len() && r[i] == g[j];
            assert(line_ids(r)[i] == id);
        }
    }
}

/// The lines with the given title, in order.
pub open spec fn lines_titled(s: Seq<EnProductLineProductsView>, k: Seq<char>) -> Seq<EnProductLineProductsView>
    decreases s.len(),
{
    if s.len() == 0 {
        seq![]
    } else {
        lines_titled(s.drop_last(), k) + if s.last().title == k {
            seq![s.last()]
        } else {
            Seq::<EnProductLineProductsView>::empty()
        }
    }
}

proof fn lemma_lines_titled_add(a: Seq<EnProductLineProductsView>, b: Seq<EnProductLineProductsView>, k: Seq<char>)
    ensures
        lines_titled(a + b, k) == lines_titled(a, k) + lines_titled(b, k),
    decreases b.len(),
{
    if b.len() == 0 {
        assert(a + b =~= a);
        assert(lines_titled(a, k) + lines_titled(b, k) =~= lines_titled(a, k));
    } else {
        lemma_lines_titled_add(a, b.drop_last(), k);
        assert((a + b).drop_last() =~= a + b.drop_last());
        assert((a + b).last() == b.last());
        let tail = if b.last().title == k {
            seq![b.last()]
        } else {
            Seq::<EnProductLineProductsView>::empty()
        };
        assert(lines_titled(a, k) + lines_titled(b.drop_last(), k) + tail =~= lines_titled(a, k) + (
        lines_titled(b.drop_last(), k) + tail));
    }
}

proof fn lemma_lines_titled_none(s: Seq<EnProductLineProductsView>, k: Seq<char>)
    requires
        forall|i: int| 0 <= i < s.len() ==> (#[trigger] s[i]).title != k,
    ensures
        lines_titled(s, k) == Seq::<EnProductLineProductsView>::empty(),
    decreases s.len(),
{
    if s.len() > 0 {
        lemma_lines_titled_none(s.drop_last(), k);
        assert(s[s.len() - 1].title != k);
        assert(lines_titled(s, k) =~= Seq::<EnProductLineProductsView>::empty());
    }
}

/// The lines from the insertion position on have titles greater than the inserted one.
proof fn lemma_insert_pos_after(t: Seq<EnProductLineProductsView>, x: EnProductLineProductsView)
    ensures
        0 <= title_insert_pos(t, x) <= t.len(),
        forall|i: int| title_insert_pos(t, x) <= i < t.len() ==> !text_le(#[trigger] t[i].title, x.title),
    decreases t.len(),
{
    if t.len() > 0 && !text_le(t.last().title, x.title) {
        lemma_insert_pos_after(t.drop_last(), x);
        assert forall|i: int| title_insert_pos(t, x) <= i < t.len() implies !text_le(#[trigger] t[i].title, x.title) by {
            if i < t.len() - 1 {
                assert(t.drop_last()[i] == t[i]);
            }
        }
    }
}

/// Sorting by title is stable: the lines of any one title come out in the order they
/// went in.
pub proof fn lemma_sort_by_title_stable(s: Seq<EnProductLineProductsView>, k: Seq<char>)
    ensures
        lines_titled(sort_by_title(s), k) == lines_titled(s, k),
    decreases s.len(),
{
    if s.len() > 0 {
        let d = s.drop_last();
        let x = s.last();
        let t = sort_by_title(d);
        lemma_sort_by_title_stable(d, k);
        lemma_sort_by_title_sorted(d);
        lemma_insert_pos(t, x);
        lemma_insert_pos_after(t, x);
        let p = title_insert_pos(t, x);
        let r = t.insert(p, x);
        assert(r =~= t.take(p) + (seq![x] + t.skip(p)));
        assert(t =~= t.take(p) + t.skip(p));
        lemma_lines_titled_add(t.take(p), seq![x] + t.skip(p), k);
        lemma_lines_titled_add(seq![x], t.skip(p), k);
        lemma_lines_titled_add(t.take(p), t.skip(p), k);
        assert(lines_titled(seq![x], k) == lines_titled(Seq::<EnProductLineProductsView>::empty(), k) + if x.title == k {
            seq![x]
        } else {
            Seq::<EnProductLineProductsView>::empty()
        }) by {
            assert(seq![x].drop_last() =~= Seq::<EnProductLineProductsView>::empty());
        }
        if x.title == k {
            assert forall|i: int| 0 <= i < t.skip(p).len() implies (#[trigger] t.skip(p)[i]).title != k by {
                assert(t.skip(p)[i] == t[p + i]);
                crate::text::lemma_text_le_reflexive(x.title);
            }
            lemma_lines_titled_none(t.skip(p), k);
            assert(lines_titled(r, k) =~= lines_titled(t, k) + seq![x]);
        } else {
            assert(lines_titled(r, k) =~= lines_titled(t, k));
        }
        assert(sort_by_title(s) == r);
    }
}

/// The products of the rows of the given product line, in row order.
pub open spec fn line_products(rows: Seq<FromQueryProductLineProductView>, id: i16) -> Seq<EnProductView>
    decreases rows.len(),
{
    if rows.len() == 0 {
        seq![]
    } else {
        line_products(rows.drop_last(), id) + match row_product(rows.last()) {
            Some(p) => if rows.last().pl_id == id {
                seq![p]
            } else {
                Seq::<EnProductView>::empty()
            },
            None => Seq::<EnProductView>::empty(),
        }
    }
}

proof fn lemma_line_products_absent(rows: Seq<FromQueryProductLineProductView>, id: i16)
    requires
        forall|k: int| 0 <= k < rows.len() ==> (#[trigger] rows[k]).pl_id != id,
    ensures
        line_products(rows, id) == Seq::<EnProductView>::empty(),
    decreases rows.len(),
{
    if rows.len() > 0 {
        lemma_line_products_absent(rows.drop_last(), id);
        assert(rows[rows.len() - 1].pl_id != id);
        assert(line_products(rows, id) =~= Seq::<EnProductView>::empty());
    }
}

/// Grouping gives each line the products of the rows of its product line, in row order.
pub proof fn lemma_group_rows_products(rows: Seq<FromQueryProductLineProductView>)
    ensures
        forall|i: int| 0 <= i < group_rows(rows).len() ==> (#[trigger] group_rows(rows)[i]).products == line_products(
            rows,
            group_rows(rows)[i].id,
        ),
    decreases rows.len(),
{
    if rows.len() > 0 {
        let d = rows.drop_last();
        let r = rows.last();
        lemma_group_rows_products(d);
        lemma_group_rows_ids(d);
        let g = group_rows(d);
        let with_line = if line_ids(g).contains(r.pl_id) {
            g
        } else {
            g.push(EnProductLineProductsView { id: r.pl_id, title: r.pl_title, products: seq![] })
        };
        assert forall|i: int| 0 <= i < with_line.len() implies (#[trigger] with_line[i]).products == line_products(
            d,
            with_line[i].id,
        ) by {
            if i == g.len() {
                assert forall|k: int| 0 <= k < d.len() implies (#[trigger] d[k]).pl_id != r.pl_id by {
                    if d[k].pl_id == r.pl_id {
                        assert(exists|k2: int| 0 <= k2 < d.len() && d[k2].pl_id == r.pl_id);
                    }
                }
                lemma_line_products_absent(d, r.pl_id);
            }
        }
        let gr = group_rows(rows);
        assert forall|i: int| 0 <= i < gr.len() implies (#[trigger] gr[i]).products == line_products(rows, gr[i].id) by {
            assert(rows.drop_last() =~= d);
            match row_product(r) {
                Some(p) => {
                    assert(gr[i].id == with_line[i].id);
                    if with_line[i].id == r.pl_id {
                        assert(gr[i].products =~= line_products(d, gr[i].id) + seq![p]);
                    } else {
                        assert(gr[i].products =~= line_products(d, gr[i].id) + Seq::<EnProductView>::empty());
                    }
                },
                None => {
                    assert(gr[i] == with_line[i]);
                    assert(gr[i].products =~= line_products(d, gr[i].id) + Seq::<EnProductView>::empty());
                },
            }
        }
    }
}

/// What `map_product_line` returns holds, in each line, the products of the rows of
/// its product line in row order, and keeps the lines of one title in the order in
/// which their product lines first appear in the rows.
pub proof fn lemma_map_product_line_contents(rows: Seq<FromQueryProductLineProductView>, k: Seq<char>)
    ensures
        forall|i: int| 0 <= i < sort_by_title(group_rows(rows)).len() ==> (#[trigger] sort_by_title(
            group_rows(rows),
        )[i]).products == line_products(rows, sort_by_title(group_rows(rows))[i].id),
        lines_titled(sort_by_title(group_rows(rows)), k) == lines_titled(group_rows(rows), k),
{
    let g = group_rows(rows);
    let r = sort_by_title(g);
    lemma_group_rows_products(rows);
    lemma_sort_by_title_permutes(g);
    lemma_sort_by_title_stable(g, k);
    assert forall|i: int| 0 <= i < r.len() implies (#[trigger] r[i]).products == line_products(rows, r[i].id) by {
        to_multiset_contains(r, r[i]);
        to_multiset_contains(g, r[i]);
        assert(r.contains(r[i]));
        let j = choose|j: int| 0 <= j < g.len() && g[j] == r[i];
        assert(g[j].products == line_products(rows, g[j].id));
    }
}

} // verus!
