//! Joining the pages of a paginated listing.

use vstd::prelude::*;
use crate::models::reversed;

verus! {

/// The items of one page (none when the page carried no list).
pub open spec fn page_items<T>(page: Option<Vec<T>>) -> Seq<T> {
    match page {
        Some(v) => v@,
        None => Seq::empty(),
    }
}

/// The items of all pages, page after page, each in its own order.
pub open spec fn flat_pages<T>(pages: Seq<Option<Vec<T>>>) -> Seq<T>
    decreases pages.len(),
{
    if pages.len() == 0 {
        Seq::empty()
    } else {
        flat_pages(pages.drop_last()) + page_items(pages.last())
    }
}

/// Appends the items of `items` to `all`, in order.
fn append_all<T>(all: &mut Vec<T>, items: Vec<T>)
    ensures
        final(all)@ == old(all)@ + items@,
{
    let ghost start = all@;
    let ghost src = items@;
    let n = items.len();
    let mut rev = reversed(items);
    let mut k: usize = 0;
    while k < n
        invariant
            n == src.len(),
            rev@.len() + k == n,
            rev@ == src.skip(k as int).reverse(),
            all@ == start + src.take(k as int),
        decreases n - k,
    {
        let x = rev.pop().unwrap();
        proof {
            assert(x == src[k as int]);
            assert(src.skip(k as int + 1).reverse() =~= src.skip(k as int).reverse().drop_last());
            assert(src.take(k as int + 1) =~= src.take(k as int).push(src[k as int]));
        }
        all.push(x);
        k = k + 1;
    }
    assert(src.take(n as int) =~= src);
}

/// The items of all pages joined in page order.
pub fn flatten_pages<T>(pages: Vec<Option<Vec<T>>>) -> (all: Vec<T>)
    ensures
        all@ == flat_pages(pages@),
{
    let ghost ps = pages@;
    let n = pages.len();
    let mut rev = reversed(pages);
    let mut all: Vec<T> = Vec::new();
    let mut k: usize = 0;
    assert(ps.take(0) =~= Seq::<Option<Vec<T>>>::empty());
    while k < n
        invariant
            n == ps.len(),
            rev@.len() + k == n,
            rev@ == ps.skip(k as int).reverse(),
            all@ == flat_pages(ps.take(k as int)),
        decreases n - k,
    {
        let page = rev.pop().unwrap();
        proof {
            assert(page == ps[k as int]);
            assert(ps.skip(k as int + 1).reverse() =~= ps.skip(k as int).reverse().drop_last());
            assert(ps.take(k as int + 1).drop_last() =~= ps.take(k as int));
            assert(ps.take(k as int + 1).last() == ps[k as int]);
        }
        match page {
            Some(v) => append_all(&mut all, v),
            None => {
                assert(all@ =~= all@ + Seq::<T>::empty());
            },
        }
        k = k + 1;
    }
    assert(ps.take(n as int) =~= ps);
    all
}

/// The lists of the results that succeeded, as pages (a failure contributes no items).
pub open spec fn successful_pages<T, E>(results: Seq<Result<Vec<T>, E>>) -> Seq<Option<Vec<T>>> {
    results.map_values(
        |r: Result<Vec<T>, E>|
            match r {
                Ok(v) => Some(v),
                Err(_) => None,
            },
    )
}

/// Joins the lists of the results that succeeded, in order; failures are dropped and do not
/// affect the others.
pub fn merge_ok<T, E>(results: Vec<Result<Vec<T>, E>>) -> (all: Vec<T>)
    ensures
        all@ == flat_pages(successful_pages(results@)),
{
    let ghost rs = results@;
    let n = results.len();
    let mut rev = reversed(results);
    let mut pages: Vec<Option<Vec<T>>> = Vec::new();
    let mut k: usize = 0;
    while k < n
        invariant
            n == rs.len(),
            rev@.len() + k == n,
            rev@ == rs.skip(k as int).reverse(),
            pages@ == successful_pages(rs.take(k as int)),
        decreases n - k,
    {
        let r = rev.pop().unwrap();
        proof {
            assert(r == rs[k as int]);
            assert(rs.skip(k as int + 1).reverse() =~= rs.skip(k as int).reverse().drop_last());
        }
        let page = match r {
            Ok(v) => Some(v),
            Err(_) => None,
        };
        pages.push(page);
        proof {
            assert(successful_pages(rs.take(k as int + 1)) =~= successful_pages(rs.take(k as int)).push(page));
        }
        k = k + 1;
    }
    assert(rs.take(n as int) =~= rs);
    flatten_pages(pages)
}

/// The values of the results that succeeded, in order.
pub open spec fn ok_items<T, E>(results: Seq<Result<T, E>>) -> Seq<T>
    decreases results.len(),
{
    if results.len() == 0 {
        Seq::empty()
    } else {
        ok_items(results.drop_last()) + match results.last() {
            Ok(x) => seq![x],
            Err(_) => Seq::empty(),
        }
    }
}

/// Keeps the values of the results that succeeded, in order, dropping the failures.
pub fn keep_ok<T, E>(results: Vec<Result<T, E>>) -> (kept: Vec<T>)
    ensures
        kept@ == ok_items(results@),
{
    let ghost rs = results@;
    let n = results.len();
    let mut rev = reversed(results);
    let mut kept: Vec<T> = Vec::new();
    let mut k: usize = 0;
    assert(rs.take(0) =~= Seq::<Result<T, E>>::empty());
    while k < n
        invariant
            n == rs.len(),
            rev@.len() + k == n,
            rev@ == rs.skip(k as int).reverse(),
            kept@ == ok_items(rs.take(k as int)),
        decreases n - k,
    {
        let r = rev.pop().unwrap();
        proof {
            assert(r == rs[k as int]);
            assert(rs.skip(k as int + 1).reverse() =~= rs.skip(k as int).reverse().drop_last());
            assert(rs.take(k as int + 1).drop_last() =~= rs.take(k as int));
            assert(rs.take(k as int + 1).last() == rs[k as int]);
        }
        match r {
            Ok(x) => {
                kept.push(x);
            },
            Err(_) => {
                assert(kept@ =~= kept@ + Seq::<T>::empty());
            },
        }
        k = k + 1;
    }
    assert(rs.take(n as int) =~= rs);
    kept
}

} // verus!
