use vstd::prelude::*;

verus! {

/// Which part of the listed records a request asks for: `offset` records are
/// skipped (none where absent), and at most `limit` are kept (all where absent).
#[derive(Clone, Copy, Debug, PartialEq, Eq, Structural)]
pub struct Pagination {
    pub offset: Option<usize>,
    pub limit: Option<usize>,
}

/// The number of records to skip.
pub open spec fn skip_of(p: Pagination) -> int {
    match p.offset {
        Some(k) => k as int,
        None => 0,
    }
}

/// The index in a listing of `len` records where the page starts.
pub open spec fn page_start(len: int, p: Pagination) -> int {
    if skip_of(p) < len {
        skip_of(p)
    } else {
        len
    }
}

/// The index in a listing of `len` records where the page ends.
pub open spec fn page_end(len: int, p: Pagination) -> int {
    match p.limit {
        Some(n) => if page_start(len, p) + n < len {
            page_start(len, p) + n
        } else {
            len
        },
        None => len,
    }
}

/// The page of `items` that `p` asks for.
pub open spec fn page<T>(items: Seq<T>, p: Pagination) -> Seq<T> {
    items.subrange(page_start(items.len() as int, p), page_end(items.len() as int, p))
}

impl Default for Pagination {
    /// No offset and no limit: everything.
    fn default() -> (r: Pagination)
        ensures
            r.offset.is_none(),
            r.limit.is_none(),
    {
        Pagination { offset: None, limit: None }
    }
}

impl Pagination {
    /// The page of `items` that this pagination asks for, in the order of
    /// `items`.
    pub fn paginate<T: Copy>(&self, items: &Vec<T>) -> (r: Vec<T>)
        ensures
            r@ == page(items@, *self),
    {
        let len = items.len();
        let start: usize = match self.offset {
            Some(k) => if k < len {
                k
            } else {
                len
            },
            None => 0,
        };
        let end: usize = match self.limit {
            Some(n) => if n < len - start {
                start + n
            } else {
                len
            },
            None => len,
        };
        let mut r: Vec<T> = Vec::new();
        let mut i: usize = start;
        while i < end
            invariant
                start <= i <= end,
                end <= items@.len(),
                start == page_start(items@.len() as int, *self),
                end == page_end(items@.len() as int, *self),
                r@ == items@.subrange(start as int, i as int),
            decreases end - i,
        {
            r.push(items[i]);
            i = i + 1;
            assert(r@ =~= items@.subrange(start as int, i as int));
        }
        r
    }
}

/// A page holds `min(limit, max(0, total - offset))` records, each the record
/// at its position moved on by the offset, so it is one contiguous run of the
/// listing.
pub proof fn lemma_page_shape<T>(items: Seq<T>, k: usize, n: usize)
    ensures
        ({
            let p = Pagination { offset: Some(k), limit: Some(n) };
            let avail = if items.len() > k { items.len() - k } else { 0 };
            &&& page(items, p).len() == if (n as int) < avail { n as int } else { avail }
            &&& forall|i: int| 0 <= i < page(items, p).len() ==> page(items, p)[i] == items[k + i]
        }),
{
}

/// Without offset and limit, the page is the whole listing.
pub proof fn lemma_unbounded_page_is_everything<T>(items: Seq<T>, p: Pagination)
    requires
        p.offset.is_none() || p.offset == Some(0usize),
        p.limit.is_none(),
    ensures
        page(items, p) == items,
{
    assert(page(items, p) =~= items);
}

} // verus!
