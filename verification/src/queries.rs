use crate::identity::QubicId;
use crate::transaction::TransactionWithData;
use vstd::prelude::*;

verus! {

// ---------------------------------------------------------------------------
// Query-side rules: tick-range validation, pagination over an indexed
// record set, and per-identity transfer filtering. These decide what the
// request layer around the client may ask for; the I/O that carries the
// answers stays outside.
// ---------------------------------------------------------------------------
/// Largest allowed span of a tick-range query.
pub const MAX_TICK_RANGE: u32 = 100_000_000;

/// Largest allowed page size of a paginated query.
pub const MAX_PAGE_SIZE: usize = 200;

/// Page size used when a query names none.
pub const DEFAULT_PAGE_SIZE: usize = 50;

/// Why a query was rejected before any I/O was attempted.
#[derive(Clone, Copy, PartialEq, Eq, Structural, Debug)]
pub enum QueryError {
    /// The range's end tick lies before its start tick.
    RangeInverted,
    /// The range spans more ticks than the allowed maximum.
    RangeTooLarge,
    /// A page number or page size of zero.
    ZeroPage,
    /// A page size above the allowed maximum.
    PageSizeTooLarge,
    /// A page number past the last page.
    PageOutOfRange,
}

/// The optional bounds of a transfer query; an absent bound defaults to the
/// latest tick.
#[derive(Clone, Copy, PartialEq, Eq, Structural, Debug)]
pub struct TransferQueryParams {
    pub start_tick: Option<u32>,
    pub end_tick: Option<u32>,
    pub sc_only: Option<bool>,
    pub desc: Option<bool>,
}

/// The tick a query bound resolves to: the named tick, or the latest.
pub open spec fn resolved_tick(o: Option<u32>, latest: u32) -> u32 {
    match o {
        Some(t) => t,
        None => latest,
    }
}

/// Resolves a transfer query's bounds against the latest tick and validates
/// the range: the end must not lie before the start, and the span must not
/// exceed the maximum.
pub fn resolve_tick_range(params: &TransferQueryParams, latest_tick: u32) -> (r: Result<
    (u32, u32),
    QueryError,
>)
    ensures
        ({
            let s = resolved_tick(params.start_tick, latest_tick);
            let e = resolved_tick(params.end_tick, latest_tick);
            &&& (e < s ==> r == Err::<(u32, u32), QueryError>(QueryError::RangeInverted))
            &&& (e >= s && e - s > MAX_TICK_RANGE ==> r == Err::<(u32, u32), QueryError>(
                QueryError::RangeTooLarge,
            ))
            &&& (e >= s && e - s <= MAX_TICK_RANGE ==> r == Ok::<(u32, u32), QueryError>((s, e)))
        }),
{
    let start_tick = match params.start_tick {
        Some(t) => t,
        None => latest_tick,
    };
    let end_tick = match params.end_tick {
        Some(t) => t,
        None => latest_tick,
    };
    if end_tick < start_tick {
        return Err(QueryError::RangeInverted);
    }
    if end_tick - start_tick > MAX_TICK_RANGE {
        return Err(QueryError::RangeTooLarge);
    }
    Ok((start_tick, end_tick))
}

/// The optional page cursor of a paginated query; absent values default to
/// the first page of fifty records.
#[derive(Clone, Copy, PartialEq, Eq, Structural, Debug)]
pub struct PaginationParams {
    pub page: Option<usize>,
    pub page_size: Option<usize>,
}

/// One resolved page over a record set.
#[derive(Clone, Copy, PartialEq, Eq, Structural, Debug)]
pub struct PageSelection {
    pub offset: usize,
    pub page_size: usize,
    pub current_page: usize,
    pub total_pages: usize,
}

/// Pages rounded up: how many pages of the given size hold the records.
pub open spec fn spec_total_pages(total: int, size: int) -> int
    recommends
        size > 0,
{
    total / size + if total % size != 0 {
        1int
    } else {
        0int
    }
}

/// Resolves a page cursor over `total_records` records: both page and size
/// default when absent, zero values and over-large sizes are rejected, a
/// page past the last page is rejected, and the selection starts at the
/// zero-based record offset `(page - 1) * size`.
pub fn paginate(params: &PaginationParams, total_records: usize) -> (r: Result<
    PageSelection,
    QueryError,
>)
    ensures
        ({
            let page = match params.page {
                Some(p) => p as int,
                None => 1int,
            };
            let size = match params.page_size {
                Some(s) => s as int,
                None => DEFAULT_PAGE_SIZE as int,
            };
            &&& (page == 0 || size == 0 ==> r == Err::<PageSelection, QueryError>(
                QueryError::ZeroPage,
            ))
            &&& (page >= 1 && size >= 1 && size > MAX_PAGE_SIZE ==> r == Err::<
                PageSelection,
                QueryError,
            >(QueryError::PageSizeTooLarge))
            &&& (page >= 1 && 1 <= size <= MAX_PAGE_SIZE && page > spec_total_pages(
                total_records as int,
                size,
            ) ==> r == Err::<PageSelection, QueryError>(QueryError::PageOutOfRange))
            &&& (page >= 1 && 1 <= size <= MAX_PAGE_SIZE && page <= spec_total_pages(
                total_records as int,
                size,
            ) ==> (r matches Ok(sel) && sel.offset == (page - 1) * size && sel.page_size == size
                && sel.current_page == page && sel.total_pages == spec_total_pages(
                total_records as int,
                size,
            )))
        }),
{
    let page = match params.page {
        Some(p) => p,
        None => 1,
    };
    let page_size = match params.page_size {
        Some(s) => s,
        None => DEFAULT_PAGE_SIZE,
    };
    if page == 0 || page_size == 0 {
        return Err(QueryError::ZeroPage);
    }
    if page_size > MAX_PAGE_SIZE {
        return Err(QueryError::PageSizeTooLarge);
    }
    let q = total_records / page_size;
    let rem = total_records % page_size;
    proof {
        vstd::arithmetic::div_mod::lemma_fundamental_div_mod(
            total_records as int,
            page_size as int,
        );
        assert(rem != 0 ==> q + 1 <= total_records) by (nonlinear_arith)
            requires
                page_size >= 1,
                total_records >= 0,
                q == total_records as int / page_size as int,
                rem == total_records as int % page_size as int,
                total_records == page_size * q + rem,
                0 <= rem < page_size,
        ;
    }
    let total_pages = if rem != 0 {
        q + 1
    } else {
        q
    };
    if page > total_pages {
        return Err(QueryError::PageOutOfRange);
    }
    proof {
        assert((page - 1) * page_size <= total_records) by (nonlinear_arith)
            requires
                1 <= page <= total_records as int / page_size as int + (if total_records as int
                    % page_size as int != 0 {
                    1int
                } else {
                    0int
                }),
                page_size >= 1,
                total_records >= 0,
        ;
    }
    let offset = (page - 1) * page_size;
    Ok(PageSelection { offset, page_size, current_page: page, total_pages })
}

/// The transactions that touch `id` as source or destination, kept in their
/// arrival order.
pub fn transfers_for_identity(txs: Vec<TransactionWithData>, id: &QubicId) -> (r: Vec<
    TransactionWithData,
>)
    ensures
        r@ == txs@.filter(
            |t: TransactionWithData| t.raw_transaction.to@ == id@ || t.raw_transaction.from@
                == id@,
        ),
{
    let ghost orig = txs@;
    let mut rest = txs;
    let mut r: Vec<TransactionWithData> = Vec::new();
    let ghost mut i: int = 0;
    while rest.len() > 0
        invariant
            0 <= i <= orig.len(),
            rest@ == orig.subrange(i, orig.len() as int),
            r@ == orig.take(i).filter(
                |t: TransactionWithData| t.raw_transaction.to@ == id@ || t.raw_transaction.from@
                    == id@,
            ),
        decreases rest@.len(),
    {
        let ghost pre = orig.take(i);
        let ghost cur = orig.take(i + 1);
        proof {
            assert(cur.drop_last() =~= pre);
            assert(cur.last() == orig[i]);
            reveal_with_fuel(Seq::filter, 2);
        }
        let t = rest.remove(0);
        proof {
            assert(t == orig[i]);
        }
        if t.raw_transaction.concerns(id) {
            r.push(t);
        }
        proof {
            i = i + 1;
            assert(rest@ =~= orig.subrange(i, orig.len() as int));
        }
    }
    proof {
        assert(orig.take(i) =~= orig);
    }
    r
}

} // verus!
