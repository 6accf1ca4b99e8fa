use vstd::prelude::*;

verus! {

/// Number of watch-history items per page.
pub const PAGE_SIZE: i64 = 50;

/// How to read one page of an account's watch history: the items of the account,
/// of the given watched state if one is given, ordered by the date they were added
/// (oldest first when `sort_by_date_ascending`), skipping `offset` items and taking
/// at most `limit`.
#[derive(Debug, Clone, PartialEq, Eq)]
pub struct WatchHistoryQuery<S> {
    pub account_id: String,
    pub status: Option<S>,
    pub sort_by_date_ascending: bool,
    pub offset: i64,
    pub limit: i64,
}

/// The number of items before page `page_num` (pages count from 1).
pub open spec fn page_offset(page_num: int) -> int {
    PAGE_SIZE * (page_num - 1)
}

/// The query for page `page_num` (counted from 1) of the watch history of `account_id`.
pub fn watch_history_query<S>(
    account_id: &str,
    page_num: u32,
    status: Option<S>,
    sort_by_date_ascending: bool,
) -> (q: WatchHistoryQuery<S>)
    requires
        page_num >= 1,
    ensures
        q.account_id@ == account_id@,
        q.status == status,
        q.sort_by_date_ascending == sort_by_date_ascending,
        q.offset == page_offset(page_num as int),
        q.limit == PAGE_SIZE,
{
    let pages_before = (page_num - 1) as i64;
    assert(0 <= pages_before < 0x1_0000_0000);
    assert(PAGE_SIZE * pages_before <= 50 * 0x1_0000_0000) by (nonlinear_arith)
        requires
            0 <= pages_before < 0x1_0000_0000,
            PAGE_SIZE == 50,
    ;
    WatchHistoryQuery {
        account_id: account_id.to_owned(),
        status,
        sort_by_date_ascending,
        offset: PAGE_SIZE * pages_before,
        limit: PAGE_SIZE,
    }
}

/// Consecutive pages follow each other with neither gap nor overlap: page 1 starts at
/// the first item, and each page starts where the one before it ends.
pub proof fn lemma_pages_tile(page_num: int)
    requires
        page_num >= 1,
    ensures
        page_offset(1) == 0,
        page_offset(page_num + 1) == page_offset(page_num) + PAGE_SIZE,
        page_offset(page_num) >= 0,
{
    assert(PAGE_SIZE * page_num == PAGE_SIZE * (page_num - 1) + PAGE_SIZE) by (nonlinear_arith);
    assert(PAGE_SIZE * (page_num - 1) >= 0) by (nonlinear_arith)
        requires
            page_num >= 1,
            PAGE_SIZE == 50,
    ;
}

/// Different pages never share an item: the window of an earlier page ends at or
/// before the start of a later one.
pub proof fn lemma_pages_disjoint(p: int, q: int)
    requires
        1 <= p < q,
    ensures
        page_offset(p) + PAGE_SIZE <= page_offset(q),
{
    assert(PAGE_SIZE * (p - 1) + PAGE_SIZE <= PAGE_SIZE * (q - 1)) by (nonlinear_arith)
        requires
            1 <= p < q,
            PAGE_SIZE == 50,
    ;
}

} // verus!
