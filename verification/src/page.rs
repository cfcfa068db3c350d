use vstd::prelude::*;

verus! {

/// One page of query results, together with the paging arithmetic derived
/// from the total row count and the requested window.
#[derive(Debug)]
pub struct Page<T> {
    pub records: Vec<T>,
    pub total: u64,
    pub page_no: u64,
    pub page_size: u64,
    pub pages: u64,
    pub has_next: bool,
}

impl<T> Page<T> {
    /// Wraps a fetched slice of records: `pages` is the total row count
    /// divided by the page size, rounded up, and `has_next` says whether a
    /// page after `page_no` exists.
    pub fn new(records: Vec<T>, total: u64, page_no: u64, page_size: u64) -> (page: Page<T>)
        requires
            page_size > 0,
            total + page_size <= u64::MAX,
        ensures
            page.records == records,
            page.total == total,
            page.page_no == page_no,
            page.page_size == page_size,
            page.pages == (total + page_size - 1) / (page_size as int),
            page.has_next == (page_no < page.pages),
    {
        let pages = (total + page_size - 1) / page_size;
        let has_next = page_no < pages;
        Page { records, total, page_no, page_size, pages, has_next }
    }
}

} // verus!
