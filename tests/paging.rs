use zenkit_cli::paging::{PageRequest, Paginator, PAGE_SIZE};

/// Serves `limit` records of `records` from offset `skip`.
fn serve(records: &[u64], skip: usize, limit: usize) -> Vec<u64> {
    let lo = skip.min(records.len());
    let hi = (skip + limit).min(records.len());
    records[lo..hi].to_vec()
}

/// Runs a paginator against `records`; returns what it gathered and the requests made.
fn drive(records: &[u64], limit: usize) -> (Vec<u64>, Vec<PageRequest>) {
    let mut pager: Paginator<u64> = Paginator::new(limit);
    let mut requests = Vec::new();
    while let Some(req) = pager.next_request() {
        requests.push(req);
        pager.accept_page(serve(records, req.skip, req.limit));
    }
    assert!(pager.is_done());
    (pager.into_entries(), requests)
}

#[test]
fn empty_collection_takes_one_call() {
    let (got, reqs) = drive(&[], PAGE_SIZE);
    assert!(got.is_empty());
    assert_eq!(reqs, vec![PageRequest { skip: 0, limit: 500 }]);
}

#[test]
fn exact_multiple_takes_one_extra_call() {
    let records: Vec<u64> = (0..1000).collect();
    let (got, reqs) = drive(&records, PAGE_SIZE);
    assert_eq!(got, records);
    assert_eq!(reqs.len(), 1000 / 500 + 1);
    assert_eq!(reqs[2], PageRequest { skip: 1000, limit: 500 });
}

#[test]
fn partial_last_page_is_followed_by_the_empty_page() {
    let records: Vec<u64> = (0..5).collect();
    let (got, reqs) = drive(&records, 2);
    assert_eq!(got, records);
    let skips: Vec<usize> = reqs.iter().map(|r| r.skip).collect();
    assert_eq!(skips, vec![0, 2, 4, 5]);
}

#[test]
fn short_pages_advance_by_count_received() {
    let mut pager: Paginator<u64> = Paginator::new(PAGE_SIZE);
    let mut skips = Vec::new();
    let pages = vec![vec![1, 2, 3], vec![4], vec![5, 6], vec![]];
    for page in pages {
        let req = pager.next_request().unwrap();
        assert_eq!(req.limit, 500);
        skips.push(req.skip);
        pager.accept_page(page);
    }
    assert_eq!(skips, vec![0, 3, 4, 6]);
    assert_eq!(pager.next_request(), None);
    assert_eq!(pager.entries(), &vec![1, 2, 3, 4, 5, 6]);
}

#[test]
fn full_page_does_not_end_the_fetch() {
    let mut pager: Paginator<u64> = Paginator::new(3);
    pager.accept_page(vec![7, 8, 9]);
    assert!(!pager.is_done());
    assert_eq!(pager.next_request(), Some(PageRequest { skip: 3, limit: 3 }));
}
