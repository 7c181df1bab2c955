use atra::data::RawData;
use atra::stored::{hint_after_warc, hint_in_memory, reads_warc, CrawlResult, SlimCrawlResult, StoredDataHint};

#[test]
fn inflating_follows_the_hint() {
    let page = CrawlResult::new("meta".to_string(), RawData::NoData);
    let external: SlimCrawlResult<String, u32> = SlimCrawlResult::new(&page, StoredDataHint::External("page.bin".to_string()));
    assert_eq!(external.meta, "meta");
    let back = external.inflate(None);
    assert_eq!(back.meta, "meta");
    assert_eq!(back.content, RawData::ExternalFile { path: "page.bin".to_string() });

    let warc: SlimCrawlResult<String, u32> = SlimCrawlResult::new(&page, StoredDataHint::Warc(7));
    assert_eq!(warc.inflate(Some(vec![1, 2])).content, RawData::InMemory { data: vec![1, 2] });

    let beside: SlimCrawlResult<String, u32> = SlimCrawlResult::new(&page, StoredDataHint::InMemory(vec![3]));
    assert_eq!(beside.inflate(Some(vec![9])).content, RawData::InMemory { data: vec![3] });

    let associated: SlimCrawlResult<String, u32> = SlimCrawlResult::new(&page, StoredDataHint::Associated);
    assert_eq!(associated.clone().inflate(Some(vec![4])).content, RawData::InMemory { data: vec![4] });
    assert_eq!(associated.inflate(None).content, RawData::NoData);

    let nothing: SlimCrawlResult<String, u32> = SlimCrawlResult::new(&page, StoredDataHint::NoData);
    assert_eq!(nothing.inflate(None).content, RawData::NoData);
}

#[test]
fn a_page_stored_in_memory_reads_back() {
    for content in [
        RawData::NoData,
        RawData::InMemory { data: b"<html></html>".to_vec() },
        RawData::ExternalFile { path: "big.bin".to_string() },
    ] {
        let page = CrawlResult::new(1u8, content);
        let hint: StoredDataHint<u32> = hint_in_memory(&page.content);
        assert!(!reads_warc(&hint));
        let slim = SlimCrawlResult::new(&page, hint);
        let back = slim.inflate(None);
        assert_eq!(back.meta, 1u8);
        assert_eq!(back.content, page.content);
    }
}

#[test]
fn a_page_stored_by_a_worker_reads_back() {
    let data = b"body".to_vec();
    let page = CrawlResult::new((), RawData::InMemory { data: data.clone() });
    let hint = hint_after_warc(&page.content, Some(42u64));
    assert_eq!(hint, StoredDataHint::Warc(42));
    assert!(reads_warc(&hint));
    let back = SlimCrawlResult::new(&page, hint).inflate(Some(data));
    assert_eq!(back.content, page.content);

    let file = RawData::ExternalFile { path: "x".to_string() };
    assert_eq!(hint_after_warc::<u64>(&file, None), StoredDataHint::External("x".to_string()));
    assert_eq!(hint_after_warc::<u64>(&RawData::NoData, None), StoredDataHint::NoData);
}
