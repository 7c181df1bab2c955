//! How the data of a crawled page is stored beside its metadata, and how a stored page is
//! read back.
//!
//! A stored page is its metadata with a hint that says where its data went. The metadata and
//! the record of a warc file are carried through untouched, so both are type parameters here.

use vstd::prelude::*;
use crate::data::{same_data, RawData};

verus! {

/// Where the data of a stored page is found.
#[derive(Debug, Clone, PartialEq, Eq)]
pub enum StoredDataHint<W> {
    /// In the file at this path.
    External(String),
    /// In a warc file, at this record.
    Warc(W),
    /// Beside the metadata.
    InMemory(Vec<u8>),
    /// Held by whoever stored the page.
    Associated,
    /// The page had no data.
    NoData,
}

/// A crawled page: its metadata and its data.
#[derive(Debug)]
pub struct CrawlResult<M> {
    pub meta: M,
    pub content: RawData,
}

/// A stored page: its metadata and where its data is.
#[derive(Debug, Clone)]
pub struct SlimCrawlResult<M, W> {
    pub meta: M,
    pub stored_data_hint: StoredDataHint<W>,
}

/// The data of a page read back from the hint `hint`, with `body` the bytes read from
/// wherever the hint points (a warc file) or given by whoever holds them.
pub open spec fn inflated_content<W>(hint: StoredDataHint<W>, body: Option<Vec<u8>>) -> RawData {
    match hint {
        StoredDataHint::External(path) => RawData::ExternalFile { path },
        StoredDataHint::Warc(_) => RawData::InMemory { data: body.unwrap() },
        StoredDataHint::InMemory(data) => RawData::InMemory { data },
        StoredDataHint::Associated | StoredDataHint::NoData => match body {
            Some(data) => RawData::InMemory { data },
            None => RawData::NoData,
        },
    }
}

impl<M> CrawlResult<M> {
    pub fn new(meta: M, content: RawData) -> (r: Self)
        ensures r.meta == meta, r.content == content,
    {
        CrawlResult { meta, content }
    }
}

impl<M, W> SlimCrawlResult<M, W> {
    /// The stored form of `crawl_result`, with its data where `stored_data_hint` says.
    pub fn new(crawl_result: &CrawlResult<M>, stored_data_hint: StoredDataHint<W>) -> (r: Self)
        where M: Clone,
        ensures cloned(crawl_result.meta, r.meta), r.stored_data_hint == stored_data_hint,
    {
        SlimCrawlResult { meta: crawl_result.meta.clone(), stored_data_hint }
    }

    /// The page back from its stored form: the metadata, and the data where the hint points,
    /// with `body` the bytes of a warc record, which must have been read for a page stored in
    /// a warc file.
    pub fn inflate(self, body: Option<Vec<u8>>) -> (r: CrawlResult<M>)
        requires self.stored_data_hint is Warc ==> body is Some,
        ensures r.meta == self.meta, r.content == inflated_content(self.stored_data_hint, body),
    {
        let content = match self.stored_data_hint {
            StoredDataHint::External(path) => RawData::from_external(path),
            StoredDataHint::Warc(_) => match body {
                Some(data) => RawData::from_vec(data),
                None => RawData::NoData,
            },
            StoredDataHint::InMemory(data) => RawData::from_vec(data),
            StoredDataHint::Associated | StoredDataHint::NoData => match body {
                Some(data) => RawData::from_vec(data),
                None => RawData::NoData,
            },
        };
        CrawlResult { meta: self.meta, content }
    }
}

/// True iff `hint` stores `content` beside the metadata: the bytes in memory as a copy, a file
/// by its path, no data as no data.
pub open spec fn stored_beside<W>(content: RawData, hint: StoredDataHint<W>) -> bool {
    match content {
        RawData::NoData => hint is NoData,
        RawData::InMemory { data } => hint matches StoredDataHint::InMemory(copy) && copy@ == data@,
        RawData::ExternalFile { path } => hint == StoredDataHint::<W>::External(path),
    }
}

/// Where a store that keeps everything in memory puts the data of a page: data in memory
/// beside the metadata, a file where it is, no data nowhere.
pub fn hint_in_memory<W>(content: &RawData) -> (r: StoredDataHint<W>)
    ensures stored_beside(*content, r),
{
    match content {
        RawData::NoData => StoredDataHint::NoData,
        RawData::InMemory { data } => {
            let copy = data.clone();
            assert(copy@ =~= data@);
            StoredDataHint::InMemory(copy)
        },
        RawData::ExternalFile { path } => StoredDataHint::External(path.clone()),
    }
}

/// The hint of a page whose data in memory went into a warc file at the record `record`.
pub open spec fn hint_with_warc<W>(content: RawData, record: Option<W>) -> StoredDataHint<W> {
    match content {
        RawData::NoData => StoredDataHint::NoData,
        RawData::InMemory { .. } => StoredDataHint::Warc(record.unwrap()),
        RawData::ExternalFile { path } => StoredDataHint::External(path),
    }
}

/// Where a worker puts the data of a page: data in memory into the warc file, at the record
/// `record` that writing it gave; a file where it is; no data nowhere.
pub fn hint_after_warc<W>(content: &RawData, record: Option<W>) -> (r: StoredDataHint<W>)
    requires content is InMemory ==> record is Some,
    ensures r == hint_with_warc(*content, record),
{
    match content {
        RawData::NoData => StoredDataHint::NoData,
        RawData::InMemory { .. } => match record {
            Some(w) => StoredDataHint::Warc(w),
            None => StoredDataHint::NoData,
        },
        RawData::ExternalFile { path } => StoredDataHint::External(path.clone()),
    }
}

/// True iff reading back a page stored with the hint `hint` reads a warc record.
pub fn reads_warc<W>(hint: &StoredDataHint<W>) -> (r: bool)
    ensures r == (*hint is Warc),
{
    match hint {
        StoredDataHint::Warc(_) => true,
        _ => false,
    }
}

/// A page stored beside its metadata reads back as it was stored, with no body given.
pub proof fn law_beside_reads_back<W>(content: RawData, hint: StoredDataHint<W>)
    requires stored_beside(content, hint),
    ensures same_data(inflated_content(hint, None), content),
{
}

/// A page stored by a worker reads back as it was stored, where the body read from the warc
/// file is the data that was written into it.
pub proof fn law_warc_reads_back<W>(content: RawData, record: W, body: Option<Vec<u8>>)
    requires
        content matches RawData::InMemory { data } ==> body == Some(data),
        !(content is InMemory) ==> body is None,
    ensures inflated_content(hint_with_warc(content, Some(record)), body) == content,
{
}

/// A page stored beside its metadata reads back whole: what inflating its stored form without
/// a body gives holds a clone of its metadata and the data it had.
pub proof fn law_page_reads_back_whole<M: Clone, W>(page: CrawlResult<M>, slim: SlimCrawlResult<M, W>, back: CrawlResult<M>)
    requires
        cloned(page.meta, slim.meta),
        stored_beside(page.content, slim.stored_data_hint),
        back.meta == slim.meta,
        back.content == inflated_content(slim.stored_data_hint, None),
    ensures
        cloned(page.meta, back.meta),
        same_data(back.content, page.content),
{
}

} // verus!
