//! The downloaded data of a page, and the text decoded from it.

use vstd::prelude::*;

verus! {

/// The data of a page: nothing, the bytes in memory, or the path of the file that holds them.
#[derive(Debug, PartialEq, Eq)]
pub enum RawData {
    NoData,
    /// We got some data
    InMemory { data: Vec<u8> },
    /// If we are too big we store it in a separate file on the file system
    ExternalFile { path: String },
}

/// The data of a page with the bytes in a `Vec`.
pub type RawVecData = RawData;

/// True iff `a` and `b` hold the same data: nothing, the same bytes in memory, or the same
/// path.
pub open spec fn same_data(a: RawData, b: RawData) -> bool {
    match (a, b) {
        (RawData::NoData, RawData::NoData) => true,
        (RawData::InMemory { data: x }, RawData::InMemory { data: y }) => x@ == y@,
        (RawData::ExternalFile { path: p }, RawData::ExternalFile { path: q }) => p == q,
        _ => false,
    }
}

/// The first three bytes of `data`, padded with zeros.
pub open spec fn bom_window(data: Seq<u8>) -> Seq<u8> {
    seq![
        if data.len() > 0 { data[0] } else { 0u8 },
        if data.len() > 1 { data[1] } else { 0u8 },
        if data.len() > 2 { data[2] } else { 0u8 },
    ]
}

/// The first three bytes of `data`, padded with zeros: where a byte order mark would be.
pub fn peek_bom_of(data: &[u8]) -> (r: [u8; 3])
    ensures r@ == bom_window(data@),
{
    let mut peek = [0u8; 3];
    let n = if data.len() < 3 { data.len() } else { 3 };
    let mut i: usize = 0;
    while i < n
        invariant
            n <= 3,
            n <= data@.len(),
            n == if data@.len() < 3 { data@.len() } else { 3 },
            i <= n,
            peek@.len() == 3,
            forall|j: int| 0 <= j < i ==> peek@[j] == data@[j],
            forall|j: int| i <= j < 3 ==> peek@[j] == 0u8,
        decreases n - i,
    {
        peek[i] = data[i];
        i = i + 1;
    }
    assert(peek@ =~= bom_window(data@));
    peek
}

impl RawData {
    /// Create some data holder for in memory
    pub fn from_in_memory(data: Vec<u8>) -> (r: Self)
        ensures r == (RawData::InMemory { data }),
    {
        Self::InMemory { data }
    }

    /// Create a data holder for a file on the file system
    pub fn from_external(path: String) -> (r: Self)
        ensures r == (RawData::ExternalFile { path }),
    {
        Self::ExternalFile { path }
    }

    pub fn from_vec(data: Vec<u8>) -> (r: Self)
        ensures r == (RawData::InMemory { data }),
    {
        Self::from_in_memory(data)
    }

    /// `None` gives no data, some bytes the bytes in memory.
    pub fn from_option(value: Option<Vec<u8>>) -> (r: Self)
        ensures
            r == match value {
                None => RawData::NoData,
                Some(data) => RawData::InMemory { data },
            },
    {
        match value {
            None => Self::NoData,
            Some(value) => Self::from_vec(value),
        }
    }

    pub fn as_in_memory(&self) -> (r: Option<&Vec<u8>>)
        ensures
            match self {
                RawData::InMemory { data } => r == Some(data),
                _ => r is None,
            },
    {
        match self {
            RawData::NoData => None,
            RawData::InMemory { data } => Some(data),
            RawData::ExternalFile { .. } => None,
        }
    }

    /// True iff there is something to read.
    pub fn can_read(&self) -> (r: bool)
        ensures r == !(self is NoData),
    {
        match self {
            RawData::NoData => false,
            _ => true,
        }
    }

    /// The size in bytes, where it is known without reading the file system: 0 for no data,
    /// the length of the bytes in memory; `None` for a file.
    pub fn size(&self) -> (r: Option<u64>)
        ensures
            match self {
                RawData::NoData => r == Some(0u64),
                RawData::InMemory { data } => r == Some(data@.len() as u64),
                RawData::ExternalFile { .. } => r is None,
            },
    {
        match self {
            RawData::NoData => Some(0),
            RawData::InMemory { data } => Some(data.len() as u64),
            RawData::ExternalFile { .. } => None,
        }
    }

    /// Where a byte order mark would be: zeros for no data, the first three bytes in memory;
    /// `None` for a file, whose first bytes have to be read with [`peek_bom_of`].
    pub fn peek_bom(&self) -> (r: Option<[u8; 3]>)
        ensures
            match self {
                RawData::NoData => r matches Some(p) && p@ == seq![0u8, 0u8, 0u8],
                RawData::InMemory { data } => r matches Some(p) && p@ == bom_window(data@),
                RawData::ExternalFile { .. } => r is None,
            },
    {
        match self {
            RawData::NoData => {
                let p = [0u8; 3];
                assert(p@ =~= seq![0u8, 0u8, 0u8]);
                Some(p)
            }
            RawData::InMemory { data } => Some(peek_bom_of(data.as_slice())),
            RawData::ExternalFile { .. } => None,
        }
    }
}

/// Text decoded from the data of a page, with the name of the encoding used.
#[derive(Debug, Clone)]
pub enum Decoded {
    InMemory {
        data: String,
        encoding: String,
        had_errors: bool,
    },
    OffMemory {
        reference: String,
        encoding: String,
        had_errors: bool,
    },
    NotDecoded,
}

impl Decoded {
    pub fn new_in_memory(result: String, encoding: String, had_errors: bool) -> (r: Self)
        ensures r == (Decoded::InMemory { data: result, encoding, had_errors }),
    {
        Self::InMemory { data: result, encoding, had_errors }
    }

    pub fn new_off_memory(result: String, encoding: String, had_errors: bool) -> (r: Self)
        ensures r == (Decoded::OffMemory { reference: result, encoding, had_errors }),
    {
        Self::OffMemory { reference: result, encoding, had_errors }
    }

    pub fn as_in_memory(&self) -> (r: Option<&String>)
        ensures
            match self {
                Decoded::InMemory { data, .. } => r == Some(data),
                _ => r is None,
            },
    {
        match self {
            Decoded::InMemory { data, .. } => Some(data),
            Decoded::OffMemory { .. } => None,
            Decoded::NotDecoded => None,
        }
    }

    /// The name of the encoding used, if anything was decoded.
    pub open spec fn encoding_used(&self) -> Option<String> {
        match self {
            Decoded::InMemory { encoding, .. } => Some(*encoding),
            Decoded::OffMemory { encoding, .. } => Some(*encoding),
            Decoded::NotDecoded => None,
        }
    }

    /// True iff the decoding met malformed input.
    pub open spec fn errors(&self) -> bool {
        match self {
            Decoded::InMemory { had_errors, .. } => *had_errors,
            Decoded::OffMemory { had_errors, .. } => *had_errors,
            Decoded::NotDecoded => false,
        }
    }

    /// The name of the encoding used, if anything was decoded.
    pub fn encoding(&self) -> (r: Option<&String>)
        ensures
            match r {
                Some(e) => self.encoding_used() == Some(*e),
                None => self.encoding_used() is None,
            },
    {
        match self {
            Decoded::InMemory { encoding, .. } => Some(encoding),
            Decoded::OffMemory { encoding, .. } => Some(encoding),
            Decoded::NotDecoded => None,
        }
    }

    /// Applies `block` to the text of a decoding held in memory; any other decoding is kept
    /// as it is.
    pub fn map_in_memory<F: FnOnce(String) -> String>(self, block: F) -> (r: Self)
        requires
            self matches Decoded::InMemory { data, .. } ==> call_requires(block, (data,)),
        ensures
            match self {
                Decoded::InMemory { data, encoding, had_errors } => r matches Decoded::InMemory {
                    data: mapped,
                    encoding: e,
                    had_errors: h,
                } && call_ensures(block, (data,), mapped) && e == encoding && h == had_errors,
                _ => r == self,
            },
    {
        match self {
            Decoded::InMemory { data, encoding, had_errors } => Decoded::InMemory {
                data: block(data),
                encoding,
                had_errors,
            },
            Decoded::OffMemory { reference, encoding, had_errors } => Decoded::OffMemory {
                reference,
                encoding,
                had_errors,
            },
            Decoded::NotDecoded => Decoded::NotDecoded,
        }
    }

    pub fn had_errors(&self) -> (r: bool)
        ensures r == self.errors(),
    {
        match self {
            Decoded::InMemory { had_errors, .. } => *had_errors,
            Decoded::OffMemory { had_errors, .. } => *had_errors,
            Decoded::NotDecoded => false,
        }
    }
}

/// The decoding of `(text, encoding, had_errors)`, held in memory.
pub fn decoded_from_triple(value: (String, String, bool)) -> (r: Decoded)
    ensures r == (Decoded::InMemory { data: value.0, encoding: value.1, had_errors: value.2 }),
{
    Decoded::InMemory { data: value.0, encoding: value.1, had_errors: value.2 }
}

} // verus!
