//! The choice of a compression for a response, by its headers.

use vstd::prelude::*;
use crate::checksum::calculate_content_checksum;
use crate::text::u64_to_decimal;

verus! {

/// An encoding that a response names in its headers. The choice tells apart only the two that
/// can be applied.
#[derive(Clone, Copy, Debug, PartialEq, Eq, Structural)]
pub enum Encoding {
    Gzip,
    Deflate,
    Other,
}

/// What the choice reads of a response.
pub struct ResponseHead {
    /// The `Content-Length` header.
    pub content_length: Option<u64>,
    /// The encodings of the `Content-Encoding` header, in their order.
    pub content_encoding: Option<Vec<Encoding>>,
    /// The encodings of the `Transfer-Encoding` header, in their order.
    pub transfer_encoding: Option<Vec<Encoding>>,
    /// Whether the response has a body.
    pub has_body: bool,
}

/// What is to be done with a response.
#[derive(Clone, Copy, Debug, PartialEq, Eq, Structural)]
pub enum CompressionPlan {
    /// The response is small: its `Content-Encoding` header goes and its body stays.
    DropContentEncoding,
    /// The `Content-Length` header goes and the body is written through gzip.
    Gzip,
    /// The `Content-Length` header goes and the body is written through deflate.
    Deflate,
    /// The response stays as it is.
    Unchanged,
}

/// The filter that compresses the larger responses.
pub struct CompressionHandler;

/// The first of `encodings` that can be applied.
pub open spec fn first_applicable(encodings: Seq<Encoding>) -> Option<Encoding>
    decreases encodings.len(),
{
    if encodings.len() == 0 {
        None
    } else if encodings[0] == Encoding::Gzip || encodings[0] == Encoding::Deflate {
        Some(encodings[0])
    } else {
        first_applicable(encodings.drop_first())
    }
}

/// The encoding that the headers ask for: the first applicable one of `Content-Encoding`, or
/// else of `Transfer-Encoding`.
pub open spec fn requested_encoding(head: ResponseHead) -> Option<Encoding> {
    let of_content = match head.content_encoding {
        Some(encodings) => first_applicable(encodings@),
        None => None,
    };
    if of_content is Some {
        of_content
    } else {
        match head.transfer_encoding {
            Some(encodings) => first_applicable(encodings@),
            None => None,
        }
    }
}

/// What is to be done with the response of `head`.
pub open spec fn compression_plan(head: ResponseHead) -> CompressionPlan {
    if head.content_length is Some && head.content_length->Some_0 <= 256 {
        CompressionPlan::DropContentEncoding
    } else if !head.has_body {
        CompressionPlan::Unchanged
    } else {
        match requested_encoding(head) {
            Some(Encoding::Gzip) => CompressionPlan::Gzip,
            Some(Encoding::Deflate) => CompressionPlan::Deflate,
            _ => CompressionPlan::Unchanged,
        }
    }
}

/// Finds the first of `encodings` that can be applied.
pub fn find_applicable(encodings: &Vec<Encoding>) -> (found: Option<Encoding>)
    ensures
        found == first_applicable(encodings@),
{
    let mut i: usize = 0;
    assert(encodings@.skip(0) =~= encodings@);
    while i < encodings.len()
        invariant
            i <= encodings.len(),
            first_applicable(encodings@) == first_applicable(encodings@.skip(i as int)),
        decreases encodings.len() - i,
    {
        assert(encodings@.skip(i as int).drop_first() =~= encodings@.skip(i as int + 1));
        match encodings[i] {
            Encoding::Gzip => {
                return Some(Encoding::Gzip);
            },
            Encoding::Deflate => {
                return Some(Encoding::Deflate);
            },
            Encoding::Other => {},
        }
        i = i + 1;
    }
    None
}

impl CompressionHandler {
    /// Chooses what is to be done with a response after it was made.
    pub fn after(&self, head: &ResponseHead) -> (plan: CompressionPlan)
        ensures
            plan == compression_plan(*head),
    {
        match head.content_length {
            Some(length) => {
                let content_data: String = u64_to_decimal(length);
                let _ = calculate_content_checksum(content_data.as_str());
                if length <= 256 {
                    return CompressionPlan::DropContentEncoding;
                }
            },
            None => {},
        }
        let mut encoding: Option<Encoding> = None;
        match &head.content_encoding {
            Some(encodings) => {
                encoding = find_applicable(encodings);
            },
            None => {},
        }
        if encoding.is_none() {
            match &head.transfer_encoding {
                Some(encodings) => {
                    encoding = find_applicable(encodings);
                },
                None => {},
            }
        }
        if head.has_body {
            match encoding {
                Some(Encoding::Gzip) => CompressionPlan::Gzip,
                Some(Encoding::Deflate) => CompressionPlan::Deflate,
                _ => CompressionPlan::Unchanged,
            }
        } else {
            CompressionPlan::Unchanged
        }
    }
}

} // verus!
