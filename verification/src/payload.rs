//! Request bodies: framing encoded series into a post, splitting a post
//! that is over the size ceiling, and compressing

use crate::Error;
use flate2::write::GzEncoder;
use flate2::Compression;
use std::io::Write;
use vstd::prelude::*;

verus! {

// Size constants from https://docs.datadoghq.com/api/latest/metrics/#submit-metrics
/// The most bytes that one request may carry
pub const MAX_PAYLOAD_BYTES: usize = 3200000;

/// The most bytes that a compressed request may decompress to
pub const MAX_DECOMPRESSED_PAYLOAD: usize = 62914560;

/// The models of a sequence of byte buffers, in order
pub open spec fn bodies_view(bodies: Seq<Vec<u8>>) -> Seq<Seq<u8>> {
    bodies.map_values(|b: Vec<u8>| b@)
}

/// The bytes `{"series":[` that open a post
pub open spec fn post_prefix() -> Seq<u8> {
    seq![123u8, 34u8, 115u8, 101u8, 114u8, 105u8, 101u8, 115u8, 34u8, 58u8, 91u8]
}

/// The bytes `]}` that close a post
pub open spec fn post_suffix() -> Seq<u8> {
    seq![93u8, 125u8]
}

/// The encoded series in order, with a comma between neighbours
pub open spec fn joined(series: Seq<Seq<u8>>) -> Seq<u8>
    decreases series.len(),
{
    if series.len() == 0 {
        Seq::empty()
    } else if series.len() == 1 {
        series[0]
    } else {
        joined(series.drop_last()) + seq![44u8] + series.last()
    }
}

/// The body of a post: a JSON object whose one member, `series`, is the
/// array of the encoded series
pub open spec fn post_body(series: Seq<Seq<u8>>) -> Seq<u8> {
    post_prefix() + joined(series) + post_suffix()
}

/// DataDog API Post Body
#[derive(Debug)]
pub struct DataDogApiPost<'a> {
    /// Metric series, each as its JSON text
    pub series: &'a [Vec<u8>],
}

impl<'a> DataDogApiPost<'a> {
    /// The bytes of the post
    pub fn to_vec(&self) -> (r: Vec<u8>)
        ensures
            r@ == post_body(bodies_view(self.series@)),
    {
        let ghost all = bodies_view(self.series@);
        let mut body: Vec<u8> = Vec::new();
        body.push(123u8);
        body.push(34u8);
        body.push(115u8);
        body.push(101u8);
        body.push(114u8);
        body.push(105u8);
        body.push(101u8);
        body.push(115u8);
        body.push(34u8);
        body.push(58u8);
        body.push(91u8);
        assert(body@ =~= post_prefix());
        assert(all.subrange(0, 0) =~= Seq::<Seq<u8>>::empty());
        let mut i: usize = 0;
        while i < self.series.len()
            invariant
                i <= self.series.len(),
                all == bodies_view(self.series@),
                body@ == post_prefix() + joined(all.subrange(0, i as int)),
            decreases self.series.len() - i,
        {
            let ghost before = body@;
            if i > 0 {
                body.push(44u8);
            }
            let one = &self.series[i];
            let mut k: usize = 0;
            while k < one.len()
                invariant
                    k <= one.len(),
                    body@ == before + (if i > 0 {
                        seq![44u8]
                    } else {
                        Seq::<u8>::empty()
                    }) + one@.subrange(0, k as int),
                decreases one.len() - k,
            {
                body.push(one[k]);
                k += 1;
            }
            proof {
                assert(one@.subrange(0, one.len() as int) =~= one@);
                assert(all.subrange(0, i + 1).drop_last() =~= all.subrange(0, i as int));
                assert(all.subrange(0, i + 1).last() == one@);
                assert(body@ =~= post_prefix() + joined(all.subrange(0, i + 1)));
            }
            i += 1;
        }
        assert(all.subrange(0, self.series.len() as int) =~= all);
        body.push(93u8);
        body.push(125u8);
        assert(body@ =~= post_body(all));
        body
    }
}

/// The series before the middle of the list
pub open spec fn left_half(series: Seq<Seq<u8>>) -> Seq<Seq<u8>> {
    series.subrange(0, series.len() as int / 2)
}

/// The series from the middle of the list on
pub open spec fn right_half(series: Seq<Seq<u8>>) -> Seq<Seq<u8>> {
    series.subrange(series.len() as int / 2, series.len() as int)
}

/// How a list of encoded series is cut into posts that are sent as they
/// are: the whole list where its post is under `wire_limit` bytes; else
/// the cuts of its two halves, one after the other. A list of fewer than
/// two series whose post is not under the limit cannot be cut: `None`.
pub open spec fn split_plan(series: Seq<Seq<u8>>, wire_limit: nat) -> Option<Seq<Seq<Seq<u8>>>>
    decreases series.len(),
{
    if post_body(series).len() < wire_limit {
        Some(seq![series])
    } else if series.len() < 2 {
        None
    } else {
        match (split_plan(left_half(series), wire_limit), split_plan(right_half(series), wire_limit)) {
            (Some(left), Some(right)) => Some(left + right),
            _ => None,
        }
    }
}

/// The posts of the segments of a cut, as they are sent uncompressed
pub open spec fn plain_chunks(segments: Seq<Seq<Seq<u8>>>) -> Seq<Seq<u8>> {
    segments.map_values(|segment: Seq<Seq<u8>>| post_body(segment))
}

/// Split a list of encoded series into posts under `wire_limit` bytes
pub fn split_series_within(series: &[Vec<u8>], wire_limit: usize) -> (r: Result<
    Vec<Vec<u8>>,
    Error,
>)
    ensures
        match r {
            Ok(chunks) => split_plan(bodies_view(series@), wire_limit as nat) matches Some(
                segments,
            ) && bodies_view(chunks@) == plain_chunks(segments),
            Err(e) => split_plan(bodies_view(series@), wire_limit as nat) is None
                && e is SeriesTooLarge,
        },
    decreases series@.len(),
{
    let ghost all = bodies_view(series@);
    let body = (DataDogApiPost { series }).to_vec();
    if body.len() < wire_limit {
        let mut chunks: Vec<Vec<u8>> = Vec::new();
        chunks.push(body);
        assert(bodies_view(chunks@) =~= plain_chunks(seq![all]));
        Ok(chunks)
    } else if series.len() < 2 {
        Err(Error::SeriesTooLarge)
    } else {
        let (left, right) = series.split_at(series.len() / 2);
        assert(bodies_view(left@) =~= left_half(all));
        assert(bodies_view(right@) =~= right_half(all));
        match split_series_within(left, wire_limit) {
            Err(e) => Err(e),
            Ok(mut chunks) => match split_series_within(right, wire_limit) {
                Err(e) => Err(e),
                Ok(mut rest) => {
                    let ghost first = bodies_view(chunks@);
                    let ghost second = bodies_view(rest@);
                    chunks.append(&mut rest);
                    proof {
                        let l = split_plan(left_half(all), wire_limit as nat).unwrap();
                        let r = split_plan(right_half(all), wire_limit as nat).unwrap();
                        assert(bodies_view(chunks@) =~= first + second);
                        assert(plain_chunks(l + r) =~= plain_chunks(l) + plain_chunks(r));
                    }
                    Ok(chunks)
                },
            },
        }
    }
}

/// Split a list of encoded series into posts under [`MAX_PAYLOAD_BYTES`]
pub fn split_series(series: &[Vec<u8>]) -> (r: Result<Vec<Vec<u8>>, Error>)
    ensures
        match r {
            Ok(chunks) => split_plan(bodies_view(series@), MAX_PAYLOAD_BYTES as nat) matches Some(
                segments,
            ) && bodies_view(chunks@) == plain_chunks(segments),
            Err(e) => split_plan(bodies_view(series@), MAX_PAYLOAD_BYTES as nat) is None
                && e is SeriesTooLarge,
        },
{
    split_series_within(series, MAX_PAYLOAD_BYTES)
}

/// What the gzip encoder makes of `body` at the default compression
/// level: `Some` of the compressed bytes, or `None` where it reports an
/// error.
pub uninterp spec fn gzip_encoding(body: Seq<u8>) -> Option<Seq<u8>>;

/// Compresses `body` into one gzip stream.
///
/// Calls `flate2::write::GzEncoder::new` on an empty `Vec` with
/// `Compression::default()`, writes `body` with `write_all` and ends the
/// stream with `finish`. The encoder writes a fixed header (no name, no
/// time, operating system 255), so its output depends on `body` alone;
/// the contract only gives that output its name.
#[verifier::external_body]
fn gzip(body: &[u8]) -> (r: Result<Vec<u8>, std::io::Error>)
    ensures
        match r {
            Ok(bytes) => gzip_encoding(body@) == Some(bytes@),
            Err(_) => gzip_encoding(body@) is None,
        },
{
    let mut encoder = GzEncoder::new(Vec::new(), Compression::default());
    encoder.write_all(body)?;
    encoder.finish()
}

/// Why a list of encoded series cannot be cut into compressed posts
#[derive(Debug, Clone, Copy, PartialEq, Eq, Structural)]
pub enum SplitFailure {
    /// A list of fewer than two series is over a ceiling
    TooLarge,
    /// The encoder reported an error
    Compression,
}

/// Whether the post of the whole list goes out as one compressed post: it
/// is within `raw_limit` bytes and compresses to under `wire_limit` bytes
pub open spec fn fits_compressed(series: Seq<Seq<u8>>, raw_limit: nat, wire_limit: nat) -> bool {
    &&& post_body(series).len() <= raw_limit
    &&& gzip_encoding(post_body(series)) matches Some(bytes)
    &&& bytes.len() < wire_limit
}

/// How a list of encoded series is cut into posts that are sent
/// compressed. A post of more than `raw_limit` bytes is never compressed:
/// its list is cut in two halves. A post within `raw_limit` is
/// compressed, and goes out whole where the compressed bytes are under
/// `wire_limit`; else its list is cut in two halves, each compressed anew.
/// A list of fewer than two series cannot be cut.
pub open spec fn compress_plan(series: Seq<Seq<u8>>, raw_limit: nat, wire_limit: nat) -> Result<
    Seq<Seq<Seq<u8>>>,
    SplitFailure,
>
    decreases series.len(),
{
    if post_body(series).len() <= raw_limit && gzip_encoding(post_body(series)) is None {
        Err(SplitFailure::Compression)
    } else if fits_compressed(series, raw_limit, wire_limit) {
        Ok(seq![series])
    } else if series.len() < 2 {
        Err(SplitFailure::TooLarge)
    } else {
        match compress_plan(left_half(series), raw_limit, wire_limit) {
            Err(e) => Err(e),
            Ok(left) => match compress_plan(right_half(series), raw_limit, wire_limit) {
                Err(e) => Err(e),
                Ok(right) => Ok(left + right),
            },
        }
    }
}

/// The posts of the segments of a cut, each compressed on its own
pub open spec fn compressed_chunks(segments: Seq<Seq<Seq<u8>>>) -> Seq<Seq<u8>> {
    segments.map_values(|segment: Seq<Seq<u8>>| gzip_encoding(post_body(segment)).unwrap())
}

/// Whether an error of the library reports the given failure of a cut
pub open spec fn reports(e: Error, failure: SplitFailure) -> bool {
    match failure {
        SplitFailure::TooLarge => e is SeriesTooLarge,
        SplitFailure::Compression => e is IOError,
    }
}

/// Split a list of encoded series into compressed posts: each within
/// `raw_limit` bytes before compression and under `wire_limit` bytes after
pub fn split_and_compress_series_within(
    series: &[Vec<u8>],
    raw_limit: usize,
    wire_limit: usize,
) -> (r: Result<Vec<Vec<u8>>, Error>)
    ensures
        match r {
            Ok(chunks) => compress_plan(
                bodies_view(series@),
                raw_limit as nat,
                wire_limit as nat,
            ) matches Ok(segments) && bodies_view(chunks@) == compressed_chunks(segments),
            Err(e) => compress_plan(
                bodies_view(series@),
                raw_limit as nat,
                wire_limit as nat,
            ) matches Err(failure) && reports(e, failure),
        },
    decreases series@.len(),
{
    let ghost all = bodies_view(series@);
    let body = (DataDogApiPost { series }).to_vec();
    if body.len() <= raw_limit {
        match gzip(body.as_slice()) {
            Err(e) => {
                return Err(Error::IOError(e));
            },
            Ok(compressed) => {
                if compressed.len() < wire_limit {
                    let mut chunks: Vec<Vec<u8>> = Vec::new();
                    chunks.push(compressed);
                    assert(bodies_view(chunks@) =~= compressed_chunks(seq![all]));
                    return Ok(chunks);
                }
            },
        }
    }
    if series.len() < 2 {
        Err(Error::SeriesTooLarge)
    } else {
        let (left, right) = series.split_at(series.len() / 2);
        assert(bodies_view(left@) =~= left_half(all));
        assert(bodies_view(right@) =~= right_half(all));
        match split_and_compress_series_within(left, raw_limit, wire_limit) {
            Err(e) => Err(e),
            Ok(mut chunks) => match split_and_compress_series_within(right, raw_limit, wire_limit) {
                Err(e) => Err(e),
                Ok(mut rest) => {
                    let ghost first = bodies_view(chunks@);
                    let ghost second = bodies_view(rest@);
                    chunks.append(&mut rest);
                    proof {
                        let l = compress_plan(
                            left_half(all),
                            raw_limit as nat,
                            wire_limit as nat,
                        ).unwrap();
                        let r = compress_plan(
                            right_half(all),
                            raw_limit as nat,
                            wire_limit as nat,
                        ).unwrap();
                        assert(bodies_view(chunks@) =~= first + second);
                        assert(compressed_chunks(l + r) =~= compressed_chunks(l)
                            + compressed_chunks(r));
                    }
                    Ok(chunks)
                },
            },
        }
    }
}

/// Split a list of encoded series into compressed posts: each within
/// [`MAX_DECOMPRESSED_PAYLOAD`] bytes before compression and under
/// [`MAX_PAYLOAD_BYTES`] bytes after
pub fn split_and_compress_series(series: &[Vec<u8>]) -> (r: Result<Vec<Vec<u8>>, Error>)
    ensures
        match r {
            Ok(chunks) => compress_plan(
                bodies_view(series@),
                MAX_DECOMPRESSED_PAYLOAD as nat,
                MAX_PAYLOAD_BYTES as nat,
            ) matches Ok(segments) && bodies_view(chunks@) == compressed_chunks(segments),
            Err(e) => compress_plan(
                bodies_view(series@),
                MAX_DECOMPRESSED_PAYLOAD as nat,
                MAX_PAYLOAD_BYTES as nat,
            ) matches Err(failure) && reports(e, failure),
        },
{
    split_and_compress_series_within(series, MAX_DECOMPRESSED_PAYLOAD, MAX_PAYLOAD_BYTES)
}

/// The request bodies of a list of encoded series under the ceilings
/// [`MAX_PAYLOAD_BYTES`] and [`MAX_DECOMPRESSED_PAYLOAD`]: compressed
/// posts where `gzip` is set, plain posts otherwise
pub open spec fn request_bodies(series: Seq<Seq<u8>>, gzip: bool) -> Result<
    Seq<Seq<u8>>,
    SplitFailure,
> {
    if gzip {
        match compress_plan(series, MAX_DECOMPRESSED_PAYLOAD as nat, MAX_PAYLOAD_BYTES as nat) {
            Ok(segments) => Ok(compressed_chunks(segments)),
            Err(failure) => Err(failure),
        }
    } else {
        match split_plan(series, MAX_PAYLOAD_BYTES as nat) {
            Some(segments) => Ok(plain_chunks(segments)),
            None => Err(SplitFailure::TooLarge),
        }
    }
}

/// The request bodies of a list of encoded series: compressed posts
/// where `gzip` is set, plain posts otherwise
pub fn metric_requests(series: &[Vec<u8>], gzip: bool) -> (r: Result<Vec<Vec<u8>>, Error>)
    ensures
        match r {
            Ok(chunks) => request_bodies(bodies_view(series@), gzip) == Ok::<
                Seq<Seq<u8>>,
                SplitFailure,
            >(bodies_view(chunks@)),
            Err(e) => request_bodies(bodies_view(series@), gzip) matches Err(failure) && reports(
                e,
                failure,
            ),
        },
{
    if gzip {
        split_and_compress_series(series)
    } else {
        split_series(series)
    }
}

/// A cut into plain posts drops no series and repeats none: its segments,
/// one after the other, are the list that was cut. There is at least one
/// post, every post is under the ceiling, and a list whose post is not
/// under the ceiling is cut into two posts or more.
pub proof fn lemma_split_plan_partitions(series: Seq<Seq<u8>>, wire_limit: nat)
    ensures
        split_plan(series, wire_limit) matches Some(segments) ==> {
            &&& segments.flatten() == series
            &&& segments.len() >= 1
            &&& forall|i: int|
                0 <= i < segments.len() ==> post_body(#[trigger] segments[i]).len() < wire_limit
            &&& post_body(series).len() >= wire_limit ==> segments.len() >= 2
        },
    decreases series.len(),
{
    if post_body(series).len() < wire_limit {
        seq![series].lemma_flatten_one_element();
    } else if series.len() >= 2 {
        let left = split_plan(left_half(series), wire_limit);
        let right = split_plan(right_half(series), wire_limit);
        lemma_split_plan_partitions(left_half(series), wire_limit);
        lemma_split_plan_partitions(right_half(series), wire_limit);
        if left is Some && right is Some {
            vstd::seq_lib::lemma_flatten_concat(left.unwrap(), right.unwrap());
            assert(left_half(series) + right_half(series) =~= series);
        }
    }
}

/// A cut into compressed posts drops no series and repeats none: its
/// segments, one after the other, are the list that was cut. There is at
/// least one post; the post of every segment is within the raw ceiling and
/// its compressed bytes are under the wire ceiling; and a list that does
/// not go out as one compressed post is cut into two posts or more.
pub proof fn lemma_compress_plan_partitions(
    series: Seq<Seq<u8>>,
    raw_limit: nat,
    wire_limit: nat,
)
    ensures
        compress_plan(series, raw_limit, wire_limit) matches Ok(segments) ==> {
            &&& segments.flatten() == series
            &&& segments.len() >= 1
            &&& forall|i: int|
                0 <= i < segments.len() ==> fits_compressed(
                    #[trigger] segments[i],
                    raw_limit,
                    wire_limit,
                )
            &&& !fits_compressed(series, raw_limit, wire_limit) ==> segments.len() >= 2
        },
    decreases series.len(),
{
    if post_body(series).len() <= raw_limit && gzip_encoding(post_body(series)) is None {
    } else if fits_compressed(series, raw_limit, wire_limit) {
        seq![series].lemma_flatten_one_element();
    } else if series.len() >= 2 {
        let left = compress_plan(left_half(series), raw_limit, wire_limit);
        let right = compress_plan(right_half(series), raw_limit, wire_limit);
        lemma_compress_plan_partitions(left_half(series), raw_limit, wire_limit);
        lemma_compress_plan_partitions(right_half(series), raw_limit, wire_limit);
        if left is Ok && right is Ok {
            vstd::seq_lib::lemma_flatten_concat(left.unwrap(), right.unwrap());
            assert(left_half(series) + right_half(series) =~= series);
        }
    }
}

/// Compression changes no cut's contents: every compressed post is the
/// gzip encoding of the very bytes that the same segment is sent as when
/// compression is off.
pub proof fn lemma_compressed_chunks_encode_plain(segments: Seq<Seq<Seq<u8>>>)
    ensures
        compressed_chunks(segments).len() == plain_chunks(segments).len(),
        forall|i: int|
            0 <= i < segments.len() ==> #[trigger] compressed_chunks(segments)[i] == gzip_encoding(
                plain_chunks(segments)[i],
            ).unwrap(),
{
}

} // verus!
