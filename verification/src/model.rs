//! Import of a scene file's binary data: the buffers that the file embeds
//! as base64 text, and index lists as triangles. The renderer does not
//! depend on it.

use vstd::prelude::*;
use vstd::slice::slice_subrange;
use vstd::string::*;

verus! {

/// `base64::DecodeError`, the error of the base64 decoder. Nothing is said
/// of its values.
#[verifier::external_type_specification]
#[verifier::external_body]
pub struct ExDecodeError(base64::DecodeError);

/// What the base64 decoder makes of `text` in its standard configuration:
/// the bytes, or nothing where it reports an error.
pub uninterp spec fn base64_decoded(text: Seq<u8>) -> Option<Seq<u8>>;

/// Calls `base64::decode_config_buf` with the configuration `STANDARD`
/// and an empty buffer, and hands the buffer out if the call succeeds.
/// That function decodes behind what the buffer holds and, on success,
/// leaves in it what it held and what was decoded. It first counts the
/// chunks of eight bytes of the text with checked arithmetic, which
/// panics if seven more than the text's length is no machine number.
#[verifier::external_body]
fn decode_standard(text: &[u8]) -> (outcome: Result<Vec<u8>, base64::DecodeError>)
    requires
        text@.len() + 7 <= usize::MAX,
    ensures
        outcome is Ok <==> base64_decoded(text@) is Some,
        outcome matches Ok(bytes) ==> bytes@ == base64_decoded(text@)->0,
{
    let mut buffer = Vec::new();
    base64::decode_config_buf(text, base64::STANDARD, &mut buffer).map(|_| buffer)
}

/// Where a buffer of a scene file comes from.
#[derive(Clone, Debug, PartialEq, Eq)]
pub enum Source {
    /// The binary chunk of the file.
    Bin,
    /// A URI, as bytes.
    Uri(Vec<u8>),
}

/// Why a buffer cannot be taken in.
#[derive(Clone, Copy, Debug, PartialEq, Eq, Structural)]
pub enum BufferError {
    /// The buffer is not given as base64 text in a data URI.
    Unsupported,
    /// The text is no base64.
    Malformed,
}

/// A buffer that cannot be taken in, and its number.
#[derive(Clone, Copy, Debug, PartialEq, Eq, Structural)]
pub struct CollectError {
    pub index: usize,
    pub fault: BufferError,
}

/// The start of a data URI that holds a buffer as base64 text.
pub open spec fn data_prefix() -> Seq<u8> {
    "data:application/gltf-buffer;base64,".spec_bytes()
}

/// The text of a data URI: what follows the prefix.
pub open spec fn payload(uri: Seq<u8>) -> Option<Seq<u8>> {
    if data_prefix().len() <= uri.len() && uri.subrange(0, data_prefix().len() as int)
        == data_prefix() {
        Some(uri.subrange(data_prefix().len() as int, uri.len() as int))
    } else {
        None
    }
}

/// Why the URI `uri` holds no buffer.
pub open spec fn uri_fault(uri: Seq<u8>) -> Option<BufferError> {
    match payload(uri) {
        None => Some(BufferError::Unsupported),
        Some(text) => if base64_decoded(text) is None {
            Some(BufferError::Malformed)
        } else {
            None
        },
    }
}

/// The bytes that the URI `uri` holds, if it can be taken in.
pub open spec fn uri_data(uri: Seq<u8>) -> Seq<u8> {
    base64_decoded(payload(uri)->0)->0
}

/// Why a source holds no buffer.
pub open spec fn source_fault(source: Source) -> Option<BufferError> {
    match source {
        Source::Bin => Some(BufferError::Unsupported),
        Source::Uri(uri) => uri_fault(uri@),
    }
}

/// Whether the text of a source is short enough for the decoder to count
/// its chunks.
pub open spec fn is_countable(source: Source) -> bool {
    source matches Source::Uri(uri) ==> uri@.len() + 7 <= usize::MAX
}

/// The data and the ranges of the first `n` sources, or the first source
/// among them that cannot be taken in.
pub open spec fn collected(sources: Seq<Source>, n: int) -> Result<
    (Seq<u8>, Seq<(usize, usize)>),
    CollectError,
>
    decreases n,
{
    if n <= 0 {
        Ok((Seq::empty(), Seq::empty()))
    } else {
        match collected(sources, n - 1) {
            Err(e) => Err(e),
            Ok((data, ranges)) => match source_fault(sources[n - 1]) {
                Some(fault) => Err(CollectError { index: (n - 1) as usize, fault }),
                None => {
                    let piece = uri_data(sources[n - 1]->Uri_0@);
                    Ok(
                        (
                            data + piece,
                            ranges.push(
                                (data.len() as usize, (data.len() + piece.len()) as usize),
                            ),
                        ),
                    )
                },
            },
        }
    }
}

proof fn collected_stays_failed(sources: Seq<Source>, n: int, m: int)
    requires
        0 <= n <= m,
        collected(sources, n) is Err,
    ensures
        collected(sources, m) == collected(sources, n),
    decreases m,
{
    if n < m {
        collected_stays_failed(sources, n, m - 1);
    }
}

/// The data of all buffers of a scene file, one behind the other, and for
/// each buffer where it starts and ends.
#[derive(Clone, Debug, PartialEq, Eq)]
pub struct GltfBuffers(pub Vec<u8>, pub Vec<(usize, usize)>);

fn has_prefix(bytes: &[u8], prefix: &[u8]) -> (b: bool)
    ensures
        b == (prefix@.len() <= bytes@.len() && bytes@.subrange(0, prefix@.len() as int)
            == prefix@),
{
    if prefix.len() > bytes.len() {
        return false;
    }
    let mut i: usize = 0;
    while i < prefix.len()
        invariant
            i <= prefix@.len() <= bytes@.len(),
            bytes@.subrange(0, i as int) == prefix@.subrange(0, i as int),
        decreases prefix@.len() - i,
    {
        if bytes[i] != prefix[i] {
            assert(bytes@.subrange(0, prefix@.len() as int)[i as int] != prefix@[i as int]);
            return false;
        }
        assert(bytes@.subrange(0, i + 1) =~= bytes@.subrange(0, i as int).push(bytes@[i as int]));
        assert(prefix@.subrange(0, i + 1) =~= prefix@.subrange(0, i as int).push(
            prefix@[i as int],
        ));
        i += 1;
    }
    assert(prefix@.subrange(0, i as int) =~= prefix@);
    true
}

impl GltfBuffers {
    /// Every range lies within the data.
    pub open spec fn wf(&self) -> bool {
        forall|i: int|
            0 <= i < self.1@.len() ==> (#[trigger] self.1@[i]).0 <= self.1@[i].1 <= self.0@.len()
    }

    /// No buffers.
    pub fn new() -> (buffers: GltfBuffers)
        ensures
            buffers.0@.len() == 0,
            buffers.1@.len() == 0,
            buffers.wf(),
    {
        GltfBuffers(Vec::new(), Vec::new())
    }

    /// The data of the buffer with the given number, if there is one.
    pub fn buffer(&self, index: usize) -> (data: Option<&[u8]>)
        requires
            self.wf(),
        ensures
            index >= self.1@.len() ==> data is None,
            index < self.1@.len() ==> (data matches Some(bytes) && bytes@ == self.0@.subrange(
                self.1@[index as int].0 as int,
                self.1@[index as int].1 as int,
            )),
    {
        if index < self.1.len() {
            let (start, end) = self.1[index];
            Some(slice_subrange(self.0.as_slice(), start, end))
        } else {
            None
        }
    }

    /// Takes `data` as the next buffer, behind the data of the buffers
    /// before it.
    pub fn push(&mut self, data: Vec<u8>)
        requires
            old(self).wf(),
        ensures
            final(self).wf(),
            final(self).0@ == old(self).0@ + data@,
            final(self).1@ == old(self).1@.push(
                (old(self).0@.len() as usize, (old(self).0@.len() + data@.len()) as usize),
            ),
    {
        let mut data = data;
        let start = self.0.len();
        self.0.append(&mut data);
        let end = self.0.len();
        self.1.push((start, end));
    }
}

/// Decodes the buffer that a data URI holds as base64 text.
pub fn decode_data_uri(uri: &[u8]) -> (outcome: Result<Vec<u8>, BufferError>)
    requires
        uri@.len() + 7 <= usize::MAX,
    ensures
        outcome is Ok <==> uri_fault(uri@) is None,
        outcome matches Ok(data) ==> data@ == uri_data(uri@),
        outcome matches Err(e) ==> uri_fault(uri@) == Some(e),
{
    let prefix = "data:application/gltf-buffer;base64,".as_bytes();
    if !has_prefix(uri, prefix) {
        return Err(BufferError::Unsupported);
    }
    let text = slice_subrange(uri, prefix.len(), uri.len());
    match decode_standard(text) {
        Ok(data) => Ok(data),
        Err(_) => Err(BufferError::Malformed),
    }
}

/// Takes in the buffers of a scene file in order. Every buffer has to be
/// given as base64 text in a data URI.
pub fn collect_buffers(sources: &[Source]) -> (outcome: Result<GltfBuffers, CollectError>)
    requires
        forall|i: int| 0 <= i < sources@.len() ==> is_countable(#[trigger] sources@[i]),
    ensures
        outcome matches Ok(buffers) ==> buffers.wf() && collected(sources@, sources@.len() as int)
            == Ok::<_, CollectError>((buffers.0@, buffers.1@)),
        outcome matches Err(e) ==> collected(sources@, sources@.len() as int) == Err::<
            (Seq<u8>, Seq<(usize, usize)>),
            _,
        >(e),
{
    let mut buffers = GltfBuffers::new();
    let mut i: usize = 0;
    assert(buffers.0@ =~= Seq::empty() && buffers.1@ =~= Seq::empty());
    while i < sources.len()
        invariant
            i <= sources@.len(),
            forall|i: int| 0 <= i < sources@.len() ==> is_countable(#[trigger] sources@[i]),
            buffers.wf(),
            collected(sources@, i as int) == Ok::<_, CollectError>((buffers.0@, buffers.1@)),
        decreases sources@.len() - i,
    {
        assert(is_countable(sources@[i as int]));
        let decoded = match &sources[i] {
            Source::Bin => Err(BufferError::Unsupported),
            Source::Uri(uri) => decode_data_uri(uri.as_slice()),
        };
        match decoded {
            Ok(data) => {
                buffers.push(data);
            },
            Err(fault) => {
                proof {
                    collected_stays_failed(sources@, i + 1, sources@.len() as int);
                }
                return Err(CollectError { index: i, fault });
            },
        }
        i += 1;
    }
    Ok(buffers)
}

/// The value at place `j` of triangle `k` of an index list: the index at
/// that place, or zero behind the end of the list.
pub open spec fn triple_entry(indices: Seq<u32>, k: int, j: int) -> u32 {
    if 3 * k + j < indices.len() {
        indices[3 * k + j]
    } else {
        0
    }
}

/// Groups an index list into triangles. A last triangle that the list
/// does not fill ends in zeros.
pub fn index_triples(indices: &[u32]) -> (triples: Vec<[u32; 3]>)
    ensures
        triples@.len() == (indices@.len() + 2) / 3,
        forall|k: int, j: int|
            0 <= k < triples@.len() && 0 <= j < 3 ==> #[trigger] triples@[k]@[j] == triple_entry(
                indices@,
                k,
                j,
            ),
{
    let mut triples: Vec<[u32; 3]> = Vec::new();
    let mut at: usize = 0;
    while at < indices.len()
        invariant
            at <= indices@.len() + 2,
            at % 3 == 0,
            triples@.len() == at / 3,
            forall|k: int, j: int|
                0 <= k < triples@.len() && 0 <= j < 3 ==> #[trigger] triples@[k]@[j]
                    == triple_entry(indices@, k, j),
        decreases indices@.len() + 2 - at,
    {
        let len = indices.len();
        let first = indices[at];
        let second = if len - at > 1 {
            indices[at + 1]
        } else {
            0
        };
        let third = if len - at > 2 {
            indices[at + 2]
        } else {
            0
        };
        let triple = [first, second, third];
        let ghost k = triples@.len() as int;
        triples.push(triple);
        assert(triple@[0] == first && triple@[1] == second && triple@[2] == third);
        assert(3 * k == at);
        if len - at < 3 {
            at = len - len % 3 + 3;
            assert(at % 3 == 0 && at / 3 == k + 1) by {
                assert(len == 3 * k + 1 || len == 3 * k + 2);
            }
        } else {
            at = at + 3;
        }
    }
    triples
}

} // verus!
