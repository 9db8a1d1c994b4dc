//! The demuxer capability, its builder, and the detection of a container
//! format from a sample of its bytes.

use vstd::prelude::*;
use std::io::SeekFrom;
use crate::data::{Packet, Stream};
use crate::error::ErrorKind;
use crate::instance::Instance;
use crate::selection::{select, selection};

verus! {

/// `std::io::SeekFrom`: where the byte source is to be positioned next.
/// Nothing is claimed of it; the core carries it from demuxer to caller.
#[verifier::external_type_specification]
#[verifier::external_body]
pub struct ExSeekFrom(SeekFrom);

/// What one step of reading a container brings.
#[derive(Clone, Debug, PartialEq)]
pub enum Event {
    /// A packet is available.
    NewPacket(Packet),
    /// A stream has been discovered.
    NewStream(Stream),
    /// Nothing can be said before the source holds more data.
    MoreDataNeeded,
}

/// The byte source that a demuxer reads from: a window of bytes that have
/// been read ahead, which the owner of the source can widen.
pub trait Buffered {
    /// The bytes read ahead so far.
    fn data(&self) -> &[u8];

    /// Makes room for `len` more bytes to be read ahead.
    fn grow(&mut self, len: usize);
}

/// What a demuxer has learned of the container as a whole.
pub struct GlobalInfo {
    /// The playing time, in units of the container's time base, if known.
    pub duration: Option<u64>,
    /// The streams discovered so far.
    pub streams: Vec<Stream>,
}

/// What a concrete demuxer offers.
///
/// A demuxer is opened once, then reads the headers once, and from then on
/// reads packet after packet. Every reading step answers with the position
/// that the byte source has to take before the next step.
pub trait Demuxer {
    /// Prepares the demuxer. Called once, before anything else.
    fn open(&mut self);

    /// Reads the headers from the start of the source and fills `info`, or
    /// reports `InvalidData` where the bytes are no header of this format.
    fn read_headers(&mut self, buf: &Box<dyn Buffered>, info: &mut GlobalInfo) -> Result<
        SeekFrom,
        ErrorKind,
    >;

    /// Takes the next step through the source and tells what it brought.
    fn read_packet(&mut self, buf: &Box<dyn Buffered>) -> Result<(SeekFrom, Event), ErrorKind>;
}

/// What is known of one container format.
pub struct DemuxerDescription {
    /// The name of the format.
    pub name: &'static str,
    /// A description for people.
    pub description: &'static str,
    /// The file extensions in use for the format.
    pub extensions: &'static [&'static str],
    /// The MIME types in use for the format.
    pub mime: &'static [&'static str],
}

/// The factory of one demuxer implementation, and the judge of whether a
/// sample is of its format.
pub trait DemuxerBuilder {
    /// The score that `probe` gives `data`, for a builder that commits to
    /// one. The default commits to nothing.
    open spec fn score_on(&self, data: Seq<u8>) -> Option<u8> {
        None
    }

    /// The record that describes the format.
    fn describe(&self) -> &'static DemuxerDescription;

    /// Scores how well `data`, the first bytes of a source, match the format.
    /// A sample too short to tell is no error: it scores low.
    fn probe(&self, data: &[u8]) -> (score: u8)
        ensures
            self.score_on(data@) matches Some(committed) ==> score == committed,
    ;

    /// Builds a fresh demuxer.
    fn allocate(&self) -> Instance<dyn Demuxer>;
}

/// `scores` may be what `builders` answer to `data`, one score each: where a
/// builder commits to a score, it is that one.
pub open spec fn answers<B: DemuxerBuilder + ?Sized>(
    builders: Seq<&'static B>,
    data: Seq<u8>,
    scores: Seq<u8>,
) -> bool {
    &&& scores.len() == builders.len()
    &&& forall|i: int|
        0 <= i < builders.len() ==> ((#[trigger] builders[i]).score_on(data) matches Some(
            committed,
        ) ==> scores[i] == committed)
}

/// Every builder commits to a score for `data`.
pub open spec fn all_commit<B: DemuxerBuilder + ?Sized>(
    builders: Seq<&'static B>,
    data: Seq<u8>,
) -> bool {
    forall|i: int| 0 <= i < builders.len() ==> (#[trigger] builders[i]).score_on(data) is Some
}

/// The scores that the builders commit to for `data`.
pub open spec fn committed_scores<B: DemuxerBuilder + ?Sized>(
    builders: Seq<&'static B>,
    data: Seq<u8>,
) -> Seq<u8> {
    Seq::new(builders.len(), |i: int| builders[i].score_on(data)->0)
}

/// The builder at the winning position, if there is a winner.
pub open spec fn pick<B: ?Sized>(builders: Seq<&'static B>, winner: Option<int>) -> Option<
    &'static B,
> {
    match winner {
        Some(i) => Some(builders[i]),
        None => None,
    }
}

/// Detection is a function of the builders and the sample, wherever every
/// builder's score is: two rounds of answers are the same answers, and lead
/// to the same builder or to none both times.
pub proof fn law_detection_is_repeatable<B: DemuxerBuilder + ?Sized>(
    builders: Seq<&'static B>,
    data: Seq<u8>,
    first: Seq<u8>,
    second: Seq<u8>,
)
    requires
        all_commit(builders, data),
        answers(builders, data, first),
        answers(builders, data, second),
    ensures
        first == second,
        first == committed_scores(builders, data),
        pick(builders, selection(first)) == pick(builders, selection(second)),
{
    let committed = committed_scores(builders, data);
    assert forall|i: int| 0 <= i < builders.len() implies first[i] == committed[i] && second[i]
        == committed[i] by {
        assert(builders[i].score_on(data) is Some);
    }
    assert(first =~= committed);
    assert(second =~= committed);
}

/// Asks every builder, in order, how well `data` matches its format.
fn ask_all<B: DemuxerBuilder + ?Sized>(demuxers: &[&'static B], data: &[u8]) -> (scores: Vec<u8>)
    ensures
        answers(demuxers@, data@, scores@),
{
    let mut scores: Vec<u8> = Vec::with_capacity(demuxers.len());
    let mut i: usize = 0;
    while i < demuxers.len()
        invariant
            i <= demuxers@.len(),
            scores@.len() == i,
            forall|k: int|
                0 <= k < i ==> ((#[trigger] demuxers@[k]).score_on(data@) matches Some(
                    committed,
                ) ==> scores@[k] == committed),
        decreases demuxers@.len() - i,
    {
        let score = demuxers[i].probe(data);
        scores.push(score);
        i += 1;
    }
    scores
}

/// Finds the format of `data` among `demuxers`: the builder that scores
/// highest, the earliest of them where several do, provided the score is
/// above the level of a matching extension.
pub fn probe<'a, B: DemuxerBuilder + ?Sized>(demuxers: &[&'static B], data: &[u8]) -> (found:
    Option<&'a B>)
    ensures
        exists|scores: Seq<u8>| #[trigger]
            answers(demuxers@, data@, scores) && found == pick(demuxers@, selection(scores)),
        all_commit(demuxers@, data@) ==> found == pick(
            demuxers@,
            selection(committed_scores(demuxers@, data@)),
        ),
{
    let scores = ask_all(demuxers, data);
    proof {
        if all_commit(demuxers@, data@) {
            law_detection_is_repeatable(demuxers@, data@, scores@, scores@);
        }
    }
    match select(scores.as_slice()) {
        Some(i) => Some(demuxers[i]),
        None => None,
    }
}

} // verus!
