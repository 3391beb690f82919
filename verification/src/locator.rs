//! Firmware discovery: a state machine that scans the entries of the system
//! directory, one host-reported event at a time, and keeps the first
//! acceptable candidate for the requested region.
//!
//! The host walks the directory in whatever order the filesystem yields and
//! reports each entry here. The locator asks for a file's contents only when
//! the entry is a regular file of exactly `BIOS_SIZE` bytes — the size filter
//! short-circuits, so no other file is ever read. Candidate failures (bad
//! size, short read, unreadable file, unrecognized blob, known bad dump,
//! region mismatch) only move the scan to the next entry; they are never
//! escalated. The first acceptable candidate wins; no ranking is performed,
//! and directory order is accepted as-is.

use vstd::prelude::*;

use crate::firmware::{spec_accepts, FirmwareImage, FirmwareMetadata, Region, BIOS_SIZE};

verus! {

/// What the locator learned of one directory entry: either the entry was
/// skipped without its contents being read (not a regular file, wrong size,
/// unreadable metadata, or a failed or short read), or a full-size read
/// produced `bytes` whose fingerprint lookup returned `looked`.
pub ghost enum ScanEvent {
    Skipped,
    Candidate { bytes: Seq<u8>, looked: Option<FirmwareMetadata> },
}

/// The image, if any, that one event contributes for `region`: only a
/// candidate of exactly `BIOS_SIZE` bytes whose lookup outcome qualifies.
pub open spec fn event_result(region: Region, e: ScanEvent) -> Option<(Seq<u8>, FirmwareMetadata)> {
    match e {
        ScanEvent::Skipped => None,
        ScanEvent::Candidate { bytes, looked } => {
            if bytes.len() == BIOS_SIZE && spec_accepts(region, looked) {
                Some((bytes, looked->0))
            } else {
                None
            }
        },
    }
}

/// First-match-wins scan: the result contributed by the earliest accepting
/// event, or nothing once the events are exhausted.
pub open spec fn scan(region: Region, events: Seq<ScanEvent>) -> Option<(Seq<u8>, FirmwareMetadata)>
    decreases events.len(),
{
    if events.len() == 0 {
        None
    } else if event_result(region, events.first()) is Some {
        event_result(region, events.first())
    } else {
        scan(region, events.drop_first())
    }
}

/// Appending one event changes the scan result only when nothing was found
/// before it; the newcomer then contributes its own result.
proof fn lemma_scan_push(region: Region, events: Seq<ScanEvent>, e: ScanEvent)
    ensures
        scan(region, events.push(e)) == (if scan(region, events) is Some {
            scan(region, events)
        } else {
            event_result(region, e)
        }),
    decreases events.len(),
{
    if events.len() == 0 {
        assert(events.push(e).first() == e);
        assert(events.push(e).drop_first() =~= events);
    } else {
        assert(events.push(e).first() == events.first());
        assert(events.push(e).drop_first() =~= events.drop_first().push(e));
        lemma_scan_push(region, events.drop_first(), e);
    }
}

/// Scans a directory for the first acceptable firmware image.
pub struct Locator {
    region: Region,
    found: Option<FirmwareImage>,
    history: Ghost<Seq<ScanEvent>>,
}

impl Locator {
    /// The region a match must have.
    pub closed spec fn target(self) -> Region {
        self.region
    }

    /// The events reported so far, oldest first.
    pub closed spec fn events(self) -> Seq<ScanEvent> {
        self.history@
    }

    /// The held image is exactly what a first-match scan of the reported
    /// events yields.
    pub closed spec fn wf(self) -> bool {
        match scan(self.region, self.history@) {
            None => self.found is None,
            Some(p) => {
                &&& self.found matches Some(img)
                &&& img.wf()
                &&& img.bytes() == p.0
                &&& img.meta() == p.1
            },
        }
    }

    /// A fresh locator for `region`, before any entry was reported.
    pub fn new(region: Region) -> (l: Locator)
        ensures
            l.wf(),
            l.target() == region,
            l.events() =~= Seq::<ScanEvent>::empty(),
    {
        Locator { region, found: None, history: Ghost(Seq::empty()) }
    }

    /// Whether the contents of an entry should be read at all: only while no
    /// match is held, and only for a regular file of exactly `BIOS_SIZE`
    /// bytes. The contents of every other file stay unread.
    pub fn wants_entry(&self, is_regular_file: bool, size: u64) -> (r: bool)
        requires
            self.wf(),
        ensures
            r == spec_wants(*self, is_regular_file, size),
    {
        self.found.is_none() && is_regular_file && size == BIOS_SIZE as u64
    }

    /// Record an entry that was passed over without a full read: not a
    /// regular file, wrong size, unreadable metadata, an unopenable file, a
    /// read error, or a read that ended short of `BIOS_SIZE`. The scan
    /// outcome is unchanged.
    pub fn note_skipped(&mut self)
        requires
            old(self).wf(),
        ensures
            final(self).wf(),
            final(self).target() == old(self).target(),
            final(self).events() == old(self).events().push(ScanEvent::Skipped),
            scan(final(self).target(), final(self).events()) == scan(
                old(self).target(),
                old(self).events(),
            ),
    {
        proof {
            lemma_scan_push(self.region, self.history@, ScanEvent::Skipped);
        }
        self.history = Ghost(self.history@.push(ScanEvent::Skipped));
    }

    /// Offer the fully read contents of a candidate together with the
    /// engine's fingerprint lookup outcome for those bytes. The candidate is
    /// accepted exactly when no earlier match is held, the read is complete,
    /// and the outcome qualifies for the target region; a rejection of any
    /// kind only moves the scan along.
    pub fn offer(&mut self, data: Vec<u8>, looked: Option<FirmwareMetadata>) -> (accepted: bool)
        requires
            old(self).wf(),
        ensures
            final(self).wf(),
            final(self).target() == old(self).target(),
            final(self).events() == old(self).events().push(
                (ScanEvent::Candidate { bytes: data@, looked }),
            ),
            accepted == (scan(old(self).target(), old(self).events()) is None
                && data@.len() == BIOS_SIZE && spec_accepts(old(self).target(), looked)),
    {
        proof {
            lemma_scan_push(
                self.region,
                self.history@,
                ScanEvent::Candidate { bytes: data@, looked },
            );
        }
        self.history = Ghost(self.history@.push(ScanEvent::Candidate { bytes: data@, looked }));
        let mut accepted = false;
        if self.found.is_none() && data.len() == BIOS_SIZE {
            match looked {
                Some(md) => {
                    if !md.known_bad && md.region == self.region {
                        self.found = Some(FirmwareImage::from_parts(data, md));
                        accepted = true;
                    }
                },
                None => {},
            }
        }
        accepted
    }

    /// End of the directory walk: the first accepted image, or nothing when
    /// no candidate qualified — a valid "no match" outcome, not an error
    /// distinct from "not found".
    pub fn into_result(self) -> (r: Option<FirmwareImage>)
        requires
            self.wf(),
        ensures
            match scan(self.target(), self.events()) {
                None => r is None,
                Some(p) => {
                    &&& r matches Some(img)
                    &&& img.wf()
                    &&& img.bytes() == p.0
                    &&& img.meta() == p.1
                },
            },
            r matches Some(img) ==> img.meta().region == self.target() && !img.meta().known_bad,
    {
        proof {
            lemma_scan_result_is_acceptable(self.region, self.history@);
        }
        self.found
    }
}

/// Accumulates the contents of one candidate file, chunk by chunk, up to
/// exactly `BIOS_SIZE` bytes. The host reads from the file and hands each
/// chunk over; a read that yields no bytes before the buffer is full is a
/// short read, and the host then abandons the candidate (`note_skipped`)
/// instead of completing it.
pub struct CandidateBuffer {
    data: Vec<u8>,
}

impl CandidateBuffer {
    /// The bytes gathered so far.
    pub closed spec fn bytes(self) -> Seq<u8> {
        self.data@
    }

    /// Never more than `BIOS_SIZE` bytes are gathered.
    pub closed spec fn wf(self) -> bool {
        self.data@.len() <= BIOS_SIZE
    }

    /// An empty buffer for a fresh candidate.
    pub fn new() -> (b: CandidateBuffer)
        ensures
            b.wf(),
            b.bytes() =~= Seq::<u8>::empty(),
    {
        CandidateBuffer { data: Vec::new() }
    }

    /// How many bytes are still missing; the host reads at most this many
    /// at a time.
    pub fn missing(&self) -> (n: usize)
        requires
            self.wf(),
        ensures
            n == BIOS_SIZE - self.bytes().len(),
    {
        BIOS_SIZE - self.data.len()
    }

    /// Append one chunk the host read from the file.
    pub fn push_chunk(&mut self, chunk: &Vec<u8>)
        requires
            old(self).wf(),
            chunk@.len() <= BIOS_SIZE - old(self).bytes().len(),
        ensures
            final(self).wf(),
            final(self).bytes() == old(self).bytes() + chunk@,
    {
        let mut i: usize = 0;
        while i < chunk.len()
            invariant
                i <= chunk@.len(),
                chunk@.len() <= BIOS_SIZE - old(self).bytes().len(),
                self.data@ == old(self).bytes() + chunk@.subrange(0, i as int),
            decreases chunk@.len() - i,
        {
            self.data.push(chunk[i]);
            i = i + 1;
            assert(self.data@ == old(self).bytes() + chunk@.subrange(0, i as int)) by {
                assert(chunk@.subrange(0, i as int) =~= chunk@.subrange(0, i - 1).push(
                    chunk@[i - 1],
                ));
            }
        }
        assert(chunk@.subrange(0, chunk@.len() as int) =~= chunk@);
    }

    /// Whether the buffer holds a full image.
    pub fn is_complete(&self) -> (r: bool)
        ensures
            r == (self.bytes().len() == BIOS_SIZE),
    {
        self.data.len() == BIOS_SIZE
    }

    /// Hand the gathered bytes over, to be offered to the locator.
    pub fn into_data(self) -> (d: Vec<u8>)
        ensures
            d@ == self.bytes(),
    {
        self.data
    }
}

/// When the locator asks for an entry's contents.
pub open spec fn spec_wants(l: Locator, is_regular_file: bool, size: u64) -> bool {
    scan(l.target(), l.events()) is None && is_regular_file && size == BIOS_SIZE
}

/// The size filter short-circuits: for an entry whose size differs from
/// `BIOS_SIZE` the locator never asks for the contents.
pub proof fn lemma_size_filter_short_circuits(l: Locator, is_regular_file: bool, size: u64)
    requires
        size != BIOS_SIZE,
    ensures
        !spec_wants(l, is_regular_file, size),
{
}

/// A read that ended before `BIOS_SIZE` bytes never yields an image,
/// whatever the lookup said of the partial contents.
pub proof fn lemma_short_read_never_accepted(
    region: Region,
    bytes: Seq<u8>,
    looked: Option<FirmwareMetadata>,
)
    requires
        bytes.len() < BIOS_SIZE,
    ensures
        event_result(region, (ScanEvent::Candidate { bytes, looked })) is None,
{
}

/// A directory with no acceptable candidate scans to "no match".
pub proof fn lemma_no_match_yields_none(region: Region, events: Seq<ScanEvent>)
    requires
        forall|j: int| 0 <= j < events.len() ==> event_result(region, #[trigger] events[j]) is None,
    ensures
        scan(region, events) is None,
    decreases events.len(),
{
    if events.len() > 0 {
        assert(event_result(region, events[0]) is None);
        lemma_no_match_yields_none(region, events.drop_first());
    }
}

/// First match wins: the earliest accepting event decides the scan, whatever
/// stands after it.
pub proof fn lemma_first_match_wins(region: Region, events: Seq<ScanEvent>, i: int)
    requires
        0 <= i < events.len(),
        event_result(region, events[i]) is Some,
        forall|j: int| 0 <= j < i ==> event_result(region, #[trigger] events[j]) is None,
    ensures
        scan(region, events) == event_result(region, events[i]),
    decreases events.len(),
{
    if i > 0 {
        assert(event_result(region, events[0]) is None);
        let rest = events.drop_first();
        assert(rest[i - 1] == events[i]);
        assert(forall|j: int| 0 <= j < i - 1 ==> event_result(region, #[trigger] rest[j]) is None)
            by {
            assert(forall|j: int| 0 <= j < rest.len() ==> #[trigger] rest[j] == events[j + 1]);
        }
        lemma_first_match_wins(region, rest, i - 1);
    }
}

/// A directory holding exactly one acceptable candidate scans to that
/// candidate's image, wherever it stands among the rejected entries.
pub proof fn lemma_single_match_is_found(region: Region, events: Seq<ScanEvent>, i: int)
    requires
        0 <= i < events.len(),
        event_result(region, events[i]) is Some,
        forall|j: int| 0 <= j < events.len() && j != i ==> event_result(
            region,
            #[trigger] events[j],
        ) is None,
    ensures
        scan(region, events) == event_result(region, events[i]),
{
    lemma_first_match_wins(region, events, i);
}

/// Soundness of the scan: whatever it returns was accepted under the
/// locator's own rule — a full-size image whose metadata matches the
/// requested region and is not a known bad dump.
pub proof fn lemma_scan_result_is_acceptable(region: Region, events: Seq<ScanEvent>)
    ensures
        scan(region, events) matches Some(p) ==> {
            &&& p.0.len() == BIOS_SIZE
            &&& p.1.region == region
            &&& !p.1.known_bad
        },
    decreases events.len(),
{
    if events.len() > 0 {
        lemma_scan_result_is_acceptable(region, events.drop_first());
    }
}

} // verus!
