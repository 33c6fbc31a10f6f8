//! Streams: the flattening of records and their elements into one
//! sequence of routing events.
//!
//! A stream does no input or output of its own. It says which pull it
//! waits for, takes what the data source answered to that pull, and says
//! what came of it: an item to hand on, nothing yet, or the end.

use vstd::prelude::*;

use crate::element::{Element, ElementPull, ElementView, ELEMENT_NONE};
use crate::error::BgpStreamError;
use crate::record::{
    pull_class, record_pulled_as, record_time_of, PulledRecord, Record, RecordClass, RecordPull,
    RECORD_STATUS_CORRUPTED_RECORD, RECORD_STATUS_OUTSIDE_TIME_INTERVAL,
};

pub use crate::collector::{Collector, RipeNcc, RouteView};
pub use crate::query::{
    ElementTypeDescr, FilterInterval, IpVersion, PrefixMatchType, Project, Query, RecordType,
    TimeUnit,
};

verus! {

/// A started stream. It holds the one record that is being read, if any,
/// and remembers whether it has come to its end.
#[derive(Debug, Clone)]
pub struct BgpStream {
    pub current_record: Option<Record>,
    pub finished: bool,
}

/// The pull that a stream waits for.
#[derive(Debug, Clone, Copy, PartialEq, Eq, Hash, Structural)]
pub enum Demand {
    /// The next record of the data source.
    Record,
    /// The next element of the record that is being read.
    Element,
    /// Nothing: the stream is over.
    Nothing,
}

/// What came of one answer of the data source.
#[derive(Debug)]
pub enum Progress {
    /// No item yet: the stream waits for its next pull.
    Again,
    /// The next item of the sequence: an element or an error. After an
    /// error the stream is over.
    Item(Result<Element, BgpStreamError>),
    /// The stream is over and has no further item.
    Finished,
}

/// What a [`Progress`] holds.
pub enum ProgressView {
    Again,
    Item(Result<ElementView, BgpStreamError>),
    Finished,
}

impl View for Progress {
    type V = ProgressView;

    open spec fn view(&self) -> ProgressView {
        match *self {
            Progress::Again => ProgressView::Again,
            Progress::Item(Ok(element)) => ProgressView::Item(Ok(element@)),
            Progress::Item(Err(e)) => ProgressView::Item(Err(e)),
            Progress::Finished => ProgressView::Finished,
        }
    }
}

impl BgpStream {
    /// A stream that waits for its first record.
    pub open spec fn started() -> BgpStream {
        BgpStream { current_record: None, finished: false }
    }

    /// A stream that is over.
    pub open spec fn over() -> BgpStream {
        BgpStream { current_record: None, finished: true }
    }

    /// A stream that reads the given record.
    pub open spec fn reading(record: Record) -> BgpStream {
        BgpStream { current_record: Some(record), finished: false }
    }

    /// A stream is well formed when the record that it reads, if any, is
    /// well formed and not exhausted, and when it reads none once it is
    /// over.
    pub open spec fn wf(self) -> bool {
        match self.current_record {
            Some(record) => !self.finished && !record.exhausted && record.wf(),
            None => true,
        }
    }

    /// The pull that the stream waits for.
    pub open spec fn spec_demand(self) -> Demand {
        if self.finished {
            Demand::Nothing
        } else if self.current_record is Some {
            Demand::Element
        } else {
            Demand::Record
        }
    }

    /// The stream after the answer to a record pull, and what came of the
    /// answer.
    ///
    /// A stream that is over stays as it is. Otherwise the record that was
    /// being read is given up, and the answer decides: the end of the
    /// data source ends the stream; a record outside the time interval is
    /// skipped without an item; a valid record is read from now on; every
    /// failure is handed on as an item and ends the stream.
    pub open spec fn spec_record_pulled(self, pull: RecordPull) -> (BgpStream, ProgressView) {
        if self.finished {
            (self, ProgressView::Finished)
        } else {
            match pull_class(pull) {
                RecordClass::EndOfStream => (Self::over(), ProgressView::Finished),
                RecordClass::Skipped => (Self::started(), ProgressView::Again),
                RecordClass::Failed(e) => (Self::over(), ProgressView::Item(Err(e))),
                RecordClass::Valid => match record_time_of(pull.record->Some_0) {
                    Err(e) => (Self::over(), ProgressView::Item(Err(e))),
                    Ok(time) => (
                        Self::reading(Record { raw: pull.record->Some_0, time, exhausted: false }),
                        ProgressView::Again,
                    ),
                },
            }
        }
    }

    /// The stream after the answer to an element pull, and what came of
    /// the answer.
    ///
    /// A stream that is over, or that reads no record, stays as it is.
    /// Otherwise an element is handed on and the record is read further;
    /// the end of the record gives the record up without an item; every
    /// failure is handed on as an item and ends the stream.
    pub open spec fn spec_element_pulled(self, pull: ElementPull) -> (BgpStream, ProgressView) {
        if self.finished {
            (self, ProgressView::Finished)
        } else {
            match self.current_record {
                None => (self, ProgressView::Again),
                Some(record) => match record.spec_next_element(pull) {
                    Ok(Some(element)) => (self, ProgressView::Item(Ok(element))),
                    Ok(None) => (Self::started(), ProgressView::Again),
                    Err(e) => (Self::over(), ProgressView::Item(Err(e))),
                },
            }
        }
    }

    /// A stream that has just been started: no record yet, not finished.
    pub fn new() -> (s: Self)
        ensures
            s == Self::started(),
            s.wf(),
    {
        BgpStream { current_record: None, finished: false }
    }

    /// Tells which pull the stream waits for.
    pub fn demand(&self) -> (d: Demand)
        ensures
            d == self.spec_demand(),
    {
        if self.finished {
            Demand::Nothing
        } else if self.current_record.is_some() {
            Demand::Element
        } else {
            Demand::Record
        }
    }

    /// Turns the answer to a record pull into the next record, for a
    /// caller who reads the elements of each record himself.
    ///
    /// The record that the stream was reading is given up: the pull has
    /// invalidated it. The end of the data source and every error end the
    /// stream; a stream that is over answers `EndOfStream`.
    pub fn next_record(&mut self, pull: RecordPull) -> (r: Result<PulledRecord, BgpStreamError>)
        ensures
            old(self).finished ==> (r matches Ok(PulledRecord::EndOfStream)) && *final(self)
                == *old(self),
            !old(self).finished ==> record_pulled_as(r, pull) && final(self).current_record is None
                && final(self).finished == (r is Err || (r matches Ok(PulledRecord::EndOfStream))),
            r matches Ok(PulledRecord::Record(record)) ==> record.wf(),
            old(self).wf() ==> final(self).wf(),
    {
        if self.finished {
            return Ok(PulledRecord::EndOfStream);
        }
        self.current_record = None;
        let r = Record::new(pull);
        match &r {
            Ok(PulledRecord::Record(_)) => {},
            Ok(PulledRecord::Skipped) => {},
            _ => {
                self.finished = true;
            },
        }
        r
    }

    /// Takes the answer to a record pull and tells what came of it.
    pub fn record_pulled(&mut self, pull: RecordPull) -> (progress: Progress)
        ensures
            (*final(self), progress@) == old(self).spec_record_pulled(pull),
            old(self).wf() ==> final(self).wf(),
    {
        if self.finished {
            return Progress::Finished;
        }
        self.current_record = None;
        match Record::new(pull) {
            Ok(PulledRecord::Record(record)) => {
                self.current_record = Some(record);
                Progress::Again
            },
            Ok(PulledRecord::Skipped) => Progress::Again,
            Ok(PulledRecord::EndOfStream) => {
                self.finished = true;
                Progress::Finished
            },
            Err(e) => {
                self.finished = true;
                Progress::Item(Err(e))
            },
        }
    }

    /// Takes the answer to an element pull and tells what came of it.
    pub fn element_pulled(&mut self, pull: &ElementPull) -> (progress: Progress)
        ensures
            (*final(self), progress@) == old(self).spec_element_pulled(*pull),
            old(self).wf() ==> final(self).wf(),
    {
        if self.finished {
            return Progress::Finished;
        }
        match self.current_record.take() {
            None => Progress::Again,
            Some(mut record) => {
                match record.next_element(pull) {
                    Ok(Some(element)) => {
                        self.current_record = Some(record);
                        Progress::Item(Ok(element))
                    },
                    Ok(None) => Progress::Again,
                    Err(e) => {
                        self.finished = true;
                        Progress::Item(Err(e))
                    },
                }
            },
        }
    }
}

/// A record outside the time interval is skipped: no item comes of it, and
/// the stream waits for its next record.
pub proof fn lemma_outside_interval_is_skipped(stream: BgpStream, pull: RecordPull)
    requires
        !stream.finished,
        pull.code > 0,
        pull.record is Some,
        pull.record->Some_0.status == RECORD_STATUS_OUTSIDE_TIME_INTERVAL,
    ensures
        stream.spec_record_pulled(pull) == (BgpStream::started(), ProgressView::Again),
        BgpStream::started().spec_demand() == Demand::Record,
{
}

/// A corrupted record is handed on as one error, and that error is the
/// last item: whatever the stream is handed afterwards, it stays over and
/// nothing more comes of it.
pub proof fn lemma_corrupted_record_ends_stream(
    stream: BgpStream,
    pull: RecordPull,
    later_record: RecordPull,
    later_element: ElementPull,
)
    requires
        !stream.finished,
        pull.code > 0,
        pull.record is Some,
        pull.record->Some_0.status == RECORD_STATUS_CORRUPTED_RECORD,
    ensures
        stream.spec_record_pulled(pull) == (
            BgpStream::over(),
            ProgressView::Item(Err(BgpStreamError::RecordCorrupted)),
        ),
        BgpStream::over().spec_demand() == Demand::Nothing,
        BgpStream::over().spec_record_pulled(later_record) == (
            BgpStream::over(),
            ProgressView::Finished,
        ),
        BgpStream::over().spec_element_pulled(later_element) == (
            BgpStream::over(),
            ProgressView::Finished,
        ),
{
}

/// A stream that is over stays over: it asks for nothing, and whatever it
/// is handed changes nothing and yields no item.
pub proof fn lemma_over_is_final(stream: BgpStream, record: RecordPull, element: ElementPull)
    requires
        stream.finished,
    ensures
        stream.spec_demand() == Demand::Nothing,
        stream.spec_record_pulled(record) == (stream, ProgressView::Finished),
        stream.spec_element_pulled(element) == (stream, ProgressView::Finished),
{
}

/// An error is always the last item of a stream: the answer that yields
/// one leaves the stream over. So does the end of the data source, and
/// nothing else does.
pub proof fn lemma_error_ends_stream(stream: BgpStream, record: RecordPull, element: ElementPull)
    requires
        !stream.finished,
    ensures
        stream.spec_record_pulled(record).0.finished <==> (stream.spec_record_pulled(record).1
            matches ProgressView::Item(Err(_))) || stream.spec_record_pulled(record).1
            is Finished,
        stream.spec_element_pulled(element).0.finished <==> (stream.spec_element_pulled(element).1
            matches ProgressView::Item(Err(_))),
{
}

/// What a data source answers over the life of a stream, written down
/// record by record: the answer to a record pull and the answers to the
/// element pulls that follow it.
#[derive(Debug)]
pub struct ScriptedRecord {
    pub pull: RecordPull,
    pub elements: Vec<ElementPull>,
}

/// The answer of a data source that has no further element for a record.
pub open spec fn end_of_record() -> ElementPull {
    ElementPull { code: ELEMENT_NONE, element: None }
}

/// The items that come of one answer: one or none.
pub open spec fn items_of(progress: ProgressView) -> Seq<Result<ElementView, BgpStreamError>> {
    match progress {
        ProgressView::Item(item) => seq![item],
        _ => Seq::empty(),
    }
}

/// What a list of items holds, item by item.
pub open spec fn items_view(items: Seq<Result<Element, BgpStreamError>>) -> Seq<
    Result<ElementView, BgpStreamError>,
> {
    Seq::new(
        items.len(),
        |i: int|
            match items[i] {
                Ok(element) => Ok(element@),
                Err(e) => Err(e),
            },
    )
}

/// The stream after it has read its record to the end, and the items that
/// came of it, given the answers to the element pulls from index `from`
/// on. Where the answers run out before the record is given up, the record
/// has no further element.
pub open spec fn read_record_from(stream: BgpStream, pulls: Seq<ElementPull>, from: int) -> (
    BgpStream,
    Seq<Result<ElementView, BgpStreamError>>,
)
    decreases pulls.len() - from,
{
    if stream.spec_demand() != Demand::Element {
        (stream, Seq::empty())
    } else if from < 0 || from >= pulls.len() {
        (stream.spec_element_pulled(end_of_record()).0, Seq::empty())
    } else {
        let (next, progress) = stream.spec_element_pulled(pulls[from]);
        let (last, rest) = read_record_from(next, pulls, from + 1);
        (last, items_of(progress) + rest)
    }
}

/// The items of a stream over a script, from the record at index `from`
/// on: for each record in turn what came of its pull, then what came of
/// reading it to the end.
pub open spec fn replay_from(stream: BgpStream, script: Seq<ScriptedRecord>, from: int) -> Seq<
    Result<ElementView, BgpStreamError>,
>
    decreases script.len() - from,
{
    if from < 0 || from >= script.len() {
        Seq::empty()
    } else {
        let (pulled, progress) = stream.spec_record_pulled(script[from].pull);
        let (read, items) = read_record_from(pulled, script[from].elements@, 0);
        items_of(progress) + items + replay_from(read, script, from + 1)
    }
}

/// The items of a freshly started stream over a script.
pub open spec fn replay_of(script: Seq<ScriptedRecord>) -> Seq<
    Result<ElementView, BgpStreamError>,
> {
    replay_from(BgpStream::started(), script, 0)
}

impl BgpStream {
    /// Reads the record of the stream to its end over the given answers
    /// and appends the items that come of it.
    fn read_record(&mut self, pulls: &Vec<ElementPull>, items: &mut Vec<Result<Element, BgpStreamError>>)
        ensures
            *final(self) == read_record_from(*old(self), pulls@, 0).0,
            items_view(final(items)@) == items_view(old(items)@) + read_record_from(
                *old(self),
                pulls@,
                0,
            ).1,
    {
        let mut j: usize = 0;
        let ghost before = items_view(items@);
        let ghost whole = read_record_from(*self, pulls@, 0);
        assert(items_view(items@) + whole.1 =~= before + whole.1);
        loop
            invariant_except_break
                0 <= j <= pulls@.len(),
                read_record_from(*self, pulls@, j as int).0 == whole.0,
                items_view(items@) + read_record_from(*self, pulls@, j as int).1 == before
                    + whole.1,
            ensures
                *self == whole.0,
                items_view(items@) == before + whole.1,
            decreases pulls@.len() - j + (if self.spec_demand() == Demand::Element { 1int } else { 0int }),
        {
            match self.demand() {
                Demand::Element => {},
                _ => {
                    assert(items_view(items@) + Seq::empty() =~= items_view(items@));
                    break ;
                },
            }
            let ghost stream_before = *self;
            let ghost items_before = items_view(items@);
            if j < pulls.len() {
                let progress = self.element_pulled(&pulls[j]);
                let ghost rest = read_record_from(*self, pulls@, j + 1).1;
                match progress {
                    Progress::Item(item) => {
                        items.push(item);
                        assert(items_view(items@) =~= items_before + items_of(progress@));
                    },
                    _ => {
                        assert(items_of(progress@) =~= Seq::empty());
                        assert(items_view(items@) =~= items_before + items_of(progress@));
                    },
                }
                assert(items_before + (items_of(progress@) + rest) =~= (items_before + items_of(
                    progress@,
                )) + rest);
                j += 1;
            } else {
                let end = ElementPull { code: ELEMENT_NONE, element: None };
                let progress = self.element_pulled(&end);
                assert(self.spec_demand() != Demand::Element);
                assert(items_view(items@) + Seq::empty() =~= items_view(items@));
            }
        }
    }

    /// Runs a freshly started stream over a script and collects its items
    /// in order: every element, and at most one error, which is then the
    /// last item.
    pub fn replay(script: Vec<ScriptedRecord>) -> (items: Vec<Result<Element, BgpStreamError>>)
        ensures
            items_view(items@) == replay_of(script@),
    {
        let mut stream = BgpStream::new();
        let mut items: Vec<Result<Element, BgpStreamError>> = Vec::new();
        let ghost all = script@;
        assert(items_view(items@) + replay_of(all) =~= replay_of(all));
        for scripted in it: script.into_iter()
            invariant
                it.seq() == all,
                items_view(items@) + replay_from(stream, all, it.index() as int) == replay_of(all),
        {
            let ghost index = it.index() as int;
            let ghost items_before = items_view(items@);
            let ghost stream_before = stream;
            let ScriptedRecord { pull, elements } = scripted;
            let progress = stream.record_pulled(pull);
            let ghost first = items_of(progress@);
            let ghost pulled = stream;
            match progress {
                Progress::Item(item) => {
                    items.push(item);
                    assert(items_view(items@) =~= items_before + first);
                },
                _ => {
                    assert(items_view(items@) =~= items_before + first);
                },
            }
            stream.read_record(&elements, &mut items);
            let ghost read = read_record_from(pulled, elements@, 0);
            let ghost rest = replay_from(stream, all, index + 1);
            assert(items_before + (first + read.1 + rest) =~= items_before + first + read.1 + rest);
        }
        assert(items_view(items@) + Seq::empty() =~= items_view(items@));
        items
    }
}

/// Whether every item but the last is an element.
pub open spec fn only_last_may_fail(items: Seq<Result<ElementView, BgpStreamError>>) -> bool {
    forall|k: int| 0 <= k < items.len() - 1 ==> (#[trigger] items[k]) is Ok
}

/// Whether the last item is an error.
pub open spec fn ends_in_error(items: Seq<Result<ElementView, BgpStreamError>>) -> bool {
    items.len() > 0 && items.last() is Err
}

/// Reading a record to its end yields elements and at most one error,
/// which is then the last item and leaves the stream over. A stream that
/// is over yields nothing and stays as it is.
pub proof fn lemma_read_record_fails_last(stream: BgpStream, pulls: Seq<ElementPull>, from: int)
    requires
        0 <= from,
    ensures
        only_last_may_fail(read_record_from(stream, pulls, from).1),
        ends_in_error(read_record_from(stream, pulls, from).1) ==> read_record_from(
            stream,
            pulls,
            from,
        ).0.finished,
        stream.finished ==> read_record_from(stream, pulls, from) == (
            stream,
            Seq::<Result<ElementView, BgpStreamError>>::empty(),
        ),
        !stream.finished && !ends_in_error(read_record_from(stream, pulls, from).1)
            ==> !read_record_from(stream, pulls, from).0.finished,
    decreases pulls.len() - from,
{
    if stream.spec_demand() == Demand::Element && from < pulls.len() {
        let (next, progress) = stream.spec_element_pulled(pulls[from]);
        lemma_read_record_fails_last(next, pulls, from + 1);
        let rest = read_record_from(next, pulls, from + 1).1;
        let items = items_of(progress) + rest;
        assert(read_record_from(stream, pulls, from).1 == items);
        match progress {
            ProgressView::Item(Err(e)) => {
                assert(next.finished);
                assert(items =~= seq![Err::<ElementView, BgpStreamError>(e)]);
            },
            ProgressView::Item(Ok(element)) => {
                assert forall|k: int| 0 <= k < items.len() - 1 implies (#[trigger] items[k])
                    is Ok by {
                    if k > 0 {
                        assert(items[k] == rest[k - 1]);
                    }
                }
                if rest.len() > 0 {
                    assert(items.last() == rest.last());
                }
            },
            _ => {
                assert(items =~= rest);
            },
        }
    }
}

/// A stream yields elements and at most one error, and the error is then
/// its last item: whatever the data source answers, and however long it
/// goes on answering, nothing comes after an error.
pub proof fn lemma_replay_fails_last(stream: BgpStream, script: Seq<ScriptedRecord>, from: int)
    requires
        0 <= from,
    ensures
        only_last_may_fail(replay_from(stream, script, from)),
        stream.finished ==> replay_from(stream, script, from) =~= Seq::empty(),
    decreases script.len() - from,
{
    if from < script.len() {
        let (pulled, progress) = stream.spec_record_pulled(script[from].pull);
        let (read, items) = read_record_from(pulled, script[from].elements@, 0);
        let rest = replay_from(read, script, from + 1);
        lemma_read_record_fails_last(pulled, script[from].elements@, 0);
        lemma_replay_fails_last(read, script, from + 1);
        let first = items_of(progress);
        let all = first + items + rest;
        assert(replay_from(stream, script, from) == all);
        if stream.finished {
            assert(all =~= Seq::empty());
        } else if first.len() > 0 {
            assert(pulled.finished);
            assert(all =~= first);
        } else if ends_in_error(items) {
            assert(read.finished);
            assert(all =~= items);
        } else {
            assert(all =~= items + rest);
            assert forall|k: int| 0 <= k < all.len() - 1 implies (#[trigger] all[k]) is Ok by {
                if k < items.len() {
                    assert(all[k] == items[k]);
                    if k == items.len() - 1 {
                        assert(items.last() is Ok);
                    }
                } else {
                    assert(all[k] == rest[k - items.len()]);
                }
            }
        }
    }
}

/// Of the items of a stream only the last may be an error.
pub proof fn lemma_only_the_last_item_may_fail(script: Seq<ScriptedRecord>)
    ensures
        only_last_may_fail(replay_of(script)),
{
    lemma_replay_fails_last(BgpStream::started(), script, 0);
}

} // verus!
