//! The live tail: subscribe, then receive without end.

use vstd::prelude::*;
use crate::error::ReadError;
use crate::record::Record;

verus! {

/// Where a tail stands.
#[derive(Debug, Clone, Copy, PartialEq, Eq, Structural)]
pub enum TailStage {
    /// The subscription has been asked for.
    Subscribing,
    /// Records are received as they arrive.
    Receiving,
}

/// What happened since the last step.
#[derive(Debug)]
pub enum TailEvent {
    /// The subscription stands.
    Subscribed,
    /// Receiving gave an error instead of a record.
    Fault,
    /// A record was received.
    Record(Record),
}

/// What the caller does next. No action ends the tail: it stops only when
/// the caller is told to from outside.
#[derive(Debug, Clone, Copy, PartialEq, Eq, Structural)]
pub enum TailAction {
    /// Subscribe to the topics of the session.
    Subscribe,
    /// Wait for the next record.
    Receive,
    /// Present the record, acknowledge its position without waiting for the
    /// acknowledgement to complete, then wait for the next record.
    PresentAndAcknowledge,
    /// Report the error on standard error, then wait for the next record.
    Report,
}

/// One step of a tail. Until the subscription stands, the subscription is
/// what is asked for, whatever happens. From then on every record is
/// presented and acknowledged, every error is reported, and the tail goes
/// on receiving.
pub open spec fn tail_of(stage: TailStage, event: TailEvent) -> (TailStage, TailAction) {
    match stage {
        TailStage::Subscribing => match event {
            TailEvent::Subscribed => (TailStage::Receiving, TailAction::Receive),
            _ => (TailStage::Subscribing, TailAction::Subscribe),
        },
        TailStage::Receiving => match event {
            TailEvent::Subscribed => (TailStage::Receiving, TailAction::Receive),
            TailEvent::Fault => (TailStage::Receiving, TailAction::Report),
            TailEvent::Record(_) => (TailStage::Receiving, TailAction::PresentAndAcknowledge),
        },
    }
}

/// The stage of a tail after a sequence of events.
pub open spec fn tail_after(stage: TailStage, events: Seq<TailEvent>) -> TailStage
    decreases events.len(),
{
    if events.len() == 0 {
        stage
    } else {
        tail_of(tail_after(stage, events.drop_last()), events.last()).0
    }
}

/// The records that a tail presents over a sequence of events, in order.
pub open spec fn tail_shown(stage: TailStage, events: Seq<TailEvent>) -> Seq<Record>
    decreases events.len(),
{
    if events.len() == 0 {
        Seq::empty()
    } else {
        let shown = tail_shown(stage, events.drop_last());
        let step = tail_of(tail_after(stage, events.drop_last()), events.last());
        if step.1 == TailAction::PresentAndAcknowledge {
            shown.push(events.last()->Record_0)
        } else {
            shown
        }
    }
}

/// A live tail in progress.
pub struct TailSession {
    topics: Vec<String>,
    stage: TailStage,
}

impl TailSession {
    pub closed spec fn topic_names(self) -> Seq<String> {
        self.topics@
    }

    pub closed spec fn stage_of(self) -> TailStage {
        self.stage
    }

    /// Begins a tail of the given topics. At least one topic is needed.
    pub fn begin(topics: Vec<String>) -> (begun: Result<(TailSession, TailAction), ReadError>)
        ensures
            topics@.len() == 0 ==> begun == Err::<(TailSession, TailAction), ReadError>(
                ReadError::MissingTopic,
            ),
            topics@.len() > 0 ==> {
                &&& begun is Ok
                &&& begun->Ok_0.0.topic_names() == topics@
                &&& begun->Ok_0.0.stage_of() == TailStage::Subscribing
                &&& begun->Ok_0.1 == TailAction::Subscribe
            },
    {
        if topics.len() == 0 {
            Err(ReadError::MissingTopic)
        } else {
            Ok((TailSession { topics, stage: TailStage::Subscribing }, TailAction::Subscribe))
        }
    }

    /// The topics to subscribe to.
    pub fn topics(&self) -> (topics: &Vec<String>)
        ensures
            topics@ == self.topic_names(),
    {
        &self.topics
    }

    /// Where the tail stands.
    pub fn stage(&self) -> (stage: TailStage)
        ensures
            stage == self.stage_of(),
    {
        self.stage
    }
}

/// Takes what happened and says what to do next.
pub fn tail(session: &mut TailSession, event: &TailEvent) -> (action: TailAction)
    ensures
        final(session).topic_names() == old(session).topic_names(),
        (final(session).stage_of(), action) == tail_of(old(session).stage_of(), *event),
{
    match session.stage {
        TailStage::Subscribing => match event {
            TailEvent::Subscribed => {
                session.stage = TailStage::Receiving;
                TailAction::Receive
            },
            _ => TailAction::Subscribe,
        },
        TailStage::Receiving => match event {
            TailEvent::Subscribed => TailAction::Receive,
            TailEvent::Fault => TailAction::Report,
            TailEvent::Record(_) => TailAction::PresentAndAcknowledge,
        },
    }
}

/// A tail that receives goes on receiving, whatever arrives and however
/// much of it: there is no event after which it has stopped. Every record
/// that arrives is presented, in the order of arrival.
pub proof fn lemma_tail_never_ends(events: Seq<TailEvent>)
    ensures
        tail_after(TailStage::Receiving, events) == TailStage::Receiving,
        tail_shown(TailStage::Receiving, events) == events.filter(
            |e: TailEvent| e is Record,
        ).map_values(|e: TailEvent| e->Record_0),
    decreases events.len(),
{
    let is_record = |e: TailEvent| e is Record;
    let record_of = |e: TailEvent| e->Record_0;
    if events.len() == 0 {
        assert(events.filter(is_record) =~= Seq::<TailEvent>::empty()) by {
            reveal(Seq::filter);
        }
        assert(events.filter(is_record).map_values(record_of) =~= Seq::<Record>::empty());
    } else {
        lemma_tail_never_ends(events.drop_last());
        let head = events.drop_last();
        assert(events == head.push(events.last()));
        assert(events.filter(is_record) == if is_record(events.last()) {
            head.filter(is_record).push(events.last())
        } else {
            head.filter(is_record)
        }) by {
            reveal(Seq::filter);
        }
        assert(tail_shown(TailStage::Receiving, events) =~= events.filter(is_record).map_values(
            record_of,
        ));
    }
}

} // verus!
